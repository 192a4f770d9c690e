//! The playlists of the user's profile.
use crate::daemon::browse::{sanitize_field, sanitized};
use crate::text::{append_number, decimal, strip_prefix, view_opt, without_prefix};
use vstd::prelude::*;
use vstd::string::*;

verus! {

/// At most this many playlists are asked for and listed.
pub const MAX_PLAYLISTS: usize = 100;

/// A JSON value, as far as a profile is read.
pub enum Json {
    Object(Map<Seq<char>, Json>),
    Array(Seq<Json>),
    Text(Seq<char>),
    Other,
}

/// `serde_json::Value`, a JSON document in memory.
#[verifier::external_type_specification]
#[verifier::external_body]
pub struct ExValue(serde_json::Value);

/// What a JSON document holds.
pub uninterp spec fn json(value: serde_json::Value) -> Json;

/// What `serde_json::from_slice` makes of bytes: a value, or the text of the error.
pub uninterp spec fn json_parsed(bytes: Seq<u8>) -> Result<Json, Seq<char>>;

/// `serde_json::from_slice`. Claimed: the outcome depends on the bytes alone.
#[verifier::external_body]
fn parse_json(bytes: &[u8]) -> (r: Result<serde_json::Value, String>)
    ensures
        json_result(r) == json_parsed(bytes@),
{
    serde_json::from_slice(bytes).map_err(|e: serde_json::Error| e.to_string())
}

/// The value that an object has under a key.
pub open spec fn field(value: Json, key: Seq<char>) -> Option<Json> {
    match value {
        Json::Object(map) => if map.contains_key(key) {
            Some(map[key])
        } else {
            None
        },
        _ => None,
    }
}

/// `serde_json::Value::get`. Claimed: it finds what an object has under the key, and
/// nothing in a value that is no object or lacks the key.
#[verifier::external_body]
fn json_field<'a>(value: &'a serde_json::Value, key: &str) -> (r: Option<&'a serde_json::Value>)
    ensures
        match r {
            Some(inner) => field(json(*value), key@) == Some(json(*inner)),
            None => field(json(*value), key@) is None,
        },
{
    value.get(key)
}

/// The values that several documents hold.
pub open spec fn jsons(values: Seq<serde_json::Value>) -> Seq<Json> {
    Seq::new(values.len(), |i: int| json(values[i]))
}

/// `serde_json::Value::as_array`. Claimed: it returns the elements of an array, and
/// nothing of any other value.
#[verifier::external_body]
fn json_array<'a>(value: &'a serde_json::Value) -> (r: Option<&'a Vec<serde_json::Value>>)
    ensures
        match r {
            Some(items) => json(*value) == Json::Array(jsons(items@)),
            None => !(json(*value) is Array),
        },
{
    value.as_array()
}

/// `serde_json::Value::as_str`. Claimed: it returns the text of a string, and nothing of
/// any other value.
#[verifier::external_body]
fn json_text<'a>(value: &'a serde_json::Value) -> (r: Option<&'a str>)
    ensures
        match r {
            Some(text) => json(*value) == Json::Text(text@),
            None => !(json(*value) is Text),
        },
{
    value.as_str()
}

/// The text that an object has under a key.
pub open spec fn text_field(value: Json, key: Seq<char>) -> Option<Seq<char>> {
    match field(value, key) {
        Some(Json::Text(text)) => Some(text),
        _ => None,
    }
}

pub open spec fn text_or(text: Option<Seq<char>>, other: Seq<char>) -> Seq<char> {
    match text {
        Some(text) => text,
        None => other,
    }
}

/// The line for an entry of a profile; none for an entry that is no playlist.
pub open spec fn playlist_line(entry: Json) -> Option<Seq<char>> {
    match text_field(entry, "uri"@) {
        Some(uri) => match without_prefix(uri, "spotify:playlist:"@) {
            Some(id) => Some(
                "PLAYLIST "@ + sanitized(id) + "\t"@ + sanitized(
                    text_or(text_field(entry, "name"@), "Untitled Playlist"@),
                ) + "\t"@ + sanitized(text_or(text_field(entry, "owner_name"@), ""@)) + "\n"@,
            ),
            None => None,
        },
        None => None,
    }
}

/// The lines for the entries of a profile.
pub open spec fn playlist_lines(entries: Seq<Json>) -> Seq<Seq<char>>
    decreases entries.len(),
{
    if entries.len() == 0 {
        seq![]
    } else {
        let rest = playlist_lines(entries.drop_last());
        match playlist_line(entries.last()) {
            Some(line) => rest.push(line),
            None => rest,
        }
    }
}

/// Texts one behind the other.
pub open spec fn chained(texts: Seq<Seq<char>>) -> Seq<char>
    decreases texts.len(),
{
    if texts.len() == 0 {
        seq![]
    } else {
        chained(texts.drop_last()) + texts.last()
    }
}

/// The first entries, as many as are listed.
pub open spec fn listed(entries: Seq<Json>) -> Seq<Json> {
    if entries.len() <= MAX_PLAYLISTS {
        entries
    } else {
        entries.take(MAX_PLAYLISTS as int)
    }
}

/// The answer that lists the playlists of a profile.
pub open spec fn profile_text(profile: Json) -> Seq<char> {
    match field(profile, "public_playlists"@) {
        Some(Json::Array(entries)) => {
            let lines = playlist_lines(listed(entries));
            chained(lines) + "END "@ + decimal(lines.len()) + "\n"@
        },
        _ => "ERR profile has no public_playlists field\n"@,
    }
}

/// The answer for a profile that was parsed, or could not be.
pub open spec fn profile_answer(parsed: Result<Json, Seq<char>>) -> Seq<char> {
    match parsed {
        Ok(profile) => profile_text(profile),
        Err(error) => "ERR playlist profile parse failed: "@ + error + "\n"@,
    }
}

fn read_text<'a>(value: &'a serde_json::Value, key: &str) -> (r: Option<&'a str>)
    ensures
        view_opt(r) == text_field(json(*value), key@),
{
    match json_field(value, key) {
        Some(inner) => json_text(inner),
        None => None,
    }
}

/// The line for an entry of a profile.
fn write_playlist_line(entry: &serde_json::Value) -> (r: Option<String>)
    ensures
        view_opt(r) == playlist_line(json(*entry)),
{
    let uri = match read_text(entry, "uri") {
        Some(uri) => uri,
        None => {
            return None;
        },
    };
    let id = match strip_prefix(uri, "spotify:playlist:") {
        Some(id) => id,
        None => {
            return None;
        },
    };
    let name = match read_text(entry, "name") {
        Some(name) => name,
        None => "Untitled Playlist",
    };
    let owner = match read_text(entry, "owner_name") {
        Some(owner) => owner,
        None => "",
    };
    let mut line = "PLAYLIST ".to_owned();
    line.append(sanitize_field(id).as_str());
    line.append("\t");
    line.append(sanitize_field(name).as_str());
    line.append("\t");
    line.append(sanitize_field(owner).as_str());
    line.append("\n");
    Some(line)
}

/// The answer that lists the playlists of a parsed profile.
pub fn list_playlists(profile: &serde_json::Value) -> (r: String)
    ensures
        r@ == profile_text(json(*profile)),
{
    let found = match json_field(profile, "public_playlists") {
        Some(inner) => json_array(inner),
        None => None,
    };
    let entries = match found {
        Some(entries) => entries,
        None => {
            return "ERR profile has no public_playlists field\n".to_owned();
        },
    };
    let ghost all = listed(jsons(entries@));
    let mut reply = String::new();
    let mut count: usize = 0;
    let mut i: usize = 0;
    assert(reply@ =~= chained(playlist_lines(all.take(0))));
    while i < entries.len() && i < MAX_PLAYLISTS
        invariant
            i <= entries.len(),
            i <= MAX_PLAYLISTS,
            all == listed(jsons(entries@)),
            count <= i,
            count == playlist_lines(all.take(i as int)).len(),
            reply@ == chained(playlist_lines(all.take(i as int))),
        decreases entries.len() - i,
    {
        assert(all.take(i as int + 1).drop_last() =~= all.take(i as int));
        assert(all[i as int] == json(entries@[i as int]));
        let ghost lines = playlist_lines(all.take(i as int));
        match write_playlist_line(&entries[i]) {
            Some(line) => {
                reply.append(line.as_str());
                count += 1;
                assert(lines.push(line@).drop_last() =~= lines);
            },
            None => {},
        }
        i += 1;
    }
    assert(all.take(i as int) =~= all);
    reply.append("END ");
    append_number(&mut reply, count as u64);
    reply.append("\n");
    reply
}

/// A parsed profile by what it holds, or the text of the error.
pub open spec fn json_result(parsed: Result<serde_json::Value, String>) -> Result<Json, Seq<char>> {
    match parsed {
        Ok(value) => Ok(json(value)),
        Err(text) => Err(text@),
    }
}

/// The answer for a profile that was parsed, or could not be.
pub fn answer_profile(parsed: Result<serde_json::Value, String>) -> (r: String)
    ensures
        r@ == profile_answer(json_result(parsed)),
{
    match parsed {
        Ok(profile) => list_playlists(&profile),
        Err(error) => {
            let mut text = "ERR playlist profile parse failed: ".to_owned();
            text.append(error.as_str());
            text.append("\n");
            text
        },
    }
}

/// The answer to `PLAYLISTS`, from the profile that was fetched, or from the text of the
/// error if it could not be.
pub fn public_playlists(fetched: Result<Vec<u8>, String>) -> (r: String)
    ensures
        r@ == match fetched {
            Ok(bytes) => profile_answer(json_parsed(bytes@)),
            Err(error) => "ERR playlist profile fetch failed: "@ + error@ + "\n"@,
        },
{
    match fetched {
        Ok(bytes) => answer_profile(parse_json(bytes.as_slice())),
        Err(error) => {
            let mut text = "ERR playlist profile fetch failed: ".to_owned();
            text.append(error.as_str());
            text.append("\n");
            text
        },
    }
}

/// The playlists of a profile are listed in its order: those of its first part and then
/// those of the rest.
pub proof fn profile_is_listed_in_order(a: Seq<Json>, b: Seq<Json>)
    ensures
        playlist_lines(a + b) == playlist_lines(a) + playlist_lines(b),
    decreases b.len(),
{
    if b.len() == 0 {
        assert(a + b =~= a);
        assert(playlist_lines(a) + playlist_lines(b) =~= playlist_lines(a));
    } else {
        profile_is_listed_in_order(a, b.drop_last());
        assert((a + b).drop_last() =~= a + b.drop_last());
        assert((a + b).last() == b.last());
        assert(playlist_lines(a + b) =~= playlist_lines(a) + playlist_lines(b));
    }
}

/// An entry is listed exactly if its URI is that of a playlist: by what stands behind the
/// prefix, its name and its owner.
pub proof fn playlist_is_listed_by_its_fields(
    entry: Json,
    id: Seq<char>,
    name: Seq<char>,
    owner: Seq<char>,
)
    requires
        text_field(entry, "uri"@) == Some("spotify:playlist:"@ + id),
        text_field(entry, "name"@) == Some(name),
        text_field(entry, "owner_name"@) == Some(owner),
    ensures
        playlist_line(entry) == Some(
            "PLAYLIST "@ + sanitized(id) + "\t"@ + sanitized(name) + "\t"@ + sanitized(owner) + "\n"@,
        ),
{
    crate::text::lemma_without_prefix("spotify:playlist:"@, id);
}

/// A profile is cut behind its hundredth entry.
pub proof fn profile_is_cut_at_a_hundred(entries: Seq<Json>, i: int)
    ensures
        listed(entries).len() == if entries.len() < 100 {
            entries.len()
        } else {
            100
        },
        0 <= i < listed(entries).len() ==> listed(entries)[i] == entries[i],
{
}

} // verus!
