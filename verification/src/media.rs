//! Media ids and URIs.
use vstd::prelude::*;

verus! {

/// What a URI names, as far as playback cares.
#[derive(Clone, Copy, Debug, PartialEq, Eq, Structural)]
pub enum MediaUri {
    Track(u128),
    Playlist(u128),
    Other,
}

/// The value of a base62 digit: 0-9, then a-z, then A-Z.
pub open spec fn base62_digit(c: char) -> Option<nat> {
    if '0' <= c <= '9' {
        Some((c as int - '0' as int) as nat)
    } else if 'a' <= c <= 'z' {
        Some((c as int - 'a' as int + 10) as nat)
    } else if 'A' <= c <= 'Z' {
        Some((c as int - 'A' as int + 36) as nat)
    } else {
        None
    }
}

/// The number that a run of base62 digits stands for.
pub open spec fn base62_value(s: Seq<char>) -> nat
    decreases s.len(),
{
    if s.len() == 0 {
        0
    } else {
        base62_value(s.drop_last()) * 62 + base62_digit(s.last())->0
    }
}

/// The id that a text spells: 22 base62 digits whose value fits in 128 bits.
pub open spec fn base62_id(s: Seq<char>) -> Option<u128> {
    if s.len() == 22 && (forall|i: int| 0 <= i < s.len() ==> base62_digit(#[trigger] s[i]) is Some)
        && base62_value(s) <= u128::MAX {
        Some(base62_value(s) as u128)
    } else {
        None
    }
}

/// What is said of a text that spells no id.
pub open spec fn bad_id_text() -> Seq<char> {
    "Client specified an invalid argument { ID cannot be parsed }"@
}

/// `SpotifyId::from_base62`. Claimed: it accepts exactly the texts of 22 base62 digits
/// (0-9, a-z, A-Z) whose value fits in 128 bits and returns that value; on any other
/// text its error reads as `bad_id_text`.
#[verifier::external_body]
pub(crate) fn id_from_base62(src: &str) -> (r: Result<u128, String>)
    ensures
        match r {
            Ok(id) => base62_id(src@) == Some(id),
            Err(text) => base62_id(src@) is None && text@ == bad_id_text(),
        },
{
    match librespot::core::SpotifyId::from_base62(src) {
        Ok(id) => Ok(id.id),
        Err(e) => Err(e.to_string()),
    }
}

/// `SpotifyId::to_base62`. Claimed: it always succeeds, and the 22 digits that it
/// returns spell the id.
#[verifier::external_body]
pub(crate) fn id_to_base62(id: u128) -> (r: Option<String>)
    ensures
        r is Some,
        base62_id(r->0@) == Some(id),
{
    librespot::core::SpotifyId { id }.to_base62().ok()
}

/// What `SpotifyUri::from_uri` makes of a text: the item that it names, or the text of
/// the error.
pub uninterp spec fn uri_meaning(src: Seq<char>) -> Result<MediaUri, Seq<char>>;

/// A parsed URI, with an error by its text.
pub open spec fn uri_result(r: Result<MediaUri, String>) -> Result<MediaUri, Seq<char>> {
    match r {
        Ok(uri) => Ok(uri),
        Err(text) => Err(text@),
    }
}

/// `SpotifyUri::from_uri`. Claimed: the outcome depends on the text alone. What stands
/// behind `spotify:playlist:` without a further colon is the id of that playlist, and an
/// error that reads as `bad_id_text` if it spells none.
#[verifier::external_body]
pub(crate) fn uri_from_text(src: &str) -> (r: Result<MediaUri, String>)
    ensures
        uri_result(r) == uri_meaning(src@),
        forall|id: Seq<char>| #[trigger]
            ("spotify:playlist:"@ + id) == src@ && !id.contains(':') ==> match base62_id(id) {
                Some(n) => r is Ok && r->Ok_0 == MediaUri::Playlist(n),
                None => r is Err && r->Err_0@ == bad_id_text(),
            },
{
    match librespot::core::SpotifyUri::from_uri(src) {
        Ok(librespot::core::SpotifyUri::Track { id }) => Ok(MediaUri::Track(id.id)),
        Ok(librespot::core::SpotifyUri::Playlist { id, .. }) => Ok(MediaUri::Playlist(id.id)),
        Ok(_) => Ok(MediaUri::Other),
        Err(e) => Err(e.to_string()),
    }
}

/// The base62 id of a track, none for anything that is not a track.
pub fn spotify_track_base62(uri: &MediaUri) -> (r: Option<String>)
    ensures
        match *uri {
            MediaUri::Track(id) => r is Some && base62_id(r->0@) == Some(id),
            _ => r is None,
        },
{
    match uri {
        MediaUri::Track(id) => id_to_base62(*id),
        _ => None,
    }
}

/// Two texts that spell the same id are equal.
pub proof fn base62_ids_are_unique(a: Seq<char>, b: Seq<char>)
    requires
        base62_id(a) is Some,
        base62_id(a) == base62_id(b),
    ensures
        a == b,
{
    lemma_base62_unique(a, b);
}

proof fn lemma_base62_unique(a: Seq<char>, b: Seq<char>)
    requires
        a.len() == b.len(),
        forall|i: int| 0 <= i < a.len() ==> base62_digit(#[trigger] a[i]) is Some,
        forall|i: int| 0 <= i < b.len() ==> base62_digit(#[trigger] b[i]) is Some,
        base62_value(a) == base62_value(b),
    ensures
        a == b,
    decreases a.len(),
{
    if a.len() > 0 {
        let n = a.len() - 1;
        assert(base62_digit(a[n]) is Some);
        assert(base62_digit(b[n]) is Some);
        let va = base62_value(a.drop_last());
        let vb = base62_value(b.drop_last());
        assert(va == vb && a[n] == b[n]);
        lemma_base62_unique(a.drop_last(), b.drop_last());
        assert(a =~= a.drop_last().push(a[n]));
        assert(b =~= b.drop_last().push(b[n]));
    } else {
        assert(a =~= b);
    }
}

/// The digits of an id count as in any number: those of a first part count once for each
/// value of the digits behind it.
pub proof fn base62_digits_count_by_place(a: Seq<char>, c: char)
    ensures
        base62_value(a.push(c)) == base62_value(a) * 62 + base62_digit(c)->0,
        base62_digit('0') == Some(0nat),
        base62_digit('9') == Some(9nat),
        base62_digit('a') == Some(10nat),
        base62_digit('z') == Some(35nat),
        base62_digit('A') == Some(36nat),
        base62_digit('Z') == Some(61nat),
{
    assert(a.push(c).drop_last() =~= a);
}

} // verus!
