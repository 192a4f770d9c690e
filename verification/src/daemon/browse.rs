//! What the browse commands fetch, remember and answer.
use crate::daemon::control::{Listing, ListingView};
use crate::daemon::events::join_names;
use crate::daemon::load::{refreshed, texts_result};
use crate::daemon::queue::{QueueSource, SourceView};
use crate::daemon::state::{CacheView, Daemon, DaemonView};
use crate::media::{
    bad_id_text, base62_id, id_from_base62, spotify_track_base62, uri_from_text, uri_meaning,
    uri_result, MediaUri,
};
use crate::text::{
    after_last, append_number, chars, decimal, joined, last_part, starts_with, strip_prefix,
    view_opt, views, without_prefix,
};
use vstd::prelude::*;
use vstd::string::*;

verus! {

/// A separator of the line protocol as a blank, any other character as itself.
pub open spec fn blank_separator(c: char) -> char {
    if c == '\t' || c == '\r' || c == '\n' {
        ' '
    } else {
        c
    }
}

/// `s` with every tab, carriage return and line feed replaced by a blank.
pub open spec fn sanitized(s: Seq<char>) -> Seq<char> {
    Seq::new(s.len(), |i: int| blank_separator(s[i]))
}

/// Keep line-oriented protocol fields from containing separators.
pub fn sanitize_field(value: &str) -> (r: String)
    ensures
        r@ == sanitized(value@),
{
    let v = chars(value);
    let mut r = String::new();
    let mut i: usize = 0;
    while i < v.len()
        invariant
            i <= v.len(),
            v@ == value@,
            r@ =~= sanitized(value@).take(i as int),
        decreases v.len() - i,
    {
        let c = v[i];
        if c == '\t' || c == '\r' || c == '\n' {
            r.push(' ');
        } else {
            r.push(c);
        }
        i += 1;
    }
    r
}

/// The bare id of a playlist that is named by its id or by its URI.
pub open spec fn cache_key(playlist: Seq<char>) -> Seq<char> {
    match without_prefix(playlist, "spotify:playlist:"@) {
        Some(id) => id,
        None => playlist,
    }
}

/// The key under which the tracks of a playlist are remembered.
pub fn playlist_cache_key(playlist_arg: &str) -> (r: String)
    ensures
        r@ == cache_key(playlist_arg@),
{
    match strip_prefix(playlist_arg, "spotify:playlist:") {
        Some(id) => id.to_owned(),
        None => playlist_arg.to_owned(),
    }
}

/// At most this many tracks of a list are shown.
pub const MAX_RESULTS: usize = 50;

/// The first tracks of a list, as many as are shown.
pub open spec fn shown<A>(list: Seq<A>) -> Seq<A> {
    if list.len() <= MAX_RESULTS {
        list
    } else {
        list.take(MAX_RESULTS as int)
    }
}

/// The track ids among the URIs of a page, in order.
pub open spec fn page_track_ids(page: Seq<Option<Seq<char>>>) -> Seq<Seq<char>>
    decreases page.len(),
{
    if page.len() == 0 {
        seq![]
    } else {
        let rest = page_track_ids(page.drop_last());
        match page.last() {
            Some(uri) => match without_prefix(uri, "spotify:track:"@) {
                Some(id) => rest.push(id),
                None => rest,
            },
            None => rest,
        }
    }
}

/// The tracks that are shown of a context: those of its first page that has any.
pub open spec fn context_ids(pages: Seq<Seq<Option<Seq<char>>>>) -> Seq<Seq<char>>
    decreases pages.len(),
{
    if pages.len() == 0 {
        seq![]
    } else if page_track_ids(pages[0]).len() > 0 {
        shown(page_track_ids(pages[0]))
    } else {
        context_ids(pages.skip(1))
    }
}

/// The URIs of a page.
pub open spec fn page_view(page: Vec<Option<String>>) -> Seq<Option<Seq<char>>> {
    Seq::new(page@.len(), |i: int| view_opt(page@[i]))
}

/// The URIs of each page.
pub open spec fn pages_view(pages: Seq<Vec<Option<String>>>) -> Seq<Seq<Option<Seq<char>>>> {
    Seq::new(pages.len(), |i: int| page_view(pages[i]))
}

proof fn lemma_page_track_ids_grow(page: Seq<Option<Seq<char>>>, n: int)
    requires
        0 <= n <= page.len(),
    ensures
        page_track_ids(page.take(n)).is_prefix_of(page_track_ids(page)),
    decreases page.len(),
{
    if n < page.len() {
        lemma_page_track_ids_grow(page.drop_last(), n);
        assert(page.drop_last().take(n) =~= page.take(n));
        let rest = page_track_ids(page.drop_last());
        assert(rest.is_prefix_of(page_track_ids(page)));
    } else {
        assert(page.take(n) =~= page);
    }
}

/// The tracks of one page, as many as are shown.
fn page_ids(page: &Vec<Option<String>>) -> (r: Vec<String>)
    ensures
        views(r@) == shown(page_track_ids(page_view(*page))),
{
    let ghost uris = page_view(*page);
    let mut ids: Vec<String> = Vec::new();
    let mut i: usize = 0;
    assert(views(ids@) =~= page_track_ids(uris.take(0)));
    while i < page.len()
        invariant
            i <= page.len(),
            uris == page_view(*page),
            views(ids@) == page_track_ids(uris.take(i as int)),
            ids.len() < MAX_RESULTS,
        decreases page.len() - i,
    {
        assert(uris.take(i as int + 1).drop_last() =~= uris.take(i as int));
        assert(uris[i as int] == view_opt(page@[i as int]));
        let ghost before = ids@;
        match &page[i] {
            Some(uri) => match strip_prefix(uri.as_str(), "spotify:track:") {
                Some(id) => {
                    ids.push(id.to_owned());
                    assert(views(ids@) =~= views(before).push(id@));
                },
                None => {},
            },
            None => {},
        }
        i += 1;
        assert(views(ids@) == page_track_ids(uris.take(i as int)));
        if ids.len() >= MAX_RESULTS {
            proof {
                lemma_page_track_ids_grow(uris, i as int);
                assert(views(ids@) =~= page_track_ids(uris).take(MAX_RESULTS as int));
                assert(views(ids@) =~= shown(page_track_ids(uris)));
            }
            return ids;
        }
    }
    assert(uris.take(i as int) =~= uris);
    assert(views(ids@).len() == ids.len());
    ids
}

/// What becomes of the tracks of a context, or of the failure to fetch it.
pub open spec fn context_result(fetched: Result<Seq<Seq<Option<Seq<char>>>>, Seq<char>>) -> Result<
    Seq<Seq<char>>,
    Seq<char>,
> {
    match fetched {
        Ok(pages) => Ok(context_ids(pages)),
        Err(error) => Err("context failed: "@ + error),
    }
}

/// What becomes of the results of a search, or of the failure to fetch them: the tracks
/// of the first page are taken.
pub open spec fn search_result(fetched: Result<Seq<Seq<Option<Seq<char>>>>, Seq<char>>) -> Result<
    Seq<Seq<char>>,
    Seq<char>,
> {
    match fetched {
        Ok(pages) => Ok(
            if pages.len() == 0 {
                seq![]
            } else {
                shown(page_track_ids(pages[0]))
            },
        ),
        Err(error) => Err("context failed: "@ + error),
    }
}

/// A fetched context by its URIs.
pub open spec fn pages_result(fetched: Result<Vec<Vec<Option<String>>>, String>) -> Result<
    Seq<Seq<Option<Seq<char>>>>,
    Seq<char>,
> {
    match fetched {
        Ok(pages) => Ok(pages_view(pages@)),
        Err(error) => Err(error@),
    }
}

/// The tracks of a context that was fetched page by page, each track by its URI if it
/// has one.
pub fn context_track_ids(fetched: Result<Vec<Vec<Option<String>>>, String>) -> (r: Result<
    Vec<String>,
    String,
>)
    ensures
        texts_result(r) == context_result(pages_result(fetched)),
{
    match fetched {
        Ok(pages) => {
            let ghost all = pages_view(pages@);
            let mut i: usize = 0;
            assert(all.skip(0) =~= all);
            while i < pages.len()
                invariant
                    i <= pages.len(),
                    pages_result(fetched) == Ok::<Seq<Seq<Option<Seq<char>>>>, Seq<char>>(all),
                    all == pages_view(pages@),
                    context_ids(all) == context_ids(all.skip(i as int)),
                decreases pages.len() - i,
            {
                assert(all.skip(i as int)[0] == page_view(pages@[i as int]));
                let ids = page_ids(&pages[i]);
                assert(views(ids@).len() == ids.len());
                if ids.len() > 0 {
                    return Ok(ids);
                }
                assert(all.skip(i as int).skip(1) =~= all.skip(i as int + 1));
                i += 1;
            }
            let ids: Vec<String> = Vec::new();
            assert(views(ids@) =~= seq![]);
            Ok(ids)
        },
        Err(error) => Err(context_failed(error.as_str())),
    }
}

fn context_failed(error: &str) -> (r: String)
    ensures
        r@ == "context failed: "@ + error@,
{
    let mut text = "context failed: ".to_owned();
    text.append(error);
    text
}

/// The tracks of the first page of a search that was fetched page by page, each track by
/// its URI if it has one.
pub fn search_track_ids(fetched: Result<Vec<Vec<Option<String>>>, String>) -> (r: Result<
    Vec<String>,
    String,
>)
    ensures
        texts_result(r) == search_result(pages_result(fetched)),
{
    match fetched {
        Ok(pages) => {
            if pages.len() == 0 {
                let ids: Vec<String> = Vec::new();
                assert(views(ids@) =~= seq![]);
                Ok(ids)
            } else {
                assert(pages_view(pages@)[0] == page_view(pages@[0]));
                Ok(page_ids(&pages[0]))
            }
        },
        Err(error) => Err(context_failed(error.as_str())),
    }
}

/// The ids of the tracks among the items of a playlist, in order.
pub open spec fn item_ids(items: Seq<MediaUri>) -> Seq<u128>
    decreases items.len(),
{
    if items.len() == 0 {
        seq![]
    } else {
        let rest = item_ids(items.drop_last());
        match items.last() {
            MediaUri::Track(id) => rest.push(id),
            _ => rest,
        }
    }
}

/// Whether each text spells the id at its place.
pub open spec fn spell(texts: Seq<Seq<char>>, ids: Seq<u128>) -> bool {
    texts.len() == ids.len() && forall|i: int|
        0 <= i < ids.len() ==> base62_id(#[trigger] texts[i]) == Some(ids[i])
}

proof fn lemma_item_ids_grow(items: Seq<MediaUri>, n: int)
    requires
        0 <= n <= items.len(),
    ensures
        item_ids(items.take(n)).is_prefix_of(item_ids(items)),
    decreases items.len(),
{
    if n < items.len() {
        lemma_item_ids_grow(items.drop_last(), n);
        assert(items.drop_last().take(n) =~= items.take(n));
        assert(item_ids(items.drop_last()).is_prefix_of(item_ids(items)));
    } else {
        assert(items.take(n) =~= items);
    }
}

/// The tracks of a playlist that was fetched.
pub fn playlist_track_ids(fetched: Result<Vec<MediaUri>, String>) -> (r: Result<Vec<String>, String>)
    ensures
        match fetched {
            Ok(items) => r is Ok && spell(views(r->Ok_0@), shown(item_ids(items@))),
            Err(error) => r is Err && r->Err_0@ == "playlist fetch failed: "@ + error@,
        },
{
    match fetched {
        Ok(items) => {
            let mut ids: Vec<String> = Vec::new();
            let mut i: usize = 0;
            assert(views(ids@) =~= seq![]);
            while i < items.len()
                invariant
                    i <= items.len(),
                    fetched is Ok && fetched->Ok_0 == items,
                    spell(views(ids@), item_ids(items@.take(i as int))),
                    ids.len() < MAX_RESULTS,
                decreases items.len() - i,
            {
                assert(items@.take(i as int + 1).drop_last() =~= items@.take(i as int));
                let ghost before = ids@;
                let ghost known = item_ids(items@.take(i as int));
                match spotify_track_base62(&items[i]) {
                    Some(id) => {
                        ids.push(id);
                        assert(views(ids@) =~= views(before).push(id@));
                        assert(spell(views(ids@), known.push(items@[i as int]->Track_0)));
                    },
                    None => {},
                }
                i += 1;
                assert(spell(views(ids@), item_ids(items@.take(i as int))));
                if ids.len() >= MAX_RESULTS {
                    proof {
                        lemma_item_ids_grow(items@, i as int);
                        assert(item_ids(items@.take(i as int)) =~= shown(item_ids(items@)));
                    }
                    return Ok(ids);
                }
            }
            assert(items@.take(i as int) =~= items@);
            Ok(ids)
        },
        Err(error) => {
            let mut text = "playlist fetch failed: ".to_owned();
            text.append(error.as_str());
            Err(text)
        },
    }
}

/// The URI of the playlist that an id or a URI names.
pub open spec fn playlist_uri(arg: Seq<char>) -> Seq<char> {
    if "spotify:"@.is_prefix_of(arg) {
        arg
    } else {
        "spotify:playlist:"@ + arg
    }
}

/// The playlist to fetch, from what its URI means.
pub open spec fn target_of(arg: Seq<char>, meaning: Result<MediaUri, Seq<char>>) -> Result<
    MediaUri,
    Seq<char>,
> {
    if arg.len() == 0 {
        Err("empty playlist id"@)
    } else {
        match meaning {
            Ok(uri) => Ok(uri),
            Err(error) => Err("bad playlist uri '"@ + playlist_uri(arg) + "': "@ + error),
        }
    }
}

/// The playlist to fetch for an argument, from what its URI means or the text of the
/// error.
pub fn target_from(arg: &str, meaning: Result<MediaUri, String>) -> (r: Result<MediaUri, String>)
    ensures
        uri_result(r) == target_of(arg@, uri_result(meaning)),
{
    if arg.is_empty() {
        return Err("empty playlist id".to_owned());
    }
    match meaning {
        Ok(uri) => Ok(uri),
        Err(error) => {
            let uri = write_playlist_uri(arg);
            let mut text = "bad playlist uri '".to_owned();
            text.append(uri.as_str());
            text.append("': ");
            text.append(error.as_str());
            Err(text)
        },
    }
}

fn write_playlist_uri(arg: &str) -> (r: String)
    ensures
        r@ == playlist_uri(arg@),
{
    if starts_with(arg, "spotify:") {
        arg.to_owned()
    } else {
        let mut uri = "spotify:playlist:".to_owned();
        uri.append(arg);
        uri
    }
}

/// The playlist to fetch for an argument that is an id or a URI.
pub fn playlist_target(arg: &str) -> (r: Result<MediaUri, String>)
    ensures
        uri_result(r) == target_of(arg@, uri_meaning(playlist_uri(arg@))),
        arg@.len() > 0 && !arg@.contains(':') ==> uri_result(r) == match base62_id(arg@) {
            Some(id) => Ok(MediaUri::Playlist(id)),
            None => Err(
                "bad playlist uri '"@ + ("spotify:playlist:"@ + arg@) + "': "@ + bad_id_text(),
            ),
        },
{
    let uri = write_playlist_uri(arg);
    proof {
        if !arg@.contains(':') {
            reveal_strlit("spotify:");
            if "spotify:"@.is_prefix_of(arg@) {
                assert("spotify:"@[7] == ':');
                assert(arg@[7] == arg@.subrange(0, 8)[7]);
                assert(arg@.contains(arg@[7]));
            }
            assert(("spotify:playlist:"@ + arg@) == uri@);
        }
    }
    target_from(arg, uri_from_text(uri.as_str()))
}

/// The context of a user's liked songs.
pub fn collection_uri(user: &str) -> (r: String)
    ensures
        r@ == "spotify:user:"@ + user@ + ":collection"@,
{
    let mut uri = "spotify:user:".to_owned();
    uri.append(user);
    uri.append(":collection");
    uri
}

/// A track whose name is to be looked up.
pub struct Lookup {
    pub base62: String,
    pub id: u128,
}

/// The texts by which the tracks of a list are looked up: what stands behind the last
/// colon of each track's URI. One that spells no id is left out.
pub open spec fn lookup_texts(ids: Seq<Seq<char>>) -> Seq<Seq<char>>
    decreases ids.len(),
{
    if ids.len() == 0 {
        seq![]
    } else {
        let rest = lookup_texts(ids.drop_last());
        let text = after_last("spotify:track:"@ + ids.last(), ':');
        if base62_id(text) is Some {
            rest.push(text)
        } else {
            rest
        }
    }
}

/// The texts of lookups.
pub open spec fn lookup_views(lookups: Seq<Lookup>) -> Seq<Seq<char>> {
    Seq::new(lookups.len(), |i: int| lookups[i].base62@)
}

/// The lookups for the tracks of a list.
pub fn lookups(track_ids: &Vec<String>) -> (r: Vec<Lookup>)
    ensures
        lookup_views(r@) == lookup_texts(views(track_ids@)),
        forall|i: int|
            0 <= i < r@.len() ==> base62_id((#[trigger] r@[i]).base62@) == Some(r@[i].id),
{
    let ghost ids = views(track_ids@);
    let mut wanted: Vec<Lookup> = Vec::new();
    let mut i: usize = 0;
    assert(lookup_views(wanted@) =~= lookup_texts(ids.take(0)));
    while i < track_ids.len()
        invariant
            i <= track_ids.len(),
            ids == views(track_ids@),
            lookup_views(wanted@) == lookup_texts(ids.take(i as int)),
            forall|k: int|
                0 <= k < wanted@.len() ==> base62_id((#[trigger] wanted@[k]).base62@) == Some(
                    wanted@[k].id,
                ),
        decreases track_ids.len() - i,
    {
        assert(ids.take(i as int + 1).drop_last() =~= ids.take(i as int));
        let mut uri = "spotify:track:".to_owned();
        uri.append(track_ids[i].as_str());
        let base62 = last_part(uri.as_str(), ':');
        match id_from_base62(base62) {
            Ok(id) => {
                let ghost before = wanted@;
                wanted.push(Lookup { base62: base62.to_owned(), id });
                assert(lookup_views(wanted@) =~= lookup_views(before).push(base62@));
            },
            Err(_) => {},
        }
        i += 1;
    }
    assert(ids.take(i as int) =~= ids);
    wanted
}

/// What a lookup found: the name and the artists of a track.
pub struct Details {
    pub name: String,
    pub artists: Vec<String>,
}

pub struct DetailsView {
    pub name: Seq<char>,
    pub artists: Seq<Seq<char>>,
}

impl View for Details {
    type V = DetailsView;

    open spec fn view(&self) -> DetailsView {
        DetailsView { name: self.name@, artists: views(self.artists@) }
    }
}

/// The line of a track in a list; a track that could not be looked up is unknown.
pub open spec fn result_line(base62: Seq<char>, found: Option<DetailsView>) -> Seq<char> {
    match found {
        Some(details) => "RESULT "@ + base62 + "\t"@ + details.name + "\t"@ + joined(
            details.artists,
            ", "@,
        ) + "\n"@,
        None => "RESULT "@ + base62 + "\t(unknown)\t\n"@,
    }
}

/// The lines of the tracks of a list.
pub open spec fn result_lines(wanted: Seq<Seq<char>>, found: Seq<Option<DetailsView>>) -> Seq<char>
    decreases wanted.len(),
{
    if wanted.len() == 0 {
        seq![]
    } else {
        result_lines(wanted.drop_last(), found) + result_line(
            wanted.last(),
            found[wanted.len() - 1],
        )
    }
}

/// The answer that lists tracks: a line for each, and their number.
pub open spec fn listing_text(wanted: Seq<Seq<char>>, found: Seq<Option<DetailsView>>) -> Seq<char> {
    result_lines(wanted, found) + "END "@ + decimal(wanted.len()) + "\n"@
}

/// What the lookups found.
pub open spec fn found_views(found: Seq<Option<Details>>) -> Seq<Option<DetailsView>> {
    Seq::new(found.len(), |i: int| view_opt(found[i]))
}

/// The answer that lists tracks, once each of them has been looked up.
pub fn enrich_track_uris(wanted: &Vec<Lookup>, found: &Vec<Option<Details>>) -> (r: String)
    requires
        wanted.len() == found.len(),
    ensures
        r@ == listing_text(lookup_views(wanted@), found_views(found@)),
{
    let ghost texts = lookup_views(wanted@);
    let ghost all = found_views(found@);
    let mut out = String::new();
    let mut i: usize = 0;
    assert(out@ =~= result_lines(texts.take(0), all));
    while i < wanted.len()
        invariant
            i <= wanted.len(),
            wanted.len() == found.len(),
            texts == lookup_views(wanted@),
            all == found_views(found@),
            out@ == result_lines(texts.take(i as int), all),
        decreases wanted.len() - i,
    {
        assert(texts.take(i as int + 1).drop_last() =~= texts.take(i as int));
        assert(all[i as int] == view_opt(found@[i as int]));
        let mut line = "RESULT ".to_owned();
        line.append(wanted[i].base62.as_str());
        match &found[i] {
            Some(details) => {
                let artists = join_names(&details.artists);
                line.append("\t");
                line.append(details.name.as_str());
                line.append("\t");
                line.append(artists.as_str());
                line.append("\n");
            },
            None => {
                line.append("\t(unknown)\t\n");
            },
        }
        out.append(line.as_str());
        i += 1;
    }
    assert(texts.take(i as int) =~= texts);
    out.append("END ");
    append_number(&mut out, wanted.len() as u64);
    out.append("\n");
    out
}

/// The list that a listing is remembered as.
pub open spec fn listing_source(listing: ListingView) -> SourceView {
    match listing {
        ListingView::Search(_) => SourceView::Search,
        ListingView::Liked => SourceView::Liked,
        ListingView::Playlist(arg) => SourceView::Playlist(arg),
    }
}

/// What is answered when a list cannot be fetched.
pub open spec fn listing_error(listing: ListingView, error: Seq<char>) -> Seq<char> {
    match listing {
        ListingView::Liked => "ERR liked fetch failed: "@ + error + "\n"@,
        _ => "ERR "@ + error + "\n"@,
    }
}

impl Daemon {
    /// A list has been fetched, or could not be: it is remembered and its tracks are to be
    /// looked up, or an error is answered.
    pub fn list_fetched(&mut self, listing: &Listing, fetched: Result<Vec<String>, String>) -> (r:
        Result<Vec<Lookup>, String>)
        requires
            old(self)@.wf(),
        ensures
            match texts_result(fetched) {
                Ok(ids) => {
                    &&& final(self)@ == (DaemonView {
                        cache: refreshed(old(self)@.cache, listing_source(listing@), ids),
                        ..old(self)@
                    })
                    &&& r is Ok
                    &&& lookup_views(r->Ok_0@) == lookup_texts(ids)
                    &&& forall|i: int|
                        0 <= i < r->Ok_0@.len() ==> base62_id((#[trigger] r->Ok_0@[i]).base62@)
                            == Some(r->Ok_0@[i].id)
                },
                Err(error) => {
                    &&& final(self)@ == old(self)@
                    &&& r is Err
                    &&& r->Err_0@ == listing_error(listing@, error)
                },
            },
            final(self)@.wf(),
    {
        match fetched {
            Ok(ids) => {
                let source = match listing {
                    Listing::Search(_) => QueueSource::Search,
                    Listing::Liked => QueueSource::Liked,
                    Listing::Playlist(arg) => QueueSource::Playlist(arg.clone()),
                };
                self.remember(&source, &ids);
                Ok(lookups(&ids))
            },
            Err(error) => {
                let mut text = match listing {
                    Listing::Liked => "ERR liked fetch failed: ".to_owned(),
                    _ => "ERR ".to_owned(),
                };
                text.append(error.as_str());
                text.append("\n");
                Err(text)
            },
        }
    }
}

/// A search whose first page has no track finds nothing, whatever the other pages hold: no
/// track is shown and none is remembered.
pub proof fn search_ends_with_the_first_page(cache: CacheView, pages: Seq<Seq<Option<Seq<char>>>>)
    requires
        pages.len() > 0 ==> page_track_ids(pages[0]).len() == 0,
    ensures
        search_result(Ok(pages)) == Ok::<Seq<Seq<char>>, Seq<char>>(seq![]),
        refreshed(cache, SourceView::Search, seq![]).search_track_ids == Seq::<Seq<char>>::empty(),
        listing_text(lookup_texts(seq![]), seq![]) == "END 0\n"@,
{
    reveal_strlit("END ");
    reveal_strlit("\n");
    reveal_strlit("END 0\n");
    if pages.len() > 0 {
        assert(page_track_ids(pages[0]) =~= seq![]);
    }
    assert(decimal(0) =~= seq!['0']);
    assert(listing_text(lookup_texts(seq![]), seq![]) =~= "END 0\n"@);
}

/// The id of a playlist and its URI name one playlist: it is fetched from the same place
/// and remembered under the same key.
pub proof fn id_and_uri_name_one_playlist(id: Seq<char>)
    requires
        !"spotify:"@.is_prefix_of(id),
    ensures
        playlist_uri(id) == playlist_uri("spotify:playlist:"@ + id),
        cache_key(id) == cache_key("spotify:playlist:"@ + id),
        cache_key(id) == id,
{
    reveal_strlit("spotify:");
    reveal_strlit("spotify:playlist:");
    let uri = "spotify:playlist:"@ + id;
    crate::text::lemma_without_prefix("spotify:playlist:"@, id);
    assert("spotify:"@.is_prefix_of(uri)) by {
        assert(uri.subrange(0, 8) =~= "spotify:"@);
    }
    if "spotify:playlist:"@.is_prefix_of(id) {
        assert(id.subrange(0, 8) =~= id.subrange(0, 17).subrange(0, 8));
        assert(id.subrange(0, 8) =~= "spotify:"@);
    }
}

/// The tracks of a page are those of its first part and then those of the rest. Of one
/// entry, the URI of a track gives its id, and anything else gives nothing.
pub proof fn page_gives_its_tracks_in_order(
    a: Seq<Option<Seq<char>>>,
    b: Seq<Option<Seq<char>>>,
    id: Seq<char>,
    other: Seq<char>,
)
    requires
        !"spotify:track:"@.is_prefix_of(other),
    ensures
        page_track_ids(a + b) == page_track_ids(a) + page_track_ids(b),
        page_track_ids(seq![Some("spotify:track:"@ + id)]) == seq![id],
        page_track_ids(seq![Some(other)]) == Seq::<Seq<char>>::empty(),
        page_track_ids(seq![None]) == Seq::<Seq<char>>::empty(),
    decreases b.len(),
{
    crate::text::lemma_without_prefix("spotify:track:"@, id);
    let known = seq![Some("spotify:track:"@ + id)];
    let unknown = seq![Some(other)];
    let none = seq![None::<Seq<char>>];
    assert(known.drop_last() =~= Seq::<Option<Seq<char>>>::empty());
    assert(unknown.drop_last() =~= Seq::<Option<Seq<char>>>::empty());
    assert(none.drop_last() =~= Seq::<Option<Seq<char>>>::empty());
    assert(page_track_ids(Seq::<Option<Seq<char>>>::empty()) =~= Seq::<Seq<char>>::empty());
    assert(page_track_ids(known) =~= seq![id]);
    if b.len() == 0 {
        assert(a + b =~= a);
        assert(page_track_ids(a) + page_track_ids(b) =~= page_track_ids(a));
    } else {
        page_gives_its_tracks_in_order(a, b.drop_last(), id, other);
        assert((a + b).drop_last() =~= a + b.drop_last());
        assert((a + b).last() == b.last());
        assert(page_track_ids(a + b) =~= page_track_ids(a) + page_track_ids(b));
    }
}

/// A list is cut behind its fiftieth entry and otherwise left as it is.
pub proof fn lists_are_cut_at_fifty(list: Seq<Seq<char>>, i: int)
    ensures
        shown(list).len() == if list.len() < 50 {
            list.len()
        } else {
            50
        },
        0 <= i < shown(list).len() ==> shown(list)[i] == list[i],
{
}

/// The liked songs are those of the first page that has any.
pub proof fn liked_songs_come_from_one_page(pages: Seq<Seq<Option<Seq<char>>>>, n: int)
    requires
        0 <= n < pages.len(),
        forall|i: int| 0 <= i < n ==> page_track_ids(#[trigger] pages[i]).len() == 0,
        page_track_ids(pages[n]).len() > 0,
    ensures
        context_ids(pages) == shown(page_track_ids(pages[n])),
    decreases n,
{
    if n > 0 {
        assert(page_track_ids(pages[0]).len() == 0);
        let rest = pages.skip(1);
        assert forall|i: int| 0 <= i < n - 1 implies page_track_ids(#[trigger] rest[i]).len() == 0 by {
            assert(rest[i] == pages[i + 1]);
        }
        liked_songs_come_from_one_page(rest, n - 1);
    }
}

/// The tracks of a playlist are those of its first part and then those of the rest; an item
/// that is no track is passed over.
pub proof fn playlist_gives_its_tracks_in_order(a: Seq<MediaUri>, b: Seq<MediaUri>, id: u128)
    ensures
        item_ids(a + b) == item_ids(a) + item_ids(b),
        item_ids(seq![MediaUri::Track(id)]) == seq![id],
        item_ids(seq![MediaUri::Playlist(id)]) == Seq::<u128>::empty(),
        item_ids(seq![MediaUri::Other]) == Seq::<u128>::empty(),
    decreases b.len(),
{
    assert(item_ids(Seq::<MediaUri>::empty()) =~= Seq::<u128>::empty());
    assert(seq![MediaUri::Track(id)].drop_last() =~= Seq::<MediaUri>::empty());
    assert(seq![MediaUri::Playlist(id)].drop_last() =~= Seq::<MediaUri>::empty());
    assert(seq![MediaUri::Other].drop_last() =~= Seq::<MediaUri>::empty());
    assert(item_ids(seq![MediaUri::Track(id)]) =~= seq![id]);
    if b.len() == 0 {
        assert(a + b =~= a);
        assert(item_ids(a) + item_ids(b) =~= item_ids(a));
    } else {
        playlist_gives_its_tracks_in_order(a, b.drop_last(), id);
        assert((a + b).drop_last() =~= a + b.drop_last());
        assert((a + b).last() == b.last());
        assert(item_ids(a + b) =~= item_ids(a) + item_ids(b));
    }
}

/// Every track of a list that has an id is looked up by it, in the order of the list.
pub proof fn tracks_are_looked_up_in_order(a: Seq<Seq<char>>, b: Seq<Seq<char>>)
    ensures
        lookup_texts(a + b) == lookup_texts(a) + lookup_texts(b),
        (forall|i: int| 0 <= i < a.len() ==> base62_id(#[trigger] a[i]) is Some) ==> lookup_texts(a)
            == a,
    decreases a.len() + b.len(),
{
    if b.len() == 0 {
        assert(a + b =~= a);
        assert(lookup_texts(a) + lookup_texts(b) =~= lookup_texts(a));
    } else {
        tracks_are_looked_up_in_order(a, b.drop_last());
        assert((a + b).drop_last() =~= a + b.drop_last());
        assert((a + b).last() == b.last());
        assert(lookup_texts(a + b) =~= lookup_texts(a) + lookup_texts(b));
    }
    if forall|i: int| 0 <= i < a.len() ==> base62_id(#[trigger] a[i]) is Some {
        lemma_lookup_all(a);
    }
}

proof fn lemma_lookup_all(a: Seq<Seq<char>>)
    requires
        forall|i: int| 0 <= i < a.len() ==> base62_id(#[trigger] a[i]) is Some,
    ensures
        lookup_texts(a) == a,
    decreases a.len(),
{
    if a.len() > 0 {
        let front = a.drop_last();
        assert forall|i: int| 0 <= i < front.len() implies base62_id(#[trigger] front[i]) is Some by {
            assert(front[i] == a[i]);
        }
        lemma_lookup_all(front);
        let id = a.last();
        assert(base62_id(a[a.len() - 1]) is Some);
        assert(!id.contains(':')) by {
            if id.contains(':') {
                let k = choose|k: int| 0 <= k < id.len() && id[k] == ':';
                assert(crate::media::base62_digit(id[k]) is Some);
            }
        }
        reveal_strlit("spotify:track:");
        reveal_strlit("spotify:track");
        assert("spotify:track:"@ =~= "spotify:track"@ + seq![':']);
        crate::daemon::laws::lemma_after_last("spotify:track"@, id);
        assert(front.push(id) =~= a);
    }
    assert(lookup_texts(a) =~= a);
}

/// A list that was browsed is known: a track of it starts a queue without a fetch, from the
/// list under whose name it was browsed.
pub proof fn browsed_list_is_known(cache: CacheView, ids: Seq<Seq<char>>, arg: Seq<char>, uri: Seq<char>)
    ensures
        crate::daemon::load::remembered(
            refreshed(cache, listing_source(ListingView::Liked), ids),
            SourceView::Liked,
        ) == ids,
        crate::daemon::load::remembered(
            refreshed(cache, listing_source(ListingView::Search(uri)), ids),
            SourceView::Search,
        ) == ids,
        crate::daemon::load::remembered(
            refreshed(cache, listing_source(ListingView::Playlist(arg)), ids),
            SourceView::Playlist(arg),
        ) == ids,
{
}

/// Cleaning a field changes nothing but its separators, each into a blank.
pub proof fn cleaning_keeps_the_rest(s: Seq<char>, i: int)
    requires
        0 <= i < s.len(),
    ensures
        sanitized(s).len() == s.len(),
        s[i] != '\t' && s[i] != '\r' && s[i] != '\n' ==> sanitized(s)[i] == s[i],
        s[i] == '\t' || s[i] == '\r' || s[i] == '\n' ==> sanitized(s)[i] == ' ',
{
}

/// A list that could not be fetched is no empty list: it is answered by an error of one line
/// that ends in the cause.
pub proof fn failed_fetch_is_told(listing: ListingView, cause: Seq<char>)
    ensures
        context_result(Err(cause)) is Err,
        search_result(Err(cause)) is Err,
        cause.is_suffix_of(context_result(Err(cause))->Err_0),
        cause.is_suffix_of(search_result(Err(cause))->Err_0),
        "ERR "@.is_prefix_of(listing_error(listing, cause)),
        listing_error(listing, cause).last() == '\n',
        cause.is_suffix_of(listing_error(listing, cause).drop_last()),
{
    let text = listing_error(listing, cause);
    reveal_strlit("ERR ");
    reveal_strlit("ERR liked fetch failed: ");
    reveal_strlit("\n");
    assert(text.subrange(0, 4) =~= "ERR "@);
    assert(text.drop_last().subrange(text.len() - 1 - cause.len(), text.len() - 1) =~= cause);
    let told = "context failed: "@ + cause;
    assert(told.subrange(told.len() - cause.len(), told.len() as int) =~= cause);
}

/// A playlist is fetched only if it is named, and then the one that the name means; a name
/// without a meaning is told with the cause.
pub proof fn only_a_named_playlist_is_fetched(
    arg: Seq<char>,
    meaning: Result<MediaUri, Seq<char>>,
)
    ensures
        arg.len() == 0 ==> target_of(arg, meaning) is Err,
        arg.len() > 0 && meaning is Ok ==> target_of(arg, meaning) == meaning,
        arg.len() > 0 && meaning is Err ==> {
            &&& target_of(arg, meaning) is Err
            &&& (meaning->Err_0).is_suffix_of(target_of(arg, meaning)->Err_0)
        },
{
    if arg.len() > 0 && meaning is Err {
        let told = target_of(arg, meaning)->Err_0;
        let cause = meaning->Err_0;
        assert(told.subrange(told.len() - cause.len(), told.len() as int) =~= cause);
    }
}

/// A track that could not be looked up stands in the list all the same, without an artist.
pub proof fn unknown_track_is_listed(base62: Seq<char>)
    ensures
        result_line(base62, None) == result_line(
            base62,
            Some(DetailsView { name: "(unknown)"@, artists: seq![] }),
        ),
{
    reveal_strlit("\t(unknown)\t\n");
    reveal_strlit("(unknown)");
    reveal_strlit("\t");
    reveal_strlit("\n");
    assert(joined(Seq::<Seq<char>>::empty(), ", "@) =~= seq![]);
    assert(result_line(base62, None) =~= result_line(
        base62,
        Some(DetailsView { name: "(unknown)"@, artists: seq![] }),
    ));
}

} // verus!
