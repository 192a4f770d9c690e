//! Starting a queue from a browsed track.
//!
//! Requests carry increasing numbers and only the latest one counts. A request is
//! registered, waits for its turn, may have to wait for a fetch, and is dropped as soon
//! as a later one has come in.
use crate::daemon::browse::{cache_key, playlist_cache_key};
use crate::daemon::modes::PlaybackModes;
use crate::daemon::order::{play_order, play_order_keeps_random};
use crate::daemon::queue::{started, PlaybackQueue, QueueSource, SourceView};
use crate::daemon::state::{CacheView, Daemon, DaemonView};
use crate::media::{bad_id_text, base62_id, id_from_base62};
use crate::text::{
    append_number, copy_texts, decimal, find_text, lemma_place, place, view_opt, views,
};
use vstd::prelude::*;
use vstd::string::*;

verus! {

/// What the player is told besides the answer.
#[derive(Debug)]
pub enum Act {
    Nothing,
    Play,
    Pause,
    Stop,
    /// Load the track with this id and play it from the start.
    Load(u128),
    /// Seek to this many milliseconds.
    Seek(u32),
    SetVolume(u16),
    /// Keep this text in the modes file.
    SaveModes(String),
    /// Shut down once the answer is out.
    Quit,
}

pub enum ActView {
    Nothing,
    Play,
    Pause,
    Stop,
    Load(u128),
    Seek(u32),
    SetVolume(u16),
    SaveModes(Seq<char>),
    Quit,
}

impl View for Act {
    type V = ActView;

    open spec fn view(&self) -> ActView {
        match self {
            Act::Nothing => ActView::Nothing,
            Act::Play => ActView::Play,
            Act::Pause => ActView::Pause,
            Act::Stop => ActView::Stop,
            Act::Load(id) => ActView::Load(*id),
            Act::Seek(ms) => ActView::Seek(*ms),
            Act::SetVolume(level) => ActView::SetVolume(*level),
            Act::SaveModes(text) => ActView::SaveModes(text@),
            Act::Quit => ActView::Quit,
        }
    }
}

/// An answer, and what the player is told before it goes out.
pub struct Reply {
    pub text: String,
    pub act: Act,
}

pub struct ReplyView {
    pub text: Seq<char>,
    pub act: ActView,
}

impl View for Reply {
    type V = ReplyView;

    open spec fn view(&self) -> ReplyView {
        ReplyView { text: self.text@, act: self.act@ }
    }
}

/// An answer that leaves the player alone.
pub open spec fn told(text: Seq<char>) -> ReplyView {
    ReplyView { text, act: ActView::Nothing }
}

/// An answer that leaves the player alone.
pub fn tell(text: String) -> (r: Reply)
    ensures
        r@ == told(text@),
{
    Reply { text, act: Act::Nothing }
}

/// A request to start a queue with one of its tracks.
pub struct LoadRequest {
    pub source: QueueSource,
    pub request_id: u64,
    pub track_id: String,
}

pub struct RequestView {
    pub source: SourceView,
    pub request_id: u64,
    pub track_id: Seq<char>,
}

impl View for LoadRequest {
    type V = RequestView;

    open spec fn view(&self) -> RequestView {
        RequestView {
            source: self.source@,
            request_id: self.request_id,
            track_id: self.track_id@,
        }
    }
}

pub open spec fn stale_text(request_id: u64) -> Seq<char> {
    "OK ignored stale request "@ + decimal(request_id as nat) + "\n"@
}

pub open spec fn superseded_text(request_id: u64) -> Seq<char> {
    "OK skipped superseded request "@ + decimal(request_id as nat) + "\n"@
}

pub open spec fn bad_track_text(track_id: Seq<char>) -> Seq<char> {
    "ERR bad track id '"@ + track_id + "': "@ + bad_id_text() + "\n"@
}

/// The answer to a request whose track is not in the list that it names.
pub open spec fn missing_text(request: RequestView) -> Seq<char> {
    let head = "ERR track '"@ + request.track_id;
    match request.source {
        SourceView::Liked => head + "' is not in Liked Songs\n"@,
        SourceView::Playlist(id) => head + "' is not in playlist '"@ + id + "'\n"@,
        SourceView::Search => head + "' is not in current search results\n"@,
    }
}

pub open spec fn loading_text(request: RequestView) -> Seq<char> {
    let number = decimal(request.request_id as nat);
    match request.source {
        SourceView::Liked => "OK loading liked "@ + number + " "@ + request.track_id + "\n"@,
        SourceView::Playlist(id) => "OK loading playlist "@ + number + " "@ + id + " "@
            + request.track_id + "\n"@,
        SourceView::Search => "OK loading search "@ + number + " "@ + request.track_id + "\n"@,
    }
}

pub open spec fn fetch_failed_text(source: SourceView, error: Seq<char>) -> Seq<char> {
    match source {
        SourceView::Playlist(_) => "ERR playlist queue fetch failed: "@ + error + "\n"@,
        _ => "ERR liked queue fetch failed: "@ + error + "\n"@,
    }
}

/// A request comes in. It is stale if a later one was there before; otherwise it is
/// now the latest.
pub open spec fn registered(d: DaemonView, request_id: u64) -> (DaemonView, bool) {
    if request_id < d.latest_load_request {
        (d, false)
    } else {
        (DaemonView { latest_load_request: request_id, ..d }, true)
    }
}

/// Whether no other request has come in since.
pub open spec fn is_current(d: DaemonView, request_id: u64) -> bool {
    d.latest_load_request == request_id
}

/// Starts the queue of a request over the tracks of its list.
pub open spec fn loaded(d: DaemonView, request: RequestView, ids: Seq<Seq<char>>) -> (
    DaemonView,
    ReplyView,
) {
    match place(ids, request.track_id) {
        None => (d, told(missing_text(request))),
        Some(index) => match base62_id(request.track_id) {
            None => (d, told(bad_track_text(request.track_id))),
            Some(id) => {
                let (order, seed) = play_order(
                    ids.len(),
                    index as usize,
                    d.modes.shuffle,
                    d.modes.shuffle_seed,
                );
                (
                    DaemonView {
                        queue: started(
                            request.source,
                            ids,
                            index as usize,
                            order,
                            request.request_id,
                        ),
                        modes: PlaybackModes { shuffle_seed: seed, ..d.modes },
                        ..d
                    },
                    ReplyView { text: loading_text(request), act: ActView::Load(id) },
                )
            },
        },
    }
}

/// The remembered tracks of the list that a source names.
pub open spec fn remembered(cache: CacheView, source: SourceView) -> Seq<Seq<char>> {
    match source {
        SourceView::Liked => cache.liked_track_ids,
        SourceView::Playlist(id) => cache.playlist(cache_key(id)),
        SourceView::Search => cache.search_track_ids,
    }
}

/// The cache when the list that a source names has been fetched.
pub open spec fn refreshed(cache: CacheView, source: SourceView, ids: Seq<Seq<char>>) -> CacheView {
    match source {
        SourceView::Liked => CacheView { liked_track_ids: ids, ..cache },
        SourceView::Playlist(id) => CacheView {
            playlists: cache.playlists.insert(cache_key(id), ids),
            ..cache
        },
        SourceView::Search => CacheView { search_track_ids: ids, ..cache },
    }
}

/// It is the turn of a request: the state then and the answer, or none if the list has
/// to be fetched first. A search is never fetched again.
pub open spec fn on_turn(d: DaemonView, request: RequestView) -> (DaemonView, Option<ReplyView>) {
    if !is_current(d, request.request_id) {
        (d, Some(told(superseded_text(request.request_id))))
    } else {
        let ids = remembered(d.cache, request.source);
        if request.source is Search || ids.contains(request.track_id) {
            let (next, reply) = loaded(d, request, ids);
            (next, Some(reply))
        } else {
            (d, None)
        }
    }
}

/// The list of a request has been fetched, or could not be. What was fetched is
/// remembered even if the request has been superseded meanwhile.
pub open spec fn on_fetched(
    d: DaemonView,
    request: RequestView,
    fetched: Result<Seq<Seq<char>>, Seq<char>>,
) -> (DaemonView, ReplyView) {
    let known = match fetched {
        Ok(ids) => DaemonView { cache: refreshed(d.cache, request.source, ids), ..d },
        Err(_) => d,
    };
    if !is_current(known, request.request_id) {
        (known, told(superseded_text(request.request_id)))
    } else {
        match fetched {
            Ok(ids) => loaded(known, request, ids),
            Err(error) => (known, told(fetch_failed_text(request.source, error))),
        }
    }
}

/// A fetched list by its texts.
pub open spec fn texts_result(r: Result<Vec<String>, String>) -> Result<
    Seq<Seq<char>>,
    Seq<char>,
> {
    match r {
        Ok(ids) => Ok(views(ids@)),
        Err(error) => Err(error@),
    }
}

fn numbered(head: &str, n: u64) -> (r: String)
    ensures
        r@ == head@ + decimal(n as nat) + "\n"@,
{
    let mut text = head.to_owned();
    append_number(&mut text, n);
    text.append("\n");
    text
}

/// The answer to a request for a track whose id is none.
pub fn bad_track(track_id: &str, error: &str) -> (r: Reply)
    requires
        error@ == bad_id_text(),
    ensures
        r@ == told(bad_track_text(track_id@)),
{
    let mut text = "ERR bad track id '".to_owned();
    text.append(track_id);
    text.append("': ");
    text.append(error);
    text.append("\n");
    tell(text)
}

impl QueueSource {
    pub fn copy(&self) -> (r: QueueSource)
        ensures
            r@ == self@,
    {
        match self {
            QueueSource::Liked => QueueSource::Liked,
            QueueSource::Playlist(id) => QueueSource::Playlist(id.clone()),
            QueueSource::Search => QueueSource::Search,
        }
    }
}

impl LoadRequest {
    fn missing(&self) -> (r: Reply)
        ensures
            r@ == told(missing_text(self@)),
    {
        let mut text = "ERR track '".to_owned();
        text.append(self.track_id.as_str());
        match &self.source {
            QueueSource::Liked => {
                text.append("' is not in Liked Songs\n");
            },
            QueueSource::Playlist(id) => {
                text.append("' is not in playlist '");
                text.append(id.as_str());
                text.append("'\n");
            },
            QueueSource::Search => {
                text.append("' is not in current search results\n");
            },
        }
        tell(text)
    }

    fn loading(&self) -> (r: String)
        ensures
            r@ == loading_text(self@),
    {
        let mut text: String;
        match &self.source {
            QueueSource::Liked => {
                text = "OK loading liked ".to_owned();
                append_number(&mut text, self.request_id);
            },
            QueueSource::Playlist(id) => {
                text = "OK loading playlist ".to_owned();
                append_number(&mut text, self.request_id);
                text.append(" ");
                text.append(id.as_str());
            },
            QueueSource::Search => {
                text = "OK loading search ".to_owned();
                append_number(&mut text, self.request_id);
            },
        }
        text.append(" ");
        text.append(self.track_id.as_str());
        text.append("\n");
        text
    }

    fn superseded(&self) -> (r: Reply)
        ensures
            r@ == told(superseded_text(self@.request_id)),
    {
        tell(numbered("OK skipped superseded request ", self.request_id))
    }

    fn fetch_failed(&self, error: &str) -> (r: Reply)
        ensures
            r@ == told(fetch_failed_text(self@.source, error@)),
    {
        let mut text = match &self.source {
            QueueSource::Playlist(_) => "ERR playlist queue fetch failed: ".to_owned(),
            _ => "ERR liked queue fetch failed: ".to_owned(),
        };
        text.append(error);
        text.append("\n");
        tell(text)
    }

    /// The answer to a request that comes after a later one.
    pub fn stale(&self) -> (r: Reply)
        ensures
            r@ == told(stale_text(self@.request_id)),
    {
        tell(numbered("OK ignored stale request ", self.request_id))
    }
}

impl Daemon {
    /// Takes note of a request, unless a later one was there before.
    pub fn register_load_request(&mut self, request_id: u64) -> (r: bool)
        ensures
            (final(self)@, r) == registered(old(self)@, request_id),
    {
        if request_id < self.latest_load_request {
            false
        } else {
            self.latest_load_request = request_id;
            true
        }
    }

    /// Whether no other request has come in since.
    pub fn load_request_is_current(&self, request_id: u64) -> (r: bool)
        ensures
            r == is_current(self@, request_id),
    {
        self.latest_load_request == request_id
    }

    fn start_queue(&mut self, request: &LoadRequest, ids: Vec<String>) -> (r: Reply)
        requires
            old(self)@.wf(),
        ensures
            (final(self)@, r@) == loaded(old(self)@, request@, views(ids@)),
            final(self)@.wf(),
    {
        proof {
            lemma_place(views(ids@), request.track_id@);
        }
        match find_text(&ids, request.track_id.as_str()) {
            None => request.missing(),
            Some(index) => match id_from_base62(request.track_id.as_str()) {
                Err(error) => bad_track(request.track_id.as_str(), error.as_str()),
                Ok(id) => {
                    proof {
                        play_order_keeps_random(
                            ids.len() as nat,
                            index,
                            self.modes.shuffle,
                            self.modes.shuffle_seed,
                        );
                    }
                    self.queue = PlaybackQueue::start(
                        request.source.copy(),
                        ids,
                        index,
                        request.request_id,
                        &mut self.modes,
                    );
                    Reply { text: request.loading(), act: Act::Load(id) }
                },
            },
        }
    }

    /// The remembered tracks of the list that a source names.
    fn remembered(&self, source: &QueueSource) -> (r: Vec<String>)
        ensures
            views(r@) == remembered(self@.cache, source@),
    {
        match source {
            QueueSource::Liked => copy_texts(&self.cache.liked_track_ids),
            QueueSource::Playlist(id) => {
                let key = playlist_cache_key(id.as_str());
                self.cache.playlist(key.as_str())
            },
            QueueSource::Search => copy_texts(&self.cache.search_track_ids),
        }
    }

    /// It is the turn of a request. Without an answer the list has to be fetched.
    pub fn take_turn(&mut self, request: &LoadRequest) -> (r: Option<Reply>)
        requires
            old(self)@.wf(),
        ensures
            (final(self)@, view_opt(r)) == on_turn(old(self)@, request@),
            r is None ==> !(request.source is Search),
            final(self)@.wf(),
    {
        if !self.load_request_is_current(request.request_id) {
            return Some(request.superseded());
        }
        let ids = self.remembered(&request.source);
        proof {
            lemma_place(views(ids@), request.track_id@);
        }
        let known = find_text(&ids, request.track_id.as_str()).is_some();
        let search = match &request.source {
            QueueSource::Search => true,
            _ => false,
        };
        if search || known {
            Some(self.start_queue(request, ids))
        } else {
            None
        }
    }

    /// The list of a request has been fetched, or could not be.
    pub fn finish_load(&mut self, request: &LoadRequest, fetched: Result<Vec<String>, String>) -> (r:
        Reply)
        requires
            old(self)@.wf(),
        ensures
            (final(self)@, r@) == on_fetched(old(self)@, request@, texts_result(fetched)),
            final(self)@.wf(),
    {
        match fetched {
            Ok(ids) => {
                self.remember(&request.source, &ids);
                if !self.load_request_is_current(request.request_id) {
                    request.superseded()
                } else {
                    self.start_queue(request, ids)
                }
            },
            Err(error) => {
                if !self.load_request_is_current(request.request_id) {
                    request.superseded()
                } else {
                    request.fetch_failed(error.as_str())
                }
            },
        }
    }

    /// Remembers the tracks of the list that a source names.
    pub fn remember(&mut self, source: &QueueSource, ids: &Vec<String>)
        ensures
            final(self)@ == (DaemonView {
                cache: refreshed(old(self)@.cache, source@, views(ids@)),
                ..old(self)@
            }),
    {
        let ids = copy_texts(ids);
        match source {
            QueueSource::Liked => {
                self.cache.liked_track_ids = ids;
            },
            QueueSource::Playlist(id) => {
                self.cache.set_playlist(playlist_cache_key(id.as_str()), ids);
            },
            QueueSource::Search => {
                self.cache.search_track_ids = ids;
            },
        }
    }
}

/// Once a request is registered, no request with a lower number is let in, and only
/// the request with the highest number is current.
pub proof fn latest_request_wins(d: DaemonView, a: u64, b: u64)
    requires
        a < b,
    ensures
        !registered(registered(d, b).0, a).1,
        registered(d, b).1 ==> registered(registered(d, b).0, a).0 == registered(d, b).0,
        registered(d, b).1 ==> is_current(registered(d, b).0, b),
        registered(registered(d, a).0, b).1 ==> !is_current(registered(registered(d, a).0, b).0, a),
{
}

/// A request that has been superseded starts nothing: the queue and the modes stay, and
/// the player is left alone.
pub proof fn superseded_load_changes_nothing(
    d: DaemonView,
    request: RequestView,
    fetched: Result<Seq<Seq<char>>, Seq<char>>,
)
    requires
        !is_current(d, request.request_id),
    ensures
        on_turn(d, request).0 == d,
        on_turn(d, request).1 == Some(told(superseded_text(request.request_id))),
        on_fetched(d, request, fetched).0.queue == d.queue,
        on_fetched(d, request, fetched).0.modes == d.modes,
        on_fetched(d, request, fetched).1 == told(superseded_text(request.request_id)),
{
}

/// A request for a track of a fetched list starts a queue whose current track is the one
/// asked for, under the number of the request.
pub proof fn load_starts_the_asked_track(
    d: DaemonView,
    request: RequestView,
    ids: Seq<Seq<char>>,
)
    requires
        is_current(d, request.request_id),
        ids.contains(request.track_id),
        base62_id(request.track_id) is Some,
        ids.len() <= usize::MAX,
    ensures
        ({
            let (after, reply) = on_fetched(d, request, Ok(ids));
            &&& after.queue.current() == Some(request.track_id)
            &&& after.queue.source == Some(request.source)
            &&& after.queue.request_id == request.request_id
            &&& after.queue.track_ids == ids
            &&& reply.act == ActView::Load(base62_id(request.track_id)->0)
        }),
{
    lemma_place(ids, request.track_id);
}

/// What was fetched is remembered: the next request for a track of the list needs no
/// fetch.
pub proof fn fetched_list_is_reused(
    d: DaemonView,
    first: RequestView,
    ids: Seq<Seq<char>>,
    second: RequestView,
)
    requires
        first.source == second.source,
        ids.contains(second.track_id),
    ensures
        on_turn(registered(on_fetched(d, first, Ok(ids)).0, second.request_id).0, second).1 is Some,
{
    lemma_place(ids, first.track_id);
}

} // verus!
