//! How the daemon follows the player.
use crate::daemon::browse::{sanitize_field, sanitized};
use crate::daemon::queue::{idle, PlaybackQueue};
use crate::daemon::state::{Daemon, DaemonView, NowPlaying, NowPlayingView, PlayState};
use crate::media::{
    base62_id, base62_ids_are_unique, id_from_base62, spotify_track_base62, MediaUri,
};
use crate::text::{after_last, join, joined, last_part, same, view_opt, views};
use vstd::prelude::*;
use vstd::string::*;

verus! {

/// The exit status that asks the supervisor for a restart.
pub const EXIT_FOR_RECOVERY: i32 = 75;

/// How many seconds pass before an unavailable track is tried again.
pub const RETRY_SECONDS: u64 = 2;

/// Who a track, a local file or an episode is credited to.
pub enum Credits {
    Track(Vec<String>),
    Local(Option<String>),
    Episode(String),
}

pub enum CreditsView {
    Track(Seq<Seq<char>>),
    Local(Option<Seq<char>>),
    Episode(Seq<char>),
}

impl View for Credits {
    type V = CreditsView;

    open spec fn view(&self) -> CreditsView {
        match self {
            Credits::Track(artists) => CreditsView::Track(views(artists@)),
            Credits::Local(artists) => CreditsView::Local(view_opt(*artists)),
            Credits::Episode(show) => CreditsView::Episode(show@),
        }
    }
}

/// What the player knows of a track that it starts.
pub struct AudioItem {
    pub uri: String,
    pub name: String,
    pub credits: Credits,
    pub duration_ms: u32,
}

pub struct AudioItemView {
    pub uri: Seq<char>,
    pub name: Seq<char>,
    pub credits: CreditsView,
    pub duration_ms: u32,
}

impl View for AudioItem {
    type V = AudioItemView;

    open spec fn view(&self) -> AudioItemView {
        AudioItemView {
            uri: self.uri@,
            name: self.name@,
            credits: self.credits@,
            duration_ms: self.duration_ms,
        }
    }
}

/// What the player reports.
pub enum Event {
    Loading(u32),
    Playing(u32),
    Paused(u32),
    /// The position was corrected, has moved on, or was sought.
    Moved(u32),
    Stopped,
    EndOfTrack(MediaUri),
    Unavailable,
    TrackChanged(AudioItem),
    Other,
}

pub enum EventView {
    Loading(u32),
    Playing(u32),
    Paused(u32),
    Moved(u32),
    Stopped,
    EndOfTrack(MediaUri),
    Unavailable,
    TrackChanged(AudioItemView),
    Other,
}

impl View for Event {
    type V = EventView;

    open spec fn view(&self) -> EventView {
        match self {
            Event::Loading(ms) => EventView::Loading(*ms),
            Event::Playing(ms) => EventView::Playing(*ms),
            Event::Paused(ms) => EventView::Paused(*ms),
            Event::Moved(ms) => EventView::Moved(*ms),
            Event::Stopped => EventView::Stopped,
            Event::EndOfTrack(uri) => EventView::EndOfTrack(*uri),
            Event::Unavailable => EventView::Unavailable,
            Event::TrackChanged(item) => EventView::TrackChanged(item@),
            Event::Other => EventView::Other,
        }
    }
}

/// What follows from an event.
#[derive(Clone, Copy, Debug, PartialEq, Eq, Structural)]
pub enum Reaction {
    Nothing,
    /// Load the track with this id and play it from the start.
    Load(u128),
    /// Do the same after a pause.
    Retry(u128),
    Stop,
    /// Leave, so that the supervisor starts the daemon anew.
    Exit,
}

/// The names behind a track, as one text.
pub open spec fn credited(credits: CreditsView) -> Seq<char> {
    match credits {
        CreditsView::Track(artists) => joined(artists, ", "@),
        CreditsView::Local(Some(artists)) => artists,
        CreditsView::Local(None) => seq![],
        CreditsView::Episode(show) => show,
    }
}

/// The track that plays when the player starts an item. No field holds a separator of
/// the protocol.
pub open spec fn playing_item(item: AudioItemView) -> NowPlayingView {
    NowPlayingView {
        id: sanitized(after_last(item.uri, ':')),
        title: sanitized(item.name),
        artist: sanitized(credited(item.credits)),
        duration_ms: item.duration_ms,
    }
}

/// Nothing plays any more.
pub open spec fn silent(d: DaemonView) -> DaemonView {
    DaemonView { state: PlayState::Stopped, position: None, now_playing: None, ..d }
}

/// Whether the track that ended is the current one of the queue.
pub open spec fn ended_current(d: DaemonView, uri: MediaUri) -> bool {
    d.queue.current_index is Some && uri is Track && base62_id(d.queue.current()->0) == Some(
        uri->Track_0,
    )
}

/// A track has ended. If it was the current one of the queue, the next turn is taken;
/// without one the queue is done. An end that comes too late for the queue leaves it
/// alone.
pub open spec fn track_ended(d: DaemonView, uri: MediaUri) -> (DaemonView, Reaction) {
    if ended_current(d, uri) {
        match d.queue.target_after_end(d.modes.repeat) {
            Some(position) => match base62_id(d.queue.track_at(position)) {
                Some(id) => (
                    DaemonView { queue: d.queue.moved_to(position), ..d },
                    Reaction::Load(id),
                ),
                None => (silent(DaemonView { queue: idle(), ..d }), Reaction::Nothing),
            },
            None => (silent(DaemonView { queue: idle(), ..d }), Reaction::Nothing),
        }
    } else {
        (silent(d), Reaction::Nothing)
    }
}

/// A track was unavailable. The first time in a row the current track of the queue is
/// tried again; without one the player is stopped. The second time the daemon gives up.
pub open spec fn track_unavailable(d: DaemonView) -> (DaemonView, Reaction) {
    let count = if d.unavailable < 255 {
        (d.unavailable + 1) as u8
    } else {
        255
    };
    let d = DaemonView { unavailable: count, ..d };
    if count >= 2 {
        (DaemonView { state: PlayState::Error, ..d }, Reaction::Exit)
    } else {
        match d.queue.current() {
            Some(track) => match base62_id(track) {
                Some(id) => (
                    DaemonView { state: PlayState::Loading, ..d },
                    Reaction::Retry(id),
                ),
                None => (silent(DaemonView { queue: idle(), ..d }), Reaction::Stop),
            },
            None => (silent(DaemonView { queue: idle(), ..d }), Reaction::Stop),
        }
    }
}

/// The state behind an event, and what follows from it.
pub open spec fn followed(d: DaemonView, event: EventView) -> (DaemonView, Reaction) {
    match event {
        EventView::Loading(ms) => (
            DaemonView { state: PlayState::Loading, position: Some(ms), ..d },
            Reaction::Nothing,
        ),
        EventView::Playing(ms) => (
            DaemonView { state: PlayState::Playing, position: Some(ms), unavailable: 0, ..d },
            Reaction::Nothing,
        ),
        EventView::Paused(ms) => (
            DaemonView { state: PlayState::Paused, position: Some(ms), ..d },
            Reaction::Nothing,
        ),
        EventView::Moved(ms) => (DaemonView { position: Some(ms), ..d }, Reaction::Nothing),
        EventView::Stopped => (silent(d), Reaction::Nothing),
        EventView::EndOfTrack(uri) => track_ended(d, uri),
        EventView::Unavailable => track_unavailable(d),
        EventView::TrackChanged(item) => (
            DaemonView { now_playing: Some(playing_item(item)), ..d },
            Reaction::Nothing,
        ),
        EventView::Other => (d, Reaction::Nothing),
    }
}

/// The texts of a list, borrowed.
fn borrowed<'a>(list: &'a Vec<String>) -> (r: Vec<&'a str>)
    ensures
        views(r@) == views(list@),
{
    let mut r: Vec<&'a str> = Vec::new();
    let mut i: usize = 0;
    while i < list.len()
        invariant
            i <= list.len(),
            r.len() == i,
            forall|k: int| 0 <= k < i ==> (#[trigger] r@[k])@ == list@[k]@,
        decreases list.len() - i,
    {
        r.push(list[i].as_str());
        i += 1;
    }
    assert(views(r@) =~= views(list@));
    r
}

/// Names in one text, with a comma between them.
pub fn join_names(names: &Vec<String>) -> (r: String)
    ensures
        r@ == joined(views(names@), ", "@),
{
    join(&borrowed(names), ", ")
}

impl Credits {
    /// The names as one text.
    pub fn credited(&self) -> (r: String)
        ensures
            r@ == credited(self@),
    {
        match self {
            Credits::Track(artists) => join_names(artists),
            Credits::Local(artists) => match artists {
                Some(artists) => artists.clone(),
                None => {
                    let none = String::new();
                    assert(none@ =~= seq![]);
                    none
                },
            },
            Credits::Episode(show) => show.clone(),
        }
    }
}

impl AudioItem {
    /// The track that plays when the player starts this item.
    pub fn now_playing(&self) -> (r: NowPlaying)
        ensures
            r@ == playing_item(self@),
    {
        let artist = self.credits.credited();
        NowPlaying {
            id: sanitize_field(last_part(self.uri.as_str(), ':')),
            title: sanitize_field(self.name.as_str()),
            artist: sanitize_field(artist.as_str()),
            duration_ms: self.duration_ms,
        }
    }
}

impl Daemon {
    fn fall_silent(&mut self)
        ensures
            final(self)@ == silent(old(self)@),
    {
        self.state = PlayState::Stopped;
        self.position = None;
        self.now_playing = None;
    }

    fn current_has_ended(&self, uri: &MediaUri) -> (r: bool)
        requires
            self@.wf(),
        ensures
            r == ended_current(self@, *uri),
    {
        match (self.queue.current(), spotify_track_base62(uri)) {
            (Some(current), Some(ended)) => {
                proof {
                    if base62_id(current@) == base62_id(ended@) {
                        base62_ids_are_unique(ended@, current@);
                    }
                }
                same(current.as_str(), ended.as_str())
            },
            _ => false,
        }
    }

    fn end_track(&mut self, uri: &MediaUri) -> (r: Reaction)
        requires
            old(self)@.wf(),
        ensures
            (final(self)@, r) == track_ended(old(self)@, *uri),
            final(self)@.wf(),
    {
        if self.current_has_ended(uri) {
            match self.queue.target_after_end(self.modes.repeat) {
                Some(position) => {
                    let track = self.queue.track_at(position);
                    match id_from_base62(track.as_str()) {
                        Ok(id) => {
                            self.queue.move_to(position);
                            return Reaction::Load(id);
                        },
                        Err(_) => {},
                    }
                },
                None => {},
            }
            self.queue = PlaybackQueue::default();
        }
        self.fall_silent();
        Reaction::Nothing
    }

    fn miss_track(&mut self) -> (r: Reaction)
        requires
            old(self)@.wf(),
        ensures
            (final(self)@, r) == track_unavailable(old(self)@),
            final(self)@.wf(),
    {
        self.unavailable = self.unavailable.saturating_add(1);
        if self.unavailable >= 2 {
            self.state = PlayState::Error;
            return Reaction::Exit;
        }
        match self.queue.current() {
            Some(track) => match id_from_base62(track.as_str()) {
                Ok(id) => {
                    self.state = PlayState::Loading;
                    return Reaction::Retry(id);
                },
                Err(_) => {},
            },
            None => {},
        }
        self.queue = PlaybackQueue::default();
        self.fall_silent();
        Reaction::Stop
    }

    /// Follows an event of the player.
    pub fn follow(&mut self, event: &Event) -> (r: Reaction)
        requires
            old(self)@.wf(),
        ensures
            (final(self)@, r) == followed(old(self)@, event@),
            final(self)@.wf(),
    {
        match event {
            Event::Loading(ms) => {
                self.state = PlayState::Loading;
                self.position = Some(*ms);
            },
            Event::Playing(ms) => {
                self.unavailable = 0;
                self.state = PlayState::Playing;
                self.position = Some(*ms);
            },
            Event::Paused(ms) => {
                self.state = PlayState::Paused;
                self.position = Some(*ms);
            },
            Event::Moved(ms) => {
                self.position = Some(*ms);
            },
            Event::Stopped => {
                self.fall_silent();
            },
            Event::EndOfTrack(uri) => {
                return self.end_track(uri);
            },
            Event::Unavailable => {
                return self.miss_track();
            },
            Event::TrackChanged(item) => {
                self.now_playing = Some(item.now_playing());
            },
            Event::Other => {},
        }
        Reaction::Nothing
    }
}

/// The end of a track that is not the current one moves nothing in the queue.
pub proof fn stale_end_keeps_the_queue(d: DaemonView, uri: MediaUri)
    requires
        !ended_current(d, uri),
    ensures
        followed(d, EventView::EndOfTrack(uri)).0.queue == d.queue,
        followed(d, EventView::EndOfTrack(uri)).1 == Reaction::Nothing,
{
}

/// Two unavailable tracks without a track that plays between them make the daemon leave;
/// with one between them they do not.
pub proof fn unavailable_twice_exits(d: DaemonView, ms: u32)
    requires
        d.unavailable == 0,
    ensures
        ({
            let once = followed(d, EventView::Unavailable);
            &&& !(once.1 is Exit)
            &&& followed(once.0, EventView::Unavailable).1 is Exit
            &&& !(followed(
                followed(once.0, EventView::Playing(ms)).0,
                EventView::Unavailable,
            ).1 is Exit)
        }),
{
}

/// A retry keeps the queue as it is.
pub proof fn retry_keeps_the_queue(d: DaemonView)
    requires
        followed(d, EventView::Unavailable).1 is Retry,
    ensures
        followed(d, EventView::Unavailable).0.queue == d.queue,
{
}

/// No field of the track that plays holds a tab or a line end.
pub proof fn playing_item_has_no_separators(item: AudioItemView, i: int)
    ensures
        0 <= i < playing_item(item).id.len() ==> playing_item(item).id[i] != '\t'
            && playing_item(item).id[i] != '\n' && playing_item(item).id[i] != '\r',
        0 <= i < playing_item(item).title.len() ==> playing_item(item).title[i] != '\t'
            && playing_item(item).title[i] != '\n' && playing_item(item).title[i] != '\r',
        0 <= i < playing_item(item).artist.len() ==> playing_item(item).artist[i] != '\t'
            && playing_item(item).artist[i] != '\n' && playing_item(item).artist[i] != '\r',
{
}

} // verus!
