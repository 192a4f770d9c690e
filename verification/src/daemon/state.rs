//! What the daemon knows: the queue, the modes, what plays, and what was browsed.
use crate::daemon::modes::PlaybackModes;
use crate::daemon::queue::{idle, PlaybackQueue, QueueView};
use crate::text::{copy_texts, view_opt, views};
use vstd::hash_map::StringHashMap;
use vstd::prelude::*;
use vstd::string::*;

verus! {

/// What the player last reported.
#[derive(Clone, Copy, Debug, PartialEq, Eq, Structural)]
pub enum PlayState {
    Stopped,
    Loading,
    Playing,
    Paused,
    Error,
}

pub open spec fn state_label(state: PlayState) -> Seq<char> {
    match state {
        PlayState::Stopped => "STOPPED"@,
        PlayState::Loading => "LOADING"@,
        PlayState::Playing => "PLAYING"@,
        PlayState::Paused => "PAUSED"@,
        PlayState::Error => "ERROR"@,
    }
}

impl PlayState {
    pub fn label(self) -> (r: &'static str)
        ensures
            r@ == state_label(self),
    {
        match self {
            PlayState::Stopped => "STOPPED",
            PlayState::Loading => "LOADING",
            PlayState::Playing => "PLAYING",
            PlayState::Paused => "PAUSED",
            PlayState::Error => "ERROR",
        }
    }
}

/// The track that plays.
pub struct NowPlaying {
    pub id: String,
    pub title: String,
    pub artist: String,
    pub duration_ms: u32,
}

pub struct NowPlayingView {
    pub id: Seq<char>,
    pub title: Seq<char>,
    pub artist: Seq<char>,
    pub duration_ms: u32,
}

impl View for NowPlaying {
    type V = NowPlayingView;

    open spec fn view(&self) -> NowPlayingView {
        NowPlayingView {
            id: self.id@,
            title: self.title@,
            artist: self.artist@,
            duration_ms: self.duration_ms,
        }
    }
}

/// The track lists that were browsed last, so that a track of one can start a queue.
pub struct BrowseCache {
    pub liked_track_ids: Vec<String>,
    pub playlists: StringHashMap<Vec<String>>,
    pub search_track_ids: Vec<String>,
}

pub struct CacheView {
    pub liked_track_ids: Seq<Seq<char>>,
    pub playlists: Map<Seq<char>, Seq<Seq<char>>>,
    pub search_track_ids: Seq<Seq<char>>,
}

/// The texts of a list.
pub open spec fn texts() -> spec_fn(Vec<String>) -> Seq<Seq<char>> {
    |list: Vec<String>| views(list@)
}

impl View for BrowseCache {
    type V = CacheView;

    open spec fn view(&self) -> CacheView {
        CacheView {
            liked_track_ids: views(self.liked_track_ids@),
            playlists: self.playlists@.map_values(texts()),
            search_track_ids: views(self.search_track_ids@),
        }
    }
}

pub open spec fn no_cache() -> CacheView {
    CacheView { liked_track_ids: seq![], playlists: Map::empty(), search_track_ids: seq![] }
}

impl CacheView {
    /// The remembered tracks of the playlist with a key, none if it is not known.
    pub open spec fn playlist(self, key: Seq<char>) -> Seq<Seq<char>> {
        if self.playlists.contains_key(key) {
            self.playlists[key]
        } else {
            seq![]
        }
    }
}

impl Default for BrowseCache {
    fn default() -> (r: BrowseCache)
        ensures
            r@ == no_cache(),
    {
        let r = BrowseCache {
            liked_track_ids: Vec::new(),
            playlists: StringHashMap::new(),
            search_track_ids: Vec::new(),
        };
        assert(r@.liked_track_ids =~= seq![]);
        assert(r@.search_track_ids =~= seq![]);
        assert(r@.playlists =~= Map::empty());
        r
    }
}

impl BrowseCache {
    /// The remembered tracks of the playlist with a key.
    pub fn playlist(&self, key: &str) -> (r: Vec<String>)
        ensures
            views(r@) == self@.playlist(key@),
    {
        match self.playlists.get(key) {
            Some(ids) => copy_texts(ids),
            None => {
                let none: Vec<String> = Vec::new();
                assert(views(none@) =~= seq![]);
                none
            },
        }
    }

    /// Remembers the tracks of a playlist, in place of those known before.
    pub fn set_playlist(&mut self, key: String, ids: Vec<String>)
        ensures
            final(self)@ == (CacheView {
                playlists: old(self)@.playlists.insert(key@, views(ids@)),
                ..old(self)@
            }),
    {
        self.playlists.insert(key, ids);
        assert(self@.playlists =~= old(self)@.playlists.insert(key@, views(ids@)));
    }
}

/// The daemon's state.
pub struct Daemon {
    pub queue: PlaybackQueue,
    pub modes: PlaybackModes,
    pub state: PlayState,
    pub now_playing: Option<NowPlaying>,
    pub position: Option<u32>,
    pub cache: BrowseCache,
    pub latest_load_request: u64,
    /// How many tracks in a row turned out to be unavailable.
    pub unavailable: u8,
}

pub struct DaemonView {
    pub queue: QueueView,
    pub modes: PlaybackModes,
    pub state: PlayState,
    pub now_playing: Option<NowPlayingView>,
    pub position: Option<u32>,
    pub cache: CacheView,
    pub latest_load_request: u64,
    pub unavailable: u8,
}

impl View for Daemon {
    type V = DaemonView;

    open spec fn view(&self) -> DaemonView {
        DaemonView {
            queue: self.queue@,
            modes: self.modes,
            state: self.state,
            now_playing: view_opt(self.now_playing),
            position: self.position,
            cache: self.cache@,
            latest_load_request: self.latest_load_request,
            unavailable: self.unavailable,
        }
    }
}

impl DaemonView {
    /// The queue is well formed and the shuffle generator is not stuck at zero.
    pub open spec fn wf(self) -> bool {
        self.queue.wf() && self.modes.shuffle_seed != 0
    }
}

/// The state of a daemon that has just started.
pub open spec fn fresh(modes: PlaybackModes) -> DaemonView {
    DaemonView {
        queue: idle(),
        modes,
        state: PlayState::Stopped,
        now_playing: None,
        position: None,
        cache: no_cache(),
        latest_load_request: 0,
        unavailable: 0,
    }
}

impl Daemon {
    pub fn new(modes: PlaybackModes) -> (r: Daemon)
        ensures
            r@ == fresh(modes),
            modes.shuffle_seed != 0 ==> r@.wf(),
    {
        Daemon {
            queue: PlaybackQueue::default(),
            modes,
            state: PlayState::Stopped,
            now_playing: None,
            position: None,
            cache: BrowseCache::default(),
            latest_load_request: 0,
            unavailable: 0,
        }
    }
}

} // verus!
