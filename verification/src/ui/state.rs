//! What the interface knows and shows.
use crate::daemon::queue::{QueueSource, SourceView};
use crate::daemon::state::{NowPlaying, NowPlayingView};
use crate::text::{same, view_opt, views};
use crate::ui::labels::StartupStage;
use crate::ui::replies::{
    Listed, ListedView, PageView, PlaybackState, QueuePage, QueuePageItem, QueueStatus, ShownModes,
    StatusView, VISIBLE_ROWS,
};
use crate::ui::settings::{Theme, CHOICES, SEARCH_HISTORY_LIMIT};
use vstd::prelude::*;
use vstd::string::*;

verus! {

/// The seed from which the snow starts.
pub const FIRST_SNOW: u32 = 0x5a17_c9e3;

/// Main content displayed above the strip of the current track.
#[derive(Clone, Copy, Debug, PartialEq, Eq, Structural)]
pub enum AppView {
    Library,
    Playlists,
    PlaylistTracks,
    SearchInput,
    SearchResults,
    SearchHistory,
    Menu,
    Sound,
    UpNext,
    NowPlaying,
    Appearance,
    Special,
    Diagnostics,
    Settings,
}

/// Where the user is, and which row of each list is first and which is marked.
#[derive(Clone, Copy, Debug, PartialEq, Eq, Structural)]
pub struct Nav {
    pub view: AppView,
    /// Where the screen of the current track leads back to.
    pub now_playing_return: AppView,
    /// Where the play order leads back to.
    pub up_next_return: AppView,
    pub exit_armed: bool,
    pub scroll: usize,
    pub playlist_scroll: usize,
    pub playlist_track_scroll: usize,
    pub search_scroll: usize,
    pub selected: Option<usize>,
    pub playlist_selected: Option<usize>,
    pub playlist_track_selected: Option<usize>,
    pub search_selected: Option<usize>,
    pub up_next_offset: usize,
    pub search_in_progress: bool,
}

/// The volume to show, and since when it is shown.
#[derive(Clone, Copy, Debug, PartialEq, Eq, Structural)]
pub struct VolumePopup {
    pub percent: u8,
    pub shown: u64,
}

/// What is known of playback.
#[derive(Clone, Copy, Debug, PartialEq, Eq, Structural)]
pub struct Playback {
    pub state: PlaybackState,
    pub modes: ShownModes,
    pub position: Option<u32>,
    /// How many times in a row the daemon did not answer.
    pub failures: u8,
    pub next_request: u64,
    /// The output port of the jack that is plugged.
    pub port: Option<u8>,
    pub volume_popup: Option<VolumePopup>,
}

/// The device and its screen.
#[derive(Clone, Copy, Debug, PartialEq, Eq, Structural)]
pub struct Device {
    pub brightness: usize,
    pub sleep: usize,
    pub theme: Theme,
    pub seed: u32,
    pub frame: u32,
    pub battery: Option<u8>,
    pub storage_mb: Option<u64>,
    pub memory_mb: Option<u64>,
    pub asleep: bool,
    /// Everything is to be drawn anew.
    pub dirty: bool,
    /// The strip of the current track is to be drawn anew.
    pub strip_dirty: bool,
    pub stage: Option<StartupStage>,
    pub tracks_loaded: bool,
    pub brightness_applied: bool,
    pub x: i32,
    pub y: i32,
    pub touching: bool,
}

/// When things last happened, in nanoseconds.
#[derive(Clone, Copy, Debug, PartialEq, Eq, Structural)]
pub struct Times {
    pub start: u64,
    pub flush: u64,
    pub jack: u64,
    pub liked_retry: u64,
    pub stage_start: u64,
    pub retry: Option<u64>,
    pub status: u64,
    pub battery: u64,
    pub storage: u64,
    pub memory: u64,
    pub ambient: u64,
    pub input: u64,
    pub diagnostics: Option<u64>,
}

/// A track that was tapped and is not known to play yet.
pub struct PendingQueueSelection {
    pub source: QueueSource,
    pub track_id: String,
    pub request_id: u64,
    pub started: u64,
}

pub struct PendingView {
    pub source: SourceView,
    pub track_id: Seq<char>,
    pub request_id: u64,
    pub started: u64,
}

impl View for PendingQueueSelection {
    type V = PendingView;

    open spec fn view(&self) -> PendingView {
        PendingView {
            source: self.source@,
            track_id: self.track_id@,
            request_id: self.request_id,
            started: self.started,
        }
    }
}

/// A load command that waits, so that a later tap can take its place.
pub struct PendingLoadCommand {
    pub request_id: u64,
    pub command: String,
    pub started: u64,
}

pub struct PendingLoadView {
    pub request_id: u64,
    pub command: Seq<char>,
    pub started: u64,
}

impl View for PendingLoadCommand {
    type V = PendingLoadView;

    open spec fn view(&self) -> PendingLoadView {
        PendingLoadView {
            request_id: self.request_id,
            command: self.command@,
            started: self.started,
        }
    }
}

/// The state of the interface.
pub struct Ui {
    pub items: Vec<Listed>,
    pub playlists: Vec<Listed>,
    pub playlist_tracks: Vec<Listed>,
    pub search_results: Vec<Listed>,
    pub recent: Vec<String>,
    pub query: String,
    pub page: Option<QueuePage>,
    pub pending_selection: Option<PendingQueueSelection>,
    pub pending_load: Option<PendingLoadCommand>,
    pub queue_status: Option<QueueStatus>,
    pub now_playing: Option<NowPlaying>,
    pub nav: Nav,
    pub play: Playback,
    pub device: Device,
    pub times: Times,
}

pub struct UiView {
    pub items: Seq<ListedView>,
    pub playlists: Seq<ListedView>,
    pub playlist_tracks: Seq<ListedView>,
    pub search_results: Seq<ListedView>,
    pub recent: Seq<Seq<char>>,
    pub query: Seq<char>,
    pub page: Option<PageView>,
    pub pending_selection: Option<PendingView>,
    pub pending_load: Option<PendingLoadView>,
    pub queue_status: Option<StatusView>,
    pub now_playing: Option<NowPlayingView>,
    pub nav: Nav,
    pub play: Playback,
    pub device: Device,
    pub times: Times,
}

impl View for Ui {
    type V = UiView;

    open spec fn view(&self) -> UiView {
        UiView {
            items: views(self.items@),
            playlists: views(self.playlists@),
            playlist_tracks: views(self.playlist_tracks@),
            search_results: views(self.search_results@),
            recent: views(self.recent@),
            query: self.query@,
            page: view_opt(self.page),
            pending_selection: view_opt(self.pending_selection),
            pending_load: view_opt(self.pending_load),
            queue_status: view_opt(self.queue_status),
            now_playing: view_opt(self.now_playing),
            nav: self.nav,
            play: self.play,
            device: self.device,
            times: self.times,
        }
    }
}

/// The first row of a list when it is scrolled to its end.
pub open spec fn last_scroll(len: nat) -> int {
    if len <= VISIBLE_ROWS {
        0
    } else {
        len - VISIBLE_ROWS
    }
}

impl UiView {
    /// No list is scrolled past its end, the settings are choices that exist, and a page of
    /// the play order lies within it.
    pub open spec fn wf(self) -> bool {
        &&& self.nav.scroll <= last_scroll(self.items.len())
        &&& self.nav.playlist_scroll <= last_scroll(self.playlists.len())
        &&& self.nav.playlist_track_scroll <= last_scroll(self.playlist_tracks.len())
        &&& self.nav.search_scroll <= last_scroll(self.search_results.len())
        &&& self.recent.len() <= SEARCH_HISTORY_LIMIT
        &&& self.device.brightness < CHOICES
        &&& self.device.sleep < CHOICES
        &&& self.page is Some ==> self.page->0.wf()
    }
}

/// A row that stands in for an empty list.
pub open spec fn notice(text: Seq<char>) -> Seq<ListedView> {
    seq![ListedView { id: seq![], name: text, by: seq![] }]
}

/// A list, or a notice if it is empty.
pub open spec fn or_notice(list: Seq<ListedView>, text: Seq<char>) -> Seq<ListedView> {
    if list.len() == 0 {
        notice(text)
    } else {
        list
    }
}

/// A list, or a notice if it is empty.
pub fn list_or_notice(list: Vec<Listed>, text: &str) -> (r: Vec<Listed>)
    ensures
        views(r@) == or_notice(views(list@), text@),
{
    if list.len() == 0 {
        let row = Listed { id: String::new(), name: text.to_owned(), by: String::new() };
        assert(row.id@ =~= seq![]);
        assert(row.by@ =~= seq![]);
        let mut r: Vec<Listed> = Vec::new();
        r.push(row);
        assert(views(r@) =~= notice(text@));
        r
    } else {
        list
    }
}

/// The interface when it starts, with what it found.
pub open spec fn started_ui(
    liked: Seq<ListedView>,
    recent: Seq<Seq<char>>,
    queue_status: Option<StatusView>,
    wifi: bool,
    theme: Theme,
    brightness: usize,
    sleep: usize,
    modes: ShownModes,
    next_request: u64,
    port: Option<u8>,
    battery: Option<u8>,
    storage_mb: Option<u64>,
    memory_mb: Option<u64>,
    now: u64,
) -> UiView {
    UiView {
        items: or_notice(liked, "Connecting..."@),
        playlists: seq![],
        playlist_tracks: seq![],
        search_results: seq![],
        recent,
        query: seq![],
        page: None,
        pending_selection: None,
        pending_load: None,
        queue_status,
        now_playing: None,
        nav: Nav {
            view: AppView::Library,
            now_playing_return: AppView::Library,
            up_next_return: AppView::Sound,
            exit_armed: false,
            scroll: 0,
            playlist_scroll: 0,
            playlist_track_scroll: 0,
            search_scroll: 0,
            selected: None,
            playlist_selected: None,
            playlist_track_selected: None,
            search_selected: None,
            up_next_offset: 0,
            search_in_progress: false,
        },
        play: Playback {
            state: PlaybackState::Unknown,
            modes,
            position: None,
            failures: 0,
            next_request,
            port,
            volume_popup: None,
        },
        device: Device {
            brightness,
            sleep,
            theme,
            seed: FIRST_SNOW,
            frame: 0,
            battery,
            storage_mb,
            memory_mb,
            asleep: false,
            dirty: false,
            strip_dirty: false,
            stage: if liked.len() > 0 {
                None
            } else if wifi {
                Some(StartupStage::Spotify)
            } else {
                Some(StartupStage::Wifi)
            },
            tracks_loaded: liked.len() > 0,
            brightness_applied: false,
            x: 0,
            y: 0,
            touching: false,
        },
        times: Times {
            start: now,
            flush: now,
            jack: now,
            liked_retry: now,
            stage_start: now,
            retry: None,
            status: now,
            battery: now,
            storage: now,
            memory: now,
            ambient: now,
            input: now,
            diagnostics: None,
        },
    }
}

impl Ui {
    /// The interface when it starts, with what it found. `wifi` says whether the network
    /// is up.
    pub fn start(
        liked: Vec<Listed>,
        recent: Vec<String>,
        queue_status: Option<QueueStatus>,
        wifi: bool,
        theme: Theme,
        brightness: usize,
        sleep: usize,
        modes: ShownModes,
        next_request: u64,
        port: Option<u8>,
        battery: Option<u8>,
        storage_mb: Option<u64>,
        memory_mb: Option<u64>,
        now: u64,
    ) -> (r: Ui)
        requires
            recent.len() <= SEARCH_HISTORY_LIMIT,
            brightness < CHOICES,
            sleep < CHOICES,
        ensures
            r@ == started_ui(
                views(liked@),
                views(recent@),
                view_opt(queue_status),
                wifi,
                theme,
                brightness,
                sleep,
                modes,
                next_request,
                port,
                battery,
                storage_mb,
                memory_mb,
                now,
            ),
            r@.wf(),
    {
        let loaded = liked.len() > 0;
        let r = Ui {
            items: list_or_notice(liked, "Connecting..."),
            playlists: Vec::new(),
            playlist_tracks: Vec::new(),
            search_results: Vec::new(),
            recent,
            query: String::new(),
            page: None,
            pending_selection: None,
            pending_load: None,
            queue_status,
            now_playing: None,
            nav: Nav {
                view: AppView::Library,
                now_playing_return: AppView::Library,
                up_next_return: AppView::Sound,
                exit_armed: false,
                scroll: 0,
                playlist_scroll: 0,
                playlist_track_scroll: 0,
                search_scroll: 0,
                selected: None,
                playlist_selected: None,
                playlist_track_selected: None,
                search_selected: None,
                up_next_offset: 0,
                search_in_progress: false,
            },
            play: Playback {
                state: PlaybackState::Unknown,
                modes,
                position: None,
                failures: 0,
                next_request,
                port,
                volume_popup: None,
            },
            device: Device {
                brightness,
                sleep,
                theme,
                seed: FIRST_SNOW,
                frame: 0,
                battery,
                storage_mb,
                memory_mb,
                asleep: false,
                dirty: false,
                strip_dirty: false,
                stage: if loaded {
                    None
                } else if wifi {
                    Some(StartupStage::Spotify)
                } else {
                    Some(StartupStage::Wifi)
                },
                tracks_loaded: loaded,
                brightness_applied: false,
                x: 0,
                y: 0,
                touching: false,
            },
            times: Times {
                start: now,
                flush: now,
                jack: now,
                liked_retry: now,
                stage_start: now,
                retry: None,
                status: now,
                battery: now,
                storage: now,
                memory: now,
                ambient: now,
                input: now,
                diagnostics: None,
            },
        };
        assert(r@.playlists =~= seq![]);
        assert(r@.playlist_tracks =~= seq![]);
        assert(r@.search_results =~= seq![]);
        assert(r@.query =~= seq![]);
        r
    }
}

/// Whether two sources are the same.
pub fn same_source(a: &QueueSource, b: &QueueSource) -> (r: bool)
    ensures
        r == (a@ == b@),
{
    match (a, b) {
        (QueueSource::Liked, QueueSource::Liked) => true,
        (QueueSource::Playlist(x), QueueSource::Playlist(y)) => same(x.as_str(), y.as_str()),
        (QueueSource::Search, QueueSource::Search) => true,
        _ => false,
    }
}

/// Whether the same track plays, or none in either case.
pub fn same_track(a: &Option<NowPlaying>, b: &Option<NowPlaying>) -> (r: bool)
    ensures
        r == (view_opt(*a) == view_opt(*b)),
{
    match (a, b) {
        (None, None) => true,
        (Some(x), Some(y)) => {
            same(x.id.as_str(), y.id.as_str()) && same(x.title.as_str(), y.title.as_str()) && same(
                x.artist.as_str(),
                y.artist.as_str(),
            ) && x.duration_ms == y.duration_ms
        },
        _ => false,
    }
}

fn same_items(a: &Vec<QueuePageItem>, b: &Vec<QueuePageItem>) -> (r: bool)
    ensures
        r == (views(a@) == views(b@)),
{
    let ghost va = views(a@);
    let ghost vb = views(b@);
    if a.len() != b.len() {
        assert(va.len() != vb.len());
        return false;
    }
    let mut i: usize = 0;
    while i < a.len()
        invariant
            i <= a.len() == b.len(),
            va == views(a@),
            vb == views(b@),
            forall|k: int| 0 <= k < i ==> #[trigger] va[k] == vb[k],
        decreases a.len() - i,
    {
        if !(a[i].position == b[i].position && a[i].source_index == b[i].source_index && same(
            a[i].track_id.as_str(),
            b[i].track_id.as_str(),
        )) {
            assert(va[i as int] != vb[i as int]);
            return false;
        }
        i += 1;
    }
    assert(va =~= vb);
    true
}

/// Whether two pages of the play order are the same.
pub fn same_page(a: &Option<QueuePage>, b: &Option<QueuePage>) -> (r: bool)
    ensures
        r == (view_opt(*a) == view_opt(*b)),
{
    match (a, b) {
        (None, None) => true,
        (Some(x), Some(y)) => {
            same_source(&x.source, &y.source) && x.current_position == y.current_position && x.total
                == y.total && x.start == y.start && same_items(&x.items, &y.items)
        },
        _ => false,
    }
}

} // verus!
