//! What time does: polls, retries, things that run out, sleep, and when to draw.
use crate::daemon::queue::{QueueSource, SourceView};
use crate::daemon::state::{NowPlaying, NowPlayingView};
use crate::text::{lemma_place, lemma_place_is, lines, place, same, trim, trimmed, view_opt, views};
use crate::ui::answers::{
    flat, page_of_answer, read_page, read_queue_status, read_state, state_of_answer,
    status_of_answer,
};
use crate::ui::labels::StartupStage;
use crate::ui::replies::{
    all_listed_in, daemon_now_playing, daemon_playback_position, daemon_query, now_playing_in,
    position_in, Listed, ListedView, PageView, PlaybackState, QueuePage, QueueStatus, StatusView,
    VISIBLE_ROWS,
};
use crate::ui::settings::{
    history_text, remember_search, save_search_history, screen_sleep_timeout, searched,
    sleep_after, Theme,
};
use crate::ui::state::{
    list_or_notice, or_notice, same_page, same_source, same_track, AppView, Device, Nav,
    PendingView, Playback, Times, Ui, UiView,
};
use crate::ui::touch::{dirtied, page_offset, shown_playlist_id, viewing};
use vstd::prelude::*;
use vstd::string::*;

verus! {

/// How many nanoseconds have passed.
pub open spec fn elapsed(now: u64, since: u64) -> int {
    if now < since {
        0
    } else {
        now - since
    }
}

/// Whether so many milliseconds have passed.
pub open spec fn passed(now: u64, since: u64, ms: int) -> bool {
    elapsed(now, since) >= ms * 1_000_000
}

fn has_passed(now: u64, since: u64, ms: u64) -> (r: bool)
    requires
        ms <= 1_000_000,
    ensures
        r == passed(now, since, ms as int),
{
    now.saturating_sub(since) >= ms * 1_000_000
}

/// The brightness that was kept is set once, two seconds after the start.
pub open spec fn brightness_settled(u: UiView, now: u64) -> (UiView, bool) {
    if !u.device.brightness_applied && passed(now, u.times.start, 2000) {
        (UiView { device: Device { brightness_applied: true, ..u.device }, ..u }, true)
    } else {
        (u, false)
    }
}

/// A load command that has waited long enough is sent.
pub open spec fn load_dispatched(u: UiView, now: u64) -> (UiView, Option<Seq<char>>) {
    match u.pending_load {
        Some(pending) => if passed(now, pending.started, 600) {
            (UiView { pending_load: None, ..u }, Some(pending.command))
        } else {
            (u, None)
        },
        None => (u, None),
    }
}

/// The results of the search that runs have come. The text to keep is that of the new
/// history.
pub open spec fn search_answered(u: UiView, text: Seq<char>) -> (UiView, Option<Seq<char>>) {
    if !u.nav.search_in_progress {
        (u, None)
    } else {
        let recent = searched(u.recent, u.query);
        (
            viewing(
                UiView {
                    recent,
                    search_results: or_notice(
                        all_listed_in(lines(text), "RESULT "@),
                        "No search results"@,
                    ),
                    nav: Nav {
                        search_scroll: 0,
                        search_selected: None,
                        search_in_progress: false,
                        ..u.nav
                    },
                    ..u
                },
                AppView::SearchResults,
            ),
            if trimmed(u.query).len() > 0 {
                Some(history_text(recent))
            } else {
                None
            },
        )
    }
}

/// Until the library is there it is asked for every two seconds.
pub open spec fn library_due(u: UiView, now: u64) -> (UiView, bool) {
    if !u.device.tracks_loaded && passed(now, u.times.liked_retry, 2000) {
        (dirtied(UiView { times: Times { liked_retry: now, ..u.times }, ..u }), true)
    } else {
        (u, false)
    }
}

/// What is waited for.
pub open spec fn stage_now(wifi: bool, daemon: bool) -> StartupStage {
    if !wifi {
        StartupStage::Wifi
    } else if daemon {
        StartupStage::Library
    } else {
        StartupStage::Spotify
    }
}

/// The liked songs have come, if there are any; without any, what is shown stays.
pub open spec fn library_answered(u: UiView, text: Seq<char>) -> UiView {
    let liked = all_listed_in(lines(text), "RESULT "@);
    if liked.len() > 0 {
        UiView {
            items: liked,
            nav: Nav { scroll: 0, selected: None, ..u.nav },
            device: Device { tracks_loaded: true, stage: None, dirty: true, ..u.device },
            times: Times { retry: None, ..u.times },
            ..u
        }
    } else {
        u
    }
}

/// The start moves on: `wifi` and `daemon` say what is up, and `text` is the library, empty
/// if it is not there.
pub open spec fn startup_answered(
    u: UiView,
    wifi: bool,
    daemon: bool,
    text: Seq<char>,
    now: u64,
) -> UiView {
    let stage = stage_now(wifi, daemon);
    let u = if u.device.stage != Some(stage) {
        dirtied(
            UiView {
                device: Device { stage: Some(stage), ..u.device },
                times: Times { stage_start: now, retry: None, ..u.times },
                ..u
            },
        )
    } else {
        u
    };
    library_answered(u, text)
}

/// The note that a retry was asked for goes away.
pub open spec fn retry_noted(u: UiView, now: u64) -> UiView {
    match u.times.retry {
        Some(since) => if passed(now, since, 1500) {
            dirtied(UiView { times: Times { retry: None, ..u.times }, ..u })
        } else {
            u
        },
        None => u,
    }
}

/// The daemon is asked once a second.
pub open spec fn status_due(u: UiView, now: u64) -> (UiView, bool) {
    if passed(now, u.times.status, 1000) {
        (UiView { times: Times { status: now, ..u.times }, ..u }, true)
    } else {
        (u, false)
    }
}

/// The state has come, or not. When it has not twice in a row, nothing is known of
/// playback any more.
pub open spec fn state_polled(u: UiView, reply: Option<Seq<char>>) -> UiView {
    match state_of_answer(reply) {
        Some(state) => {
            let u = UiView { play: Playback { failures: 0, ..u.play }, ..u };
            if state != u.play.state {
                dirtied(UiView { play: Playback { state, ..u.play }, ..u })
            } else {
                u
            }
        },
        None => {
            let failures = if u.play.failures < 255 {
                (u.play.failures + 1) as u8
            } else {
                255
            };
            let u = UiView { play: Playback { failures, ..u.play }, ..u };
            if failures >= 2 && u.play.state != PlaybackState::Unknown {
                dirtied(
                    UiView {
                        play: Playback { state: PlaybackState::Unknown, position: None, ..u.play },
                        now_playing: None,
                        queue_status: None,
                        pending_selection: None,
                        ..u
                    },
                )
            } else {
                u
            }
        },
    }
}

/// The strip is to be drawn anew.
pub open spec fn strip_dirtied(u: UiView) -> UiView {
    UiView { device: Device { strip_dirty: true, ..u.device }, ..u }
}

/// The track in an answer that came.
pub open spec fn track_of_answer(reply: Option<Seq<char>>) -> Option<Option<NowPlayingView>> {
    match reply {
        Some(reply) => now_playing_in(reply),
        None => None,
    }
}

/// The position in an answer that came.
pub open spec fn position_of_answer(reply: Option<Seq<char>>) -> Option<Option<u32>> {
    match reply {
        Some(reply) => position_in(reply),
        None => None,
    }
}

/// The current track has come.
pub open spec fn track_polled(u: UiView, reply: Option<Seq<char>>) -> UiView {
    match track_of_answer(reply) {
        Some(item) => if item != u.now_playing {
            strip_dirtied(UiView { now_playing: item, ..u })
        } else {
            u
        },
        None => u,
    }
}

/// The position has come.
pub open spec fn position_polled(u: UiView, reply: Option<Seq<char>>) -> UiView {
    match position_of_answer(reply) {
        Some(position) => if position != u.play.position {
            strip_dirtied(UiView { play: Playback { position, ..u.play }, ..u })
        } else {
            u
        },
        None => u,
    }
}

/// The ids of a list.
pub open spec fn ids(list: Seq<ListedView>) -> Seq<Seq<char>> {
    Seq::new(list.len(), |i: int| list[i].id)
}

/// Where a track stands in a list: at the given index, or wherever it is first.
pub open spec fn found_in(list: Seq<ListedView>, index: usize, track_id: Seq<char>) -> Option<usize> {
    if index < list.len() && list[index as int].id == track_id {
        Some(index)
    } else {
        match place(ids(list), track_id) {
            Some(n) => Some(n as usize),
            None => None,
        }
    }
}

/// The row of the liked songs that plays.
pub open spec fn liked_row(u: UiView, queue: Option<StatusView>) -> Option<usize> {
    match queue {
        Some(status) => if status.source is Liked {
            found_in(u.items, status.index, status.track_id)
        } else {
            None
        },
        None => None,
    }
}

/// The row of the shown playlist that plays.
pub open spec fn playlist_row(u: UiView, queue: Option<StatusView>) -> Option<usize> {
    match queue {
        Some(status) => match status.source {
            SourceView::Playlist(id) => if shown_playlist_id(u) == Some(id) {
                found_in(u.playlist_tracks, status.index, status.track_id)
            } else {
                None
            },
            _ => None,
        },
        None => None,
    }
}

/// The row of the search results that plays.
pub open spec fn search_row(u: UiView, queue: Option<StatusView>) -> Option<usize> {
    match queue {
        Some(status) => if status.source is Search {
            found_in(u.search_results, status.index, status.track_id)
        } else {
            None
        },
        None => None,
    }
}

/// A tapped track that the daemon has not taken up within three seconds is forgotten.
pub open spec fn waiting(pending: Option<PendingView>, now: u64) -> Option<PendingView> {
    match pending {
        Some(selection) => if passed(now, selection.started, 3000) {
            None
        } else {
            pending
        },
        None => None,
    }
}

/// Whether the queue is the one that is waited for, if any is.
pub open spec fn is_awaited(pending: Option<PendingView>, queue: Option<StatusView>) -> bool {
    match (pending, queue) {
        (None, _) => true,
        (Some(_), None) => false,
        (Some(selection), Some(status)) => {
            &&& selection.request_id == status.request_id
            &&& selection.source == status.source
            &&& selection.track_id == status.track_id
        },
    }
}

/// The rows that play are marked.
pub open spec fn rows_marked(u: UiView, queue: Option<StatusView>) -> UiView {
    let selected = liked_row(u, queue);
    let playlist_track_selected = playlist_row(u, queue);
    let search_selected = search_row(u, queue);
    let changed = selected != u.nav.selected || playlist_track_selected
        != u.nav.playlist_track_selected || search_selected != u.nav.search_selected;
    UiView {
        queue_status: queue,
        nav: Nav { selected, playlist_track_selected, search_selected, ..u.nav },
        device: Device { dirty: u.device.dirty || changed, ..u.device },
        ..u
    }
}

/// The place in the queue is known. While a tapped track is waited for, another queue
/// changes nothing on the screen; otherwise the rows that play are marked.
pub open spec fn queue_known(u: UiView, queue: Option<StatusView>, now: u64) -> UiView {
    let pending = waiting(u.pending_selection, now);
    if is_awaited(pending, queue) {
        rows_marked(UiView { pending_selection: None, ..u }, queue)
    } else {
        UiView { pending_selection: pending, ..u }
    }
}

/// The place in the queue has come, or not.
pub open spec fn queue_polled(u: UiView, reply: Option<Seq<char>>, now: u64) -> UiView {
    match status_of_answer(reply) {
        Some(queue) => queue_known(u, queue, now),
        None => u,
    }
}

/// Whether the current track is off a page.
pub open spec fn is_off(page: PageView) -> bool {
    page.current_position < page.start || page.current_position >= page.start + page.items.len()
}

/// A page that differs is shown.
pub open spec fn page_shown(u: UiView, page: Option<PageView>) -> UiView {
    if page != u.page {
        dirtied(UiView { page, ..u })
    } else {
        u
    }
}

/// The page that is shown has come anew. If the current track is off it, the page with
/// that track is to be asked for.
pub open spec fn page_polled(u: UiView, reply: Option<Seq<char>>) -> (UiView, Option<usize>) {
    match page_of_answer(reply) {
        Some(page) => if page is Some && is_off(page->0) {
            let offset = page_offset(page->0.current_position as int) as usize;
            (UiView { nav: Nav { up_next_offset: offset, ..u.nav }, ..u }, Some(offset))
        } else {
            (page_shown(u, page), None)
        },
        None => (u, None),
    }
}

pub open spec fn battery_due(u: UiView, now: u64) -> (UiView, bool) {
    if passed(now, u.times.battery, 30_000) {
        (UiView { times: Times { battery: now, ..u.times }, ..u }, true)
    } else {
        (u, false)
    }
}

pub open spec fn storage_due(u: UiView, now: u64) -> (UiView, bool) {
    if passed(now, u.times.storage, 30_000) {
        (UiView { times: Times { storage: now, ..u.times }, ..u }, true)
    } else {
        (u, false)
    }
}

pub open spec fn memory_due(u: UiView, now: u64) -> (UiView, bool) {
    if passed(now, u.times.memory, 30_000) {
        (UiView { times: Times { memory: now, ..u.times }, ..u }, true)
    } else {
        (u, false)
    }
}

/// The charge, the free space or the free memory has come.
pub open spec fn device_polled(u: UiView, device: Device) -> UiView {
    if device != u.device {
        dirtied(UiView { device, ..u })
    } else {
        u
    }
}

/// The next seed of the snow.
pub open spec fn next_snow(seed: u32) -> u32 {
    ((seed * 1_664_525 + 1_013_904_223) % 0x1_0000_0000) as u32
}

/// The next number of 32 bits.
pub open spec fn next_frame(frame: u32) -> u32 {
    if frame == u32::MAX {
        0
    } else {
        (frame + 1) as u32
    }
}

/// Whether the background moves on: a theme that moves, nothing that loads, no touch for
/// two seconds, and a second since it last moved.
pub open spec fn ambient_due(u: UiView, now: u64) -> bool {
    &&& u.device.theme != Theme::DurandalTerminal
    &&& u.pending_load is None
    &&& u.pending_selection is None
    &&& u.play.state != PlaybackState::Loading
    &&& passed(now, u.times.input, 2000)
    &&& passed(now, u.times.ambient, 1000)
}

/// The background moves on.
pub open spec fn ambient(u: UiView, now: u64) -> UiView {
    if ambient_due(u, now) {
        UiView {
            device: Device {
                seed: next_snow(u.device.seed),
                frame: next_frame(u.device.frame),
                dirty: true,
                ..u.device
            },
            times: Times { ambient: now, ..u.times },
            ..u
        }
    } else {
        u
    }
}

/// The volume indicator goes away.
pub open spec fn popup_expired(u: UiView, now: u64) -> UiView {
    match u.play.volume_popup {
        Some(popup) => if passed(now, popup.shown, 1800) {
            strip_dirtied(UiView { play: Playback { volume_popup: None, ..u.play }, ..u })
        } else {
            u
        },
        None => u,
    }
}

/// The note that the diagnostics are fresh goes away.
pub open spec fn diagnostics_expired(u: UiView, now: u64) -> UiView {
    match u.times.diagnostics {
        Some(since) => if passed(now, since, 1500) {
            dirtied(UiView { times: Times { diagnostics: None, ..u.times }, ..u })
        } else {
            u
        },
        None => u,
    }
}

/// The screen goes to sleep when it has not been touched for as long as was chosen, but
/// not while the device starts.
pub open spec fn sleep_due(u: UiView, now: u64) -> bool {
    &&& !u.device.asleep
    &&& u.device.stage is None
    &&& sleep_after(u.device.sleep as int) is Some
    &&& passed(now, u.times.input, sleep_after(u.device.sleep as int)->0 as int)
}

/// The screen goes to sleep.
pub open spec fn slept(u: UiView, now: u64) -> (UiView, bool) {
    if sleep_due(u, now) {
        (
            UiView {
                device: Device { asleep: true, dirty: false, strip_dirty: false, ..u.device },
                ..u
            },
            true,
        )
    } else {
        (u, false)
    }
}

/// The jacks are looked at four times a second.
pub open spec fn jack_due(u: UiView, now: u64) -> (UiView, bool) {
    if passed(now, u.times.jack, 250) {
        (UiView { times: Times { jack: now, ..u.times }, ..u }, true)
    } else {
        (u, false)
    }
}

/// What to do about a change of the jacks.
#[derive(Clone, Copy, Debug, PartialEq, Eq, Structural)]
pub struct JackChange {
    /// Ask for a pause.
    pub pause: bool,
    /// Select this output port.
    pub port: Option<u8>,
}

/// The jacks have been looked at. When one is gone or another one is plugged, playback
/// pauses; it never goes on by itself.
pub open spec fn jack_polled(u: UiView, port: Option<u8>) -> (UiView, JackChange) {
    if port == u.play.port {
        (u, JackChange { pause: false, port: None })
    } else {
        let pause = u.play.port is Some;
        let paused = pause && (u.play.state == PlaybackState::Unknown || u.play.state
            == PlaybackState::Loading || u.play.state == PlaybackState::Playing);
        (
            UiView {
                play: Playback {
                    port,
                    state: if paused {
                        PlaybackState::Paused
                    } else {
                        u.play.state
                    },
                    ..u.play
                },
                device: Device { dirty: u.device.dirty || paused, ..u.device },
                ..u
            },
            JackChange { pause, port },
        )
    }
}

/// What to draw.
#[derive(Clone, Copy, Debug, PartialEq, Eq, Structural)]
pub enum Frame {
    Nothing,
    /// All of the screen.
    Full,
    /// The strip of the current track.
    Strip,
    /// The last picture once more, to keep the panel lit.
    Keepalive,
}

/// What is to be drawn now. The screen of the current track has no strip, so it is drawn
/// as a whole. A sleeping screen is not drawn at all.
pub open spec fn frame_due(u: UiView, now: u64, keepalive_ms: u64) -> (UiView, Frame) {
    let whole = u.nav.view == AppView::NowPlaying && u.device.strip_dirty;
    let dirty = u.device.dirty || whole;
    let strip_dirty = u.device.strip_dirty && !whole;
    let device = Device { dirty, strip_dirty, ..u.device };
    if u.device.asleep {
        (UiView { device, ..u }, Frame::Nothing)
    } else {
        let drawn = UiView {
            device: Device { dirty: false, strip_dirty: false, ..u.device },
            times: Times { flush: now, ..u.times },
            ..u
        };
        if dirty {
            (drawn, Frame::Full)
        } else if strip_dirty {
            (drawn, Frame::Strip)
        } else if elapsed(now, u.times.flush) / 1_000_000 >= keepalive_ms {
            (drawn, Frame::Keepalive)
        } else {
            (UiView { device, ..u }, Frame::Nothing)
        }
    }
}

/// Where a track stands in a list.
pub fn find_track(list: &Vec<Listed>, index: usize, track_id: &str) -> (r: Option<usize>)
    ensures
        r == found_in(views(list@), index, track_id@),
        r is Some ==> r->0 < list@.len(),
{
    let ghost all = views(list@);
    let ghost names = ids(all);
    if index < list.len() {
        assert(all[index as int] == list@[index as int]@);
        if same(list[index].id.as_str(), track_id) {
            return Some(index);
        }
    }
    let mut i: usize = 0;
    while i < list.len()
        invariant
            i <= list.len(),
            all == views(list@),
            names == ids(all),
            !(index < all.len() && all[index as int].id == track_id@),
            forall|k: int| 0 <= k < i ==> #[trigger] names[k] != track_id@,
        decreases list.len() - i,
    {
        assert(names[i as int] == list@[i as int].id@);
        if same(list[i].id.as_str(), track_id) {
            proof {
                lemma_place_is(names, track_id@, i as int);
            }
            return Some(i);
        }
        i += 1;
    }
    proof {
        lemma_place(names, track_id@);
    }
    None
}

impl Ui {
    /// Whether the brightness that was kept is to be set now.
    pub fn settle_brightness(&mut self, now: u64) -> (r: bool)
        requires
            old(self)@.wf(),
        ensures
            (final(self)@, r) == brightness_settled(old(self)@, now),
            final(self)@.wf(),
    {
        if !self.device.brightness_applied && has_passed(now, self.times.start, 2000) {
            self.device.brightness_applied = true;
            true
        } else {
            false
        }
    }

    /// The load command to send now.
    pub fn dispatch_load(&mut self, now: u64) -> (r: Option<String>)
        requires
            old(self)@.wf(),
        ensures
            (final(self)@, view_opt(r)) == load_dispatched(old(self)@, now),
            final(self)@.wf(),
    {
        let due = match &self.pending_load {
            Some(pending) => has_passed(now, pending.started, 600),
            None => false,
        };
        if due {
            match self.pending_load.take() {
                Some(pending) => Some(pending.command),
                None => None,
            }
        } else {
            None
        }
    }

    /// The results of the search have come; `text` is empty if there are none. Returns the
    /// history to keep.
    pub fn answer_search(&mut self, text: &str) -> (r: Option<String>)
        requires
            old(self)@.wf(),
        ensures
            (final(self)@, view_opt(r)) == search_answered(old(self)@, text@),
            final(self)@.wf(),
    {
        if !self.nav.search_in_progress {
            return None;
        }
        let blank = trim(self.query.as_str()).is_empty();
        remember_search(&mut self.recent, self.query.as_str());
        self.search_results = list_or_notice(daemon_query(text), "No search results");
        self.nav.search_scroll = 0;
        self.nav.search_selected = None;
        self.nav.search_in_progress = false;
        self.nav.view = AppView::SearchResults;
        self.device.dirty = true;
        if blank {
            None
        } else {
            Some(save_search_history(&self.recent))
        }
    }

    /// Whether to ask for the library now.
    pub fn library_is_due(&mut self, now: u64) -> (r: bool)
        requires
            old(self)@.wf(),
        ensures
            (final(self)@, r) == library_due(old(self)@, now),
            final(self)@.wf(),
    {
        if !self.device.tracks_loaded && has_passed(now, self.times.liked_retry, 2000) {
            self.times.liked_retry = now;
            self.device.dirty = true;
            true
        } else {
            false
        }
    }

    /// The liked songs have come; `text` is empty if they have not.
    pub fn answer_library(&mut self, text: &str)
        requires
            old(self)@.wf(),
        ensures
            final(self)@ == library_answered(old(self)@, text@),
            final(self)@.wf(),
    {
        let liked = daemon_query(text);
        assert(views(liked@).len() == liked.len());
        if liked.len() > 0 {
            self.items = liked;
            self.device.tracks_loaded = true;
            self.device.stage = None;
            self.times.retry = None;
            self.nav.scroll = 0;
            self.nav.selected = None;
            self.device.dirty = true;
        }
    }

    /// The start moves on.
    pub fn answer_startup(&mut self, wifi: bool, daemon: bool, text: &str, now: u64)
        requires
            old(self)@.wf(),
        ensures
            final(self)@ == startup_answered(old(self)@, wifi, daemon, text@, now),
            final(self)@.wf(),
    {
        let stage = if !wifi {
            StartupStage::Wifi
        } else if daemon {
            StartupStage::Library
        } else {
            StartupStage::Spotify
        };
        let same_stage = match self.device.stage {
            Some(known) => known == stage,
            None => false,
        };
        if !same_stage {
            self.device.stage = Some(stage);
            self.times.stage_start = now;
            self.times.retry = None;
            self.device.dirty = true;
        }
        self.answer_library(text);
    }

    /// The note that a retry was asked for goes away in time.
    pub fn expire_retry(&mut self, now: u64)
        requires
            old(self)@.wf(),
        ensures
            final(self)@ == retry_noted(old(self)@, now),
            final(self)@.wf(),
    {
        match self.times.retry {
            Some(since) => {
                if has_passed(now, since, 1500) {
                    self.times.retry = None;
                    self.device.dirty = true;
                }
            },
            None => {},
        }
    }

    /// Whether to ask the daemon now.
    pub fn status_is_due(&mut self, now: u64) -> (r: bool)
        requires
            old(self)@.wf(),
        ensures
            (final(self)@, r) == status_due(old(self)@, now),
            final(self)@.wf(),
    {
        if has_passed(now, self.times.status, 1000) {
            self.times.status = now;
            true
        } else {
            false
        }
    }

    /// The state has come, or not.
    pub fn poll_state(&mut self, reply: Option<&str>)
        requires
            old(self)@.wf(),
        ensures
            final(self)@ == state_polled(old(self)@, view_opt(reply)),
            final(self)@.wf(),
    {
        match read_state(reply) {
            Some(state) => {
                self.play.failures = 0;
                if state != self.play.state {
                    self.play.state = state;
                    self.device.dirty = true;
                }
            },
            None => {
                self.play.failures = self.play.failures.saturating_add(1);
                if self.play.failures >= 2 && self.play.state != PlaybackState::Unknown {
                    self.play.state = PlaybackState::Unknown;
                    self.now_playing = None;
                    self.play.position = None;
                    self.queue_status = None;
                    self.pending_selection = None;
                    self.device.dirty = true;
                }
            },
        }
    }

    /// The current track has come, or not.
    pub fn poll_track(&mut self, reply: Option<&str>)
        requires
            old(self)@.wf(),
        ensures
            final(self)@ == track_polled(old(self)@, view_opt(reply)),
            final(self)@.wf(),
    {
        let known = match reply {
            Some(reply) => daemon_now_playing(reply),
            None => None,
        };
        match known {
            Some(item) => {
                if !same_track(&item, &self.now_playing) {
                    self.now_playing = item;
                    self.device.strip_dirty = true;
                }
            },
            None => {},
        }
    }

    /// The position has come, or not.
    pub fn poll_position(&mut self, reply: Option<&str>)
        requires
            old(self)@.wf(),
        ensures
            final(self)@ == position_polled(old(self)@, view_opt(reply)),
            final(self)@.wf(),
    {
        let known = match reply {
            Some(reply) => daemon_playback_position(reply),
            None => None,
        };
        match known {
            Some(position) => {
                let changed = match (position, self.play.position) {
                    (Some(a), Some(b)) => a != b,
                    (None, None) => false,
                    _ => true,
                };
                if changed {
                    self.play.position = position;
                    self.device.strip_dirty = true;
                }
            },
            None => {},
        }
    }

    fn selection_has_timed_out(&self, now: u64) -> (r: bool)
        ensures
            r == (self@.pending_selection is Some && waiting(self@.pending_selection, now) is None),
    {
        match &self.pending_selection {
            Some(selection) => has_passed(now, selection.started, 3000),
            None => false,
        }
    }

    fn is_awaited(&self, queue: &Option<QueueStatus>) -> (r: bool)
        ensures
            r == is_awaited(self@.pending_selection, view_opt(*queue)),
    {
        match (&self.pending_selection, queue) {
            (None, _) => true,
            (Some(_), None) => false,
            (Some(selection), Some(status)) => {
                selection.request_id == status.request_id && same_source(
                    &selection.source,
                    &status.source,
                ) && same(selection.track_id.as_str(), status.track_id.as_str())
            },
        }
    }

    fn find_liked_row(&self, queue: &Option<QueueStatus>) -> (r: Option<usize>)
        ensures
            r == liked_row(self@, view_opt(*queue)),
    {
        match queue {
            Some(status) => match &status.source {
                QueueSource::Liked => find_track(
                    &self.items,
                    status.index,
                    status.track_id.as_str(),
                ),
                _ => None,
            },
            None => None,
        }
    }

    fn find_playlist_row(&self, queue: &Option<QueueStatus>) -> (r: Option<usize>)
        ensures
            r == playlist_row(self@, view_opt(*queue)),
    {
        match queue {
            Some(status) => match &status.source {
                QueueSource::Playlist(id) => match self.shown_playlist_id() {
                    Some(shown) => {
                        if same(shown.as_str(), id.as_str()) {
                            find_track(
                    &self.playlist_tracks,
                    status.index,
                    status.track_id.as_str(),
                )
                        } else {
                            None
                        }
                    },
                    None => None,
                },
                _ => None,
            },
            None => None,
        }
    }

    fn find_search_row(&self, queue: &Option<QueueStatus>) -> (r: Option<usize>)
        ensures
            r == search_row(self@, view_opt(*queue)),
    {
        match queue {
            Some(status) => match &status.source {
                QueueSource::Search => find_track(
                    &self.search_results,
                    status.index,
                    status.track_id.as_str(),
                ),
                _ => None,
            },
            None => None,
        }
    }

    fn mark_rows(&mut self, queue: Option<QueueStatus>)
        requires
            old(self)@.wf(),
        ensures
            final(self)@ == rows_marked(old(self)@, view_opt(queue)),
            final(self)@.wf(),
    {
        let selected = self.find_liked_row(&queue);
        let playlist_track_selected = self.find_playlist_row(&queue);
        let search_selected = self.find_search_row(&queue);
        self.queue_status = queue;
        if !same_row(selected, self.nav.selected) || !same_row(
            playlist_track_selected,
            self.nav.playlist_track_selected,
        ) || !same_row(search_selected, self.nav.search_selected) {
            self.device.dirty = true;
        }
        self.nav.selected = selected;
        self.nav.playlist_track_selected = playlist_track_selected;
        self.nav.search_selected = search_selected;
    }

    fn know_queue(&mut self, queue: Option<QueueStatus>, now: u64)
        requires
            old(self)@.wf(),
        ensures
            final(self)@ == queue_known(old(self)@, view_opt(queue), now),
            final(self)@.wf(),
    {
        if self.selection_has_timed_out(now) {
            self.pending_selection = None;
        }
        if self.is_awaited(&queue) {
            self.pending_selection = None;
            self.mark_rows(queue);
        }
    }

    /// The place in the queue has come, or not.
    pub fn poll_queue(&mut self, reply: Option<&str>, now: u64)
        requires
            old(self)@.wf(),
        ensures
            final(self)@ == queue_polled(old(self)@, view_opt(reply), now),
            final(self)@.wf(),
    {
        match read_queue_status(reply) {
            Some(queue) => self.know_queue(queue, now),
            None => {},
        }
    }

    /// The offset of the page to ask for, where the play order is shown.
    pub fn shown_page(&self) -> (r: Option<usize>)
        ensures
            r == if self@.nav.view == AppView::UpNext {
                Some(self@.nav.up_next_offset)
            } else {
                None
            },
    {
        if self.nav.view == AppView::UpNext {
            Some(self.nav.up_next_offset)
        } else {
            None
        }
    }

    fn show_page(&mut self, page: Option<QueuePage>)
        requires
            old(self)@.wf(),
            page is Some ==> page->0@.wf(),
        ensures
            final(self)@ == page_shown(old(self)@, view_opt(page)),
            final(self)@.wf(),
    {
        if !same_page(&page, &self.page) {
            self.page = page;
            self.device.dirty = true;
        }
    }

    /// The page that is shown has come anew, or not. Returns the offset of the page to ask
    /// for instead.
    pub fn poll_page(&mut self, reply: Option<&str>) -> (r: Option<usize>)
        requires
            old(self)@.wf(),
        ensures
            (final(self)@, r) == page_polled(old(self)@, view_opt(reply)),
            final(self)@.wf(),
    {
        match read_page(reply) {
            Some(page) => match find_moved(&page) {
                Some(offset) => {
                    self.nav.up_next_offset = offset;
                    Some(offset)
                },
                None => {
                    self.show_page(page);
                    None
                },
            },
            None => None,
        }
    }

    /// The page with the current track has come, or not.
    pub fn poll_moved_page(&mut self, reply: Option<&str>)
        requires
            old(self)@.wf(),
        ensures
            final(self)@ == page_shown(old(self)@, flat(page_of_answer(view_opt(reply)))),
            final(self)@.wf(),
    {
        let page = match read_page(reply) {
            Some(page) => page,
            None => None,
        };
        self.show_page(page);
    }

    /// Whether to look at the battery now.
    pub fn battery_is_due(&mut self, now: u64) -> (r: bool)
        requires
            old(self)@.wf(),
        ensures
            (final(self)@, r) == battery_due(old(self)@, now),
            final(self)@.wf(),
    {
        if has_passed(now, self.times.battery, 30_000) {
            self.times.battery = now;
            true
        } else {
            false
        }
    }

    /// Whether to look at the free space now.
    pub fn storage_is_due(&mut self, now: u64) -> (r: bool)
        requires
            old(self)@.wf(),
        ensures
            (final(self)@, r) == storage_due(old(self)@, now),
            final(self)@.wf(),
    {
        if has_passed(now, self.times.storage, 30_000) {
            self.times.storage = now;
            true
        } else {
            false
        }
    }

    /// Whether to look at the free memory now.
    pub fn memory_is_due(&mut self, now: u64) -> (r: bool)
        requires
            old(self)@.wf(),
        ensures
            (final(self)@, r) == memory_due(old(self)@, now),
            final(self)@.wf(),
    {
        if has_passed(now, self.times.memory, 30_000) {
            self.times.memory = now;
            true
        } else {
            false
        }
    }

    /// The charge of the battery has come.
    pub fn poll_battery(&mut self, battery: Option<u8>)
        requires
            old(self)@.wf(),
        ensures
            final(self)@ == device_polled(old(self)@, (Device { battery, ..old(self)@.device })),
            final(self)@.wf(),
    {
        let changed = match (battery, self.device.battery) {
            (Some(a), Some(b)) => a != b,
            (None, None) => false,
            _ => true,
        };
        if changed {
            self.device.battery = battery;
            self.device.dirty = true;
        }
    }

    /// The free space has come.
    pub fn poll_storage(&mut self, storage_mb: Option<u64>)
        requires
            old(self)@.wf(),
        ensures
            final(self)@ == device_polled(old(self)@, (Device { storage_mb, ..old(self)@.device })),
            final(self)@.wf(),
    {
        if !same_amount(storage_mb, self.device.storage_mb) {
            self.device.storage_mb = storage_mb;
            self.device.dirty = true;
        }
    }

    /// The free memory has come.
    pub fn poll_memory(&mut self, memory_mb: Option<u64>)
        requires
            old(self)@.wf(),
        ensures
            final(self)@ == device_polled(old(self)@, (Device { memory_mb, ..old(self)@.device })),
            final(self)@.wf(),
    {
        if !same_amount(memory_mb, self.device.memory_mb) {
            self.device.memory_mb = memory_mb;
            self.device.dirty = true;
        }
    }

    /// Moves the background on when it is time.
    pub fn move_ambient(&mut self, now: u64)
        requires
            old(self)@.wf(),
        ensures
            final(self)@ == ambient(old(self)@, now),
            final(self)@.wf(),
    {
        if self.device.theme != Theme::DurandalTerminal && self.pending_load.is_none()
            && self.pending_selection.is_none() && self.play.state != PlaybackState::Loading
            && has_passed(now, self.times.input, 2000) && has_passed(now, self.times.ambient, 1000) {
            self.times.ambient = now;
            let seed: u64 = self.device.seed as u64;
            self.device.seed = ((seed * 1_664_525 + 1_013_904_223) % 0x1_0000_0000) as u32;
            self.device.frame = if self.device.frame == u32::MAX {
                0
            } else {
                self.device.frame + 1
            };
            self.device.dirty = true;
        }
    }

    /// The volume indicator goes away in time.
    pub fn expire_popup(&mut self, now: u64)
        requires
            old(self)@.wf(),
        ensures
            final(self)@ == popup_expired(old(self)@, now),
            final(self)@.wf(),
    {
        match self.play.volume_popup {
            Some(popup) => {
                if has_passed(now, popup.shown, 1800) {
                    self.play.volume_popup = None;
                    self.device.strip_dirty = true;
                }
            },
            None => {},
        }
    }

    /// The note that the diagnostics are fresh goes away in time.
    pub fn expire_diagnostics(&mut self, now: u64)
        requires
            old(self)@.wf(),
        ensures
            final(self)@ == diagnostics_expired(old(self)@, now),
            final(self)@.wf(),
    {
        match self.times.diagnostics {
            Some(since) => {
                if has_passed(now, since, 1500) {
                    self.times.diagnostics = None;
                    self.device.dirty = true;
                }
            },
            None => {},
        }
    }

    /// Whether the screen goes dark now.
    pub fn fall_asleep(&mut self, now: u64) -> (r: bool)
        requires
            old(self)@.wf(),
        ensures
            (final(self)@, r) == slept(old(self)@, now),
            final(self)@.wf(),
    {
        let due = match screen_sleep_timeout(self.device.sleep) {
            Some(ms) => has_passed(now, self.times.input, ms),
            None => false,
        };
        if !self.device.asleep && self.device.stage.is_none() && due {
            self.device.asleep = true;
            self.device.dirty = false;
            self.device.strip_dirty = false;
            true
        } else {
            false
        }
    }

    /// Whether to look at the jacks now.
    pub fn jack_is_due(&mut self, now: u64) -> (r: bool)
        requires
            old(self)@.wf(),
        ensures
            (final(self)@, r) == jack_due(old(self)@, now),
            final(self)@.wf(),
    {
        if has_passed(now, self.times.jack, 250) {
            self.times.jack = now;
            true
        } else {
            false
        }
    }

    /// The jacks have been looked at.
    pub fn poll_jack(&mut self, port: Option<u8>) -> (r: JackChange)
        requires
            old(self)@.wf(),
        ensures
            (final(self)@, r) == jack_polled(old(self)@, port),
            final(self)@.wf(),
    {
        let changed = match (port, self.play.port) {
            (Some(a), Some(b)) => a != b,
            (None, None) => false,
            _ => true,
        };
        if !changed {
            return JackChange { pause: false, port: None };
        }
        let pause = self.play.port.is_some();
        if pause && (self.play.state == PlaybackState::Unknown || self.play.state
            == PlaybackState::Loading || self.play.state == PlaybackState::Playing) {
            self.play.state = PlaybackState::Paused;
            self.device.dirty = true;
        }
        self.play.port = port;
        JackChange { pause, port }
    }

    /// What is to be drawn now.
    pub fn next_frame(&mut self, now: u64, keepalive_ms: u64) -> (r: Frame)
        requires
            old(self)@.wf(),
        ensures
            (final(self)@, r) == frame_due(old(self)@, now, keepalive_ms),
            final(self)@.wf(),
    {
        if self.nav.view == AppView::NowPlaying && self.device.strip_dirty {
            self.device.dirty = true;
            self.device.strip_dirty = false;
        }
        if self.device.asleep {
            return Frame::Nothing;
        }
        let frame = if self.device.dirty {
            Frame::Full
        } else if self.device.strip_dirty {
            Frame::Strip
        } else if now.saturating_sub(self.times.flush) / 1_000_000 >= keepalive_ms {
            Frame::Keepalive
        } else {
            return Frame::Nothing;
        };
        self.device.dirty = false;
        self.device.strip_dirty = false;
        self.times.flush = now;
        frame
    }
}

/// The offset of the page with the current track, if it is off the given one.
fn find_moved(page: &Option<QueuePage>) -> (r: Option<usize>)
    ensures
        r == match view_opt(*page) {
            Some(page) => if is_off(page) {
                Some(page_offset(page.current_position as int) as usize)
            } else {
                None
            },
            None => None,
        },
{
    match page {
        Some(page) => {
            let at: usize = page.current_position;
            assert(page@.items.len() == page.items.len());
            if at < page.start || at - page.start >= page.items.len() {
                Some(at / VISIBLE_ROWS * VISIBLE_ROWS)
            } else {
                None
            }
        },
        None => None,
    }
}

fn same_row(a: Option<usize>, b: Option<usize>) -> (r: bool)
    ensures
        r == (a == b),
{
    match (a, b) {
        (Some(a), Some(b)) => a == b,
        (None, None) => true,
        _ => false,
    }
}

fn same_amount(a: Option<u64>, b: Option<u64>) -> (r: bool)
    ensures
        r == (a == b),
{
    match (a, b) {
        (Some(a), Some(b)) => a == b,
        (None, None) => true,
        _ => false,
    }
}

} // verus!
