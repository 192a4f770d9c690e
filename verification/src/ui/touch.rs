//! What a touch does.
use crate::daemon::queue::{QueueSource, SourceView};
use crate::text::{append_number, chars, decimal, trim, trimmed, view_opt};
use crate::ui::labels::StartupStage;
use crate::ui::replies::{PageView, PlaybackState, VISIBLE_ROWS};
use crate::ui::settings::{Theme, CHOICES};
use crate::ui::state::{
    last_scroll, AppView, Device, Nav, PendingLoadCommand, PendingLoadView, PendingQueueSelection,
    PendingView, Playback, Times, Ui, UiView,
};
use vstd::prelude::*;
use vstd::string::*;

verus! {

/// Where the lists start below the header.
pub const LIST_TOP: i32 = 40;

/// The height of a row of a list.
pub const ROW_HEIGHT: i32 = 60;

/// Where the strip of the current track starts.
pub const STRIP_TOP: i32 = 580;

/// Where the progress bar of the strip can be touched.
pub const SEEK_TOP: i32 = 620;

/// Where the separator below the strip starts.
pub const SEPARATOR_TOP: i32 = 640;

/// Where the toolbar starts.
pub const TOOLBAR_TOP: i32 = 660;

/// How many characters a search can have.
pub const QUERY_LIMIT: usize = 48;

/// How far a list is scrolled at once: one row less than is visible.
pub const PAGE_STEP: usize = 8;

/// What is to be done about a touch.
pub enum Effect {
    Nothing,
    /// Leave the interface.
    Exit,
    /// Wake the panel, set the brightness and show the last picture.
    Wake,
    /// Try to bring up what is waited for.
    Recover(StartupStage),
    /// Set the brightness and keep it.
    SetBrightness,
    /// Send a command; the answer does not matter.
    Send(String),
    /// Ask for a page of the play order.
    AskPage(usize),
    /// Ask for the next track, or the one before.
    AskStep(bool),
    /// Ask for the first page of the play order, to open it.
    AskFirstPage,
    /// Search in the background.
    Search(String),
    /// Forget the search that runs.
    CancelSearch,
    KeepHistory,
    /// Ask for the liked songs anew, in the background.
    AskLibrary,
    AskPlaylists,
    /// Ask for the tracks of a playlist.
    AskPlaylist(String),
    AskModes,
    /// Ask for a change of the modes.
    AskSetMode(String),
    AskQueueStatus,
    /// Ask for the state and the place in the queue.
    AskRefresh,
    KeepTheme,
    KeepSleep,
}

pub enum EffectView {
    Nothing,
    Exit,
    Wake,
    Recover(StartupStage),
    SetBrightness,
    Send(Seq<char>),
    AskPage(usize),
    AskStep(bool),
    AskFirstPage,
    Search(Seq<char>),
    CancelSearch,
    KeepHistory,
    AskLibrary,
    AskPlaylists,
    AskPlaylist(Seq<char>),
    AskModes,
    AskSetMode(Seq<char>),
    AskQueueStatus,
    AskRefresh,
    KeepTheme,
    KeepSleep,
}

impl View for Effect {
    type V = EffectView;

    open spec fn view(&self) -> EffectView {
        match self {
            Effect::Nothing => EffectView::Nothing,
            Effect::Exit => EffectView::Exit,
            Effect::Wake => EffectView::Wake,
            Effect::Recover(stage) => EffectView::Recover(*stage),
            Effect::SetBrightness => EffectView::SetBrightness,
            Effect::Send(command) => EffectView::Send(command@),
            Effect::AskPage(offset) => EffectView::AskPage(*offset),
            Effect::AskStep(forward) => EffectView::AskStep(*forward),
            Effect::AskFirstPage => EffectView::AskFirstPage,
            Effect::Search(query) => EffectView::Search(query@),
            Effect::CancelSearch => EffectView::CancelSearch,
            Effect::KeepHistory => EffectView::KeepHistory,
            Effect::AskLibrary => EffectView::AskLibrary,
            Effect::AskPlaylists => EffectView::AskPlaylists,
            Effect::AskPlaylist(id) => EffectView::AskPlaylist(id@),
            Effect::AskModes => EffectView::AskModes,
            Effect::AskSetMode(command) => EffectView::AskSetMode(command@),
            Effect::AskQueueStatus => EffectView::AskQueueStatus,
            Effect::AskRefresh => EffectView::AskRefresh,
            Effect::KeepTheme => EffectView::KeepTheme,
            Effect::KeepSleep => EffectView::KeepSleep,
        }
    }
}

/// All is to be drawn anew.
pub open spec fn dirtied(u: UiView) -> UiView {
    UiView { device: Device { dirty: true, ..u.device }, ..u }
}

/// The exit button is not armed.
pub open spec fn disarmed(u: UiView) -> UiView {
    UiView { nav: Nav { exit_armed: false, ..u.nav }, ..u }
}

/// Another view, drawn anew.
pub open spec fn viewing(u: UiView, view: AppView) -> UiView {
    dirtied(UiView { nav: Nav { view, ..u.nav }, ..u })
}

/// A column within the screen.
pub open spec fn clamped(x: int) -> int {
    if x < 0 {
        0
    } else if x > 479 {
        479
    } else {
        x
    }
}

/// The row of a list that is `step` rows further down, or the last one that can be first.
pub open spec fn scrolled_down(scroll: int, step: int, last: int) -> int {
    if scroll + step < last {
        scroll + step
    } else {
        last
    }
}

/// The row of a list that is `step` rows further up, or the first one.
pub open spec fn scrolled_up(scroll: int, step: int) -> int {
    if scroll < step {
        0
    } else {
        scroll - step
    }
}

/// How a touch of the header scrolls a list: up, or down on its right part.
pub open spec fn scrolled(u: UiView, scroll: usize, len: nat) -> usize {
    (if u.device.x < 360 {
        scrolled_up(scroll as int, PAGE_STEP as int)
    } else {
        scrolled_down(scroll as int, PAGE_STEP as int, last_scroll(len))
    }) as usize
}

/// The offset of the page that a position of the play order is on.
pub open spec fn page_offset(position: int) -> int {
    position / (VISIBLE_ROWS as int) * VISIBLE_ROWS
}

/// The last page of a play order.
pub open spec fn last_offset(page: Option<PageView>) -> int {
    match page {
        Some(page) => if page.total > 0 {
            page_offset(page.total - 1)
        } else {
            0
        },
        None => 0,
    }
}

/// A touch of the header.
pub open spec fn header_touched(u: UiView) -> (UiView, EffectView) {
    let u = disarmed(u);
    match u.nav.view {
        AppView::Library => (
            dirtied(
                UiView {
                    nav: Nav { scroll: scrolled(u, u.nav.scroll, u.items.len()), ..u.nav },
                    ..u
                },
            ),
            EffectView::Nothing,
        ),
        AppView::Playlists => (
            dirtied(
                UiView {
                    nav: Nav {
                        playlist_scroll: scrolled(u, u.nav.playlist_scroll, u.playlists.len()),
                        ..u.nav
                    },
                    ..u
                },
            ),
            EffectView::Nothing,
        ),
        AppView::PlaylistTracks => (
            dirtied(
                UiView {
                    nav: Nav {
                        playlist_track_scroll: scrolled(
                            u,
                            u.nav.playlist_track_scroll,
                            u.playlist_tracks.len(),
                        ),
                        ..u.nav
                    },
                    ..u
                },
            ),
            EffectView::Nothing,
        ),
        AppView::SearchResults => (
            dirtied(
                UiView {
                    nav: Nav {
                        search_scroll: scrolled(u, u.nav.search_scroll, u.search_results.len()),
                        ..u.nav
                    },
                    ..u
                },
            ),
            EffectView::Nothing,
        ),
        AppView::UpNext => {
            let offset = (if u.device.x < 360 {
                scrolled_up(u.nav.up_next_offset as int, VISIBLE_ROWS as int)
            } else {
                scrolled_down(u.nav.up_next_offset as int, VISIBLE_ROWS as int, last_offset(u.page))
            }) as usize;
            (
                UiView { nav: Nav { up_next_offset: offset, ..u.nav }, ..u },
                EffectView::AskPage(offset),
            )
        },
        _ => (u, EffectView::Nothing),
    }
}

/// Where the button at the right of the toolbar leads.
pub open spec fn back(nav: Nav) -> AppView {
    match nav.view {
        AppView::Library => AppView::Menu,
        AppView::Playlists => AppView::Menu,
        AppView::PlaylistTracks => AppView::Playlists,
        AppView::SearchInput => AppView::Menu,
        AppView::SearchResults => AppView::SearchInput,
        AppView::SearchHistory => AppView::SearchInput,
        AppView::Menu => AppView::Library,
        AppView::Sound => AppView::Menu,
        AppView::UpNext => nav.up_next_return,
        AppView::NowPlaying => nav.now_playing_return,
        AppView::Appearance => AppView::Menu,
        AppView::Special => AppView::Appearance,
        AppView::Diagnostics => AppView::Menu,
        AppView::Settings => AppView::Menu,
    }
}

/// The command of the pause button.
pub open spec fn pause_command(state: PlaybackState) -> Seq<char> {
    if state == PlaybackState::Paused {
        "PLAY"@
    } else {
        "PAUSE"@
    }
}

/// A touch of the toolbar: exit, brightness, pause, and the fourth button. In the library
/// that one refreshes the liked songs and opens the menus meanwhile; anywhere else it is
/// the way back.
pub open spec fn toolbar_touched(u: UiView) -> (UiView, EffectView) {
    let button = clamped(u.device.x as int) / 120;
    if button == 0 {
        if u.nav.exit_armed {
            (u, EffectView::Exit)
        } else {
            (
                dirtied(UiView { nav: Nav { exit_armed: true, ..u.nav }, ..u }),
                EffectView::Nothing,
            )
        }
    } else if button == 1 {
        let brightness = ((u.device.brightness + 1) % CHOICES as int) as usize;
        (
            dirtied(disarmed(UiView { device: Device { brightness, ..u.device }, ..u })),
            EffectView::SetBrightness,
        )
    } else if button == 2 {
        (dirtied(disarmed(u)), EffectView::Send(pause_command(u.play.state)))
    } else {
        let u = disarmed(u);
        let cancelled = u.nav.view == AppView::SearchInput && u.nav.search_in_progress;
        let nav = Nav {
            view: back(u.nav),
            search_in_progress: u.nav.search_in_progress && !cancelled,
            ..u.nav
        };
        (
            dirtied(UiView { nav, ..u }),
            if cancelled {
                EffectView::CancelSearch
            } else if u.nav.view == AppView::Library {
                EffectView::AskLibrary
            } else {
                EffectView::Nothing
            },
        )
    }
}

/// The time that a touch of a progress bar stands for.
pub open spec fn sought(u: UiView, left: int, width: int) -> Option<u32> {
    match u.now_playing {
        Some(item) => if item.duration_ms > 0 {
            Some(((u.device.x - left) * item.duration_ms / width) as u32)
        } else {
            None
        },
        None => None,
    }
}

pub open spec fn seek_command(ms: u32) -> Seq<char> {
    "SEEK "@ + decimal(ms as nat)
}

/// A touch of the screen of the current track.
pub open spec fn big_view_touched(u: UiView) -> (UiView, EffectView) {
    let u = disarmed(u);
    let (x, y) = (u.device.x, u.device.y);
    if 275 <= y < 350 && 20 <= x <= 460 {
        match sought(u, 20, 440) {
            Some(ms) => (
                dirtied(UiView { play: Playback { position: Some(ms), ..u.play }, ..u }),
                EffectView::Send(seek_command(ms)),
            ),
            None => (u, EffectView::Nothing),
        }
    } else if 390 <= y < 490 {
        if x < 160 || x >= 320 {
            (u, EffectView::AskStep(x >= 320))
        } else {
            (dirtied(u), EffectView::Send(pause_command(u.play.state)))
        }
    } else if 520 <= y < 640 {
        (
            UiView { nav: Nav { up_next_return: AppView::NowPlaying, ..u.nav }, ..u },
            EffectView::AskFirstPage,
        )
    } else {
        (u, EffectView::Nothing)
    }
}

/// A touch of the strip of the current track.
pub open spec fn strip_touched(u: UiView) -> (UiView, EffectView) {
    let u = disarmed(u);
    let (x, y) = (u.device.x, u.device.y);
    if y < SEEK_TOP && u.now_playing is Some && (x < 80 || x >= 400) {
        (u, EffectView::AskStep(x >= 400))
    } else if y >= SEEK_TOP && 10 <= x <= 470 {
        match sought(u, 10, 460) {
            Some(ms) => (
                UiView {
                    play: Playback { position: Some(ms), ..u.play },
                    device: Device { strip_dirty: true, ..u.device },
                    ..u
                },
                EffectView::Send(seek_command(ms)),
            ),
            None => (u, EffectView::Nothing),
        }
    } else if y < SEEK_TOP && 80 <= x < 400 && u.now_playing is Some {
        (
            viewing(
                UiView { nav: Nav { now_playing_return: u.nav.view, ..u.nav }, ..u },
                AppView::NowPlaying,
            ),
            EffectView::Nothing,
        )
    } else {
        (u, EffectView::Nothing)
    }
}

/// The keys of a row of the keyboard.
pub open spec fn key_row(row: int) -> Seq<char> {
    if row == 0 {
        "QWERTYUIOP"@
    } else if row == 1 {
        "ASDFGHJKL"@
    } else {
        "ZXCVBNM"@
    }
}

/// Where a row of the keyboard starts: it stands in the middle, 48 pixels a key.
pub open spec fn key_left(row: int) -> int {
    (480 - key_row(row).len() * 48) / 2
}

/// The key at a point of the keyboard.
pub open spec fn key_at(x: int, y: int) -> Option<char> {
    let row = (y - 105) / 105;
    let column = (x - key_left(row)) / 48;
    if x >= key_left(row) && column < key_row(row).len() {
        Some(key_row(row)[column])
    } else {
        None
    }
}

/// A capital letter as the small one.
pub open spec fn small(c: char) -> char {
    if 'A' <= c <= 'Z' {
        (c as int + 32) as char
    } else {
        c
    }
}

/// A search starts.
pub open spec fn searching(u: UiView) -> UiView {
    dirtied(UiView { nav: Nav { search_in_progress: true, ..u.nav }, ..u })
}

/// A touch of one of the four buttons below the keyboard.
pub open spec fn search_button_touched(u: UiView) -> (UiView, EffectView) {
    let button = clamped(u.device.x as int) / 120;
    if button == 0 {
        if u.query.len() == 0 && u.recent.len() > 0 {
            (viewing(u, AppView::SearchHistory), EffectView::Nothing)
        } else {
            (dirtied(UiView { query: seq![], ..u }), EffectView::Nothing)
        }
    } else if button == 1 {
        if 0 < u.query.len() < QUERY_LIMIT && u.query.last() != ' ' {
            (dirtied(UiView { query: u.query.push(' '), ..u }), EffectView::Nothing)
        } else {
            (u, EffectView::Nothing)
        }
    } else if button == 2 {
        if u.query.len() > 0 {
            (dirtied(UiView { query: u.query.drop_last(), ..u }), EffectView::Nothing)
        } else {
            (dirtied(u), EffectView::Nothing)
        }
    } else if trimmed(u.query).len() > 0 {
        (searching(u), EffectView::Search(trimmed(u.query)))
    } else {
        (u, EffectView::Nothing)
    }
}

/// A touch of the search screen. While a search runs, none counts.
pub open spec fn keyboard_touched(u: UiView) -> (UiView, EffectView) {
    let u = disarmed(u);
    let (x, y) = (u.device.x, u.device.y);
    if u.nav.search_in_progress {
        (u, EffectView::Nothing)
    } else if 105 <= y < 407 {
        match key_at(x as int, y as int) {
            Some(key) => if u.query.len() < QUERY_LIMIT {
                (dirtied(UiView { query: u.query.push(small(key)), ..u }), EffectView::Nothing)
            } else {
                (u, EffectView::Nothing)
            },
            None => (u, EffectView::Nothing),
        }
    } else if 420 <= y < 540 {
        search_button_touched(u)
    } else {
        (u, EffectView::Nothing)
    }
}

/// The visible row at a point of a list.
pub open spec fn row_at(y: int) -> int {
    (y - LIST_TOP) / ROW_HEIGHT as int
}

/// A touch of the recent searches: one of them, or the row behind them that clears them.
pub open spec fn history_touched(u: UiView) -> (UiView, EffectView) {
    let u = disarmed(u);
    let row = row_at(u.device.y as int);
    if row < u.recent.len() {
        let query = u.recent[row];
        (
            searching(viewing(UiView { query, ..u }, AppView::SearchInput)),
            EffectView::Search(query),
        )
    } else if row == u.recent.len() && u.recent.len() > 0 {
        (viewing(UiView { recent: seq![], ..u }, AppView::SearchInput), EffectView::KeepHistory)
    } else {
        (u, EffectView::Nothing)
    }
}

/// The tile at a point of a menu.
pub open spec fn tile_at(x: int, y: int) -> int {
    (y - LIST_TOP) / 180 * 2 + clamped(x) / 240
}

/// A tile of the main menu.
pub open spec fn menu_touched(u: UiView, tile: int) -> (UiView, EffectView) {
    if tile == 0 {
        (viewing(u, AppView::SearchInput), EffectView::Nothing)
    } else if tile == 1 {
        (u, EffectView::AskModes)
    } else if tile == 2 {
        (u, EffectView::AskPlaylists)
    } else if tile == 3 {
        (viewing(u, AppView::Appearance), EffectView::Nothing)
    } else if tile == 4 {
        (viewing(u, AppView::Settings), EffectView::Nothing)
    } else {
        (u, EffectView::AskQueueStatus)
    }
}

/// A tile of the sound menu.
pub open spec fn sound_touched(u: UiView, tile: int) -> (UiView, EffectView) {
    if tile == 0 {
        (
            u,
            EffectView::AskSetMode(
                if u.play.modes.shuffle {
                    "SET_SHUFFLE OFF"@
                } else {
                    "SET_SHUFFLE ON"@
                },
            ),
        )
    } else if tile == 1 {
        (u, EffectView::AskSetMode("SET_REPEAT OFF"@))
    } else if tile == 2 {
        (u, EffectView::AskSetMode("SET_REPEAT ALL"@))
    } else if tile == 3 {
        (u, EffectView::AskSetMode("SET_REPEAT ONE"@))
    } else if tile == 4 {
        (
            UiView { nav: Nav { up_next_return: AppView::Sound, ..u.nav }, ..u },
            EffectView::AskFirstPage,
        )
    } else {
        (viewing(u, AppView::Menu), EffectView::Nothing)
    }
}

/// The theme on a tile of the first page of themes.
pub open spec fn theme_on(tile: int) -> Theme {
    if tile == 0 {
        Theme::ElKayKay
    } else if tile == 1 {
        Theme::Tidepool
    } else if tile == 2 {
        Theme::CitrusGrove
    } else if tile == 3 {
        Theme::MonochromeStatic
    } else {
        Theme::PaperLantern
    }
}

/// The theme on a tile of the second page of themes.
pub open spec fn special_theme_on(tile: int) -> Theme {
    if tile == 0 {
        Theme::DurandalTerminal
    } else if tile == 1 {
        Theme::ArcadeBloom
    } else if tile == 2 {
        Theme::DesertBloom
    } else if tile == 3 {
        Theme::AlNoor
    } else {
        Theme::NightMarket
    }
}

/// Another theme.
pub open spec fn themed(u: UiView, theme: Theme) -> (UiView, EffectView) {
    (dirtied(UiView { device: Device { theme, ..u.device }, ..u }), EffectView::KeepTheme)
}

/// A tile of the settings.
pub open spec fn settings_touched(u: UiView, tile: int, now: u64) -> (UiView, EffectView) {
    if tile == 5 {
        (viewing(u, AppView::Menu), EffectView::Nothing)
    } else {
        (
            dirtied(
                UiView {
                    device: Device { sleep: tile as usize, ..u.device },
                    times: Times { input: now, ..u.times },
                    ..u
                },
            ),
            EffectView::KeepSleep,
        )
    }
}

/// A touch of a menu.
pub open spec fn tile_touched(u: UiView, now: u64) -> (UiView, EffectView) {
    let u = disarmed(u);
    let tile = tile_at(u.device.x as int, u.device.y as int);
    match u.nav.view {
        AppView::Menu => menu_touched(u, tile),
        AppView::Sound => sound_touched(u, tile),
        AppView::Appearance => if tile == 5 {
            (viewing(u, AppView::Special), EffectView::Nothing)
        } else {
            themed(u, theme_on(tile))
        },
        AppView::Special => if tile == 5 {
            (viewing(u, AppView::Appearance), EffectView::Nothing)
        } else {
            themed(u, special_theme_on(tile))
        },
        AppView::Diagnostics => if tile == 5 {
            (u, EffectView::AskRefresh)
        } else {
            (u, EffectView::Nothing)
        },
        _ => settings_touched(u, tile, now),
    }
}

/// A number of 64 bits that has run over.
pub open spec fn following(request: u64) -> u64 {
    if request == u64::MAX {
        0
    } else {
        (request + 1) as u64
    }
}

/// The command that loads a track from a list.
pub open spec fn load_command(source: SourceView, request_id: u64, track_id: Seq<char>) -> Seq<char> {
    let number = decimal(request_id as nat);
    match source {
        SourceView::Liked => "LOAD_LIKED "@ + number + " "@ + track_id,
        SourceView::Playlist(id) => "LOAD_PLAYLIST "@ + number + " "@ + id + " "@ + track_id,
        SourceView::Search => "LOAD_SEARCH "@ + number + " "@ + track_id,
    }
}

/// A track was tapped: it is to be loaded under the next number. A load that still waits
/// gives way.
pub open spec fn load_pending(u: UiView, source: SourceView, track_id: Seq<char>, now: u64) -> UiView {
    let request_id = u.play.next_request;
    UiView {
        pending_selection: Some(PendingView { source, track_id, request_id, started: now }),
        pending_load: Some(
            PendingLoadView {
                request_id,
                command: load_command(source, request_id, track_id),
                started: now,
            },
        ),
        play: Playback { next_request: following(request_id), ..u.play },
        ..u
    }
}

/// A touch of the search results.
pub open spec fn result_touched(u: UiView, now: u64) -> (UiView, EffectView) {
    let index = u.nav.search_scroll + row_at(u.device.y as int);
    if index < u.search_results.len() {
        let id = u.search_results[index].id;
        let u = dirtied(
            UiView {
                nav: Nav { search_selected: Some(index as usize), exit_armed: false, ..u.nav },
                ..u
            },
        );
        if id.len() > 0 {
            let nav = Nav { selected: None, playlist_track_selected: None, ..u.nav };
            (load_pending(UiView { nav, ..u }, SourceView::Search, id, now), EffectView::Nothing)
        } else {
            (u, EffectView::Nothing)
        }
    } else {
        (u, EffectView::Nothing)
    }
}

/// A touch of the playlists.
pub open spec fn playlist_touched(u: UiView) -> (UiView, EffectView) {
    let index = u.nav.playlist_scroll + row_at(u.device.y as int);
    if index < u.playlists.len() {
        let id = u.playlists[index].id;
        let u = dirtied(
            UiView {
                nav: Nav { playlist_selected: Some(index as usize), exit_armed: false, ..u.nav },
                ..u
            },
        );
        if id.len() > 0 {
            (u, EffectView::AskPlaylist(id))
        } else {
            (u, EffectView::Nothing)
        }
    } else {
        (u, EffectView::Nothing)
    }
}

/// The id of the playlist that is shown.
pub open spec fn shown_playlist_id(u: UiView) -> Option<Seq<char>> {
    match u.nav.playlist_selected {
        Some(index) => if index < u.playlists.len() {
            Some(u.playlists[index as int].id)
        } else {
            None
        },
        None => None,
    }
}

/// A touch of the tracks of a playlist.
pub open spec fn playlist_track_touched(u: UiView, now: u64) -> (UiView, EffectView) {
    let index = u.nav.playlist_track_scroll + row_at(u.device.y as int);
    if index < u.playlist_tracks.len() {
        let id = u.playlist_tracks[index].id;
        let u = dirtied(
            UiView {
                nav: Nav {
                    playlist_track_selected: Some(index as usize),
                    exit_armed: false,
                    ..u.nav
                },
                ..u
            },
        );
        match shown_playlist_id(u) {
            Some(playlist) => if id.len() > 0 {
                let nav = Nav { selected: None, ..u.nav };
                (
                    load_pending(UiView { nav, ..u }, SourceView::Playlist(playlist), id, now),
                    EffectView::Nothing,
                )
            } else {
                (u, EffectView::Nothing)
            },
            None => (u, EffectView::Nothing),
        }
    } else {
        (u, EffectView::Nothing)
    }
}

/// A touch of the liked songs.
pub open spec fn liked_touched(u: UiView, now: u64) -> (UiView, EffectView) {
    let index = u.nav.scroll + row_at(u.device.y as int);
    if index < u.items.len() {
        let id = u.items[index].id;
        let u = dirtied(
            UiView {
                nav: Nav { selected: Some(index as usize), exit_armed: false, ..u.nav },
                ..u
            },
        );
        if id.len() > 0 {
            let nav = Nav { playlist_track_selected: None, ..u.nav };
            (load_pending(UiView { nav, ..u }, SourceView::Liked, id, now), EffectView::Nothing)
        } else {
            (u, EffectView::Nothing)
        }
    } else {
        (u, EffectView::Nothing)
    }
}

/// The time from which a retry of the library counts as due.
pub open spec fn three_seconds_before(now: u64) -> u64 {
    if now >= 3_000_000_000 {
        (now - 3_000_000_000) as u64
    } else {
        now
    }
}

/// The retry button of the start screen.
pub open spec fn retry_touched(u: UiView, stage: StartupStage, now: u64) -> (UiView, EffectView) {
    let liked_retry = if stage == StartupStage::Library {
        three_seconds_before(now)
    } else {
        u.times.liked_retry
    };
    (
        dirtied(
            UiView {
                times: Times { liked_retry, stage_start: now, retry: Some(now), ..u.times },
                ..u
            },
        ),
        EffectView::Recover(stage),
    )
}

/// The part of the screen above the strip, below the header.
pub open spec fn content_touched(u: UiView, now: u64) -> (UiView, EffectView) {
    match u.nav.view {
        AppView::SearchInput => keyboard_touched(u),
        AppView::SearchHistory => history_touched(u),
        AppView::Menu | AppView::Sound | AppView::Appearance | AppView::Special
        | AppView::Diagnostics | AppView::Settings => tile_touched(u, now),
        AppView::SearchResults => result_touched(u, now),
        AppView::Playlists => playlist_touched(u),
        AppView::PlaylistTracks => playlist_track_touched(u, now),
        _ => liked_touched(u, now),
    }
}

/// A touch at the point where the finger is. While the screen sleeps it only wakes it.
pub open spec fn touched(u: UiView, now: u64) -> (UiView, EffectView) {
    let y = u.device.y;
    if u.device.asleep {
        (
            UiView {
                device: Device { asleep: false, touching: false, ..u.device },
                times: Times { input: now, flush: now, ..u.times },
                ..u
            },
            EffectView::Wake,
        )
    } else {
        let u = UiView {
            device: Device { touching: false, ..u.device },
            times: Times { input: now, ..u.times },
            ..u
        };
        if u.device.stage is Some && 435 <= y < 535 {
            retry_touched(u, u.device.stage->0, now)
        } else if y < LIST_TOP {
            header_touched(u)
        } else if y >= TOOLBAR_TOP {
            toolbar_touched(u)
        } else if u.nav.view == AppView::NowPlaying {
            big_view_touched(u)
        } else if y >= SEPARATOR_TOP {
            (disarmed(u), EffectView::Nothing)
        } else if y >= STRIP_TOP {
            strip_touched(u)
        } else {
            content_touched(u, now)
        }
    }
}

fn clamp(x: i32) -> (r: i32)
    ensures
        r == clamped(x as int),
        0 <= r <= 479,
{
    if x < 0 {
        0
    } else if x > 479 {
        479
    } else {
        x
    }
}

fn scroll_up(scroll: usize, step: usize) -> (r: usize)
    ensures
        r == scrolled_up(scroll as int, step as int),
        r <= scroll,
{
    if scroll < step {
        0
    } else {
        scroll - step
    }
}

fn scroll_down(scroll: usize, step: usize, last: usize) -> (r: usize)
    ensures
        r == scrolled_down(scroll as int, step as int, last as int),
        r <= last,
{
    if scroll < last && step < last - scroll {
        scroll + step
    } else {
        last
    }
}

fn end_scroll(len: usize) -> (r: usize)
    ensures
        r == last_scroll(len as nat),
{
    if len <= VISIBLE_ROWS {
        0
    } else {
        len - VISIBLE_ROWS
    }
}

fn seek_to(ms: u32) -> (r: Effect)
    ensures
        r@ == EffectView::Send(seek_command(ms)),
{
    let mut command = "SEEK ".to_owned();
    append_number(&mut command, ms as u64);
    Effect::Send(command)
}

impl PlaybackState {
    /// The command of the pause button.
    fn pause_command(self) -> (r: String)
        ensures
            r@ == pause_command(self),
    {
        if self.is_paused() {
            "PLAY".to_owned()
        } else {
            "PAUSE".to_owned()
        }
    }
}

/// The keys of a row of the keyboard.
pub fn keys_of(row: usize) -> (r: &'static str)
    ensures
        r@ == key_row(row as int),
        r@.len() == if row == 0 {
            10int
        } else if row == 1 {
            9
        } else {
            7
        },
{
    proof {
        reveal_strlit("QWERTYUIOP");
        reveal_strlit("ASDFGHJKL");
        reveal_strlit("ZXCVBNM");
    }
    if row == 0 {
        "QWERTYUIOP"
    } else if row == 1 {
        "ASDFGHJKL"
    } else {
        "ZXCVBNM"
    }
}

fn find_key(x: i32, y: i32) -> (r: Option<char>)
    requires
        105 <= y < 407,
    ensures
        r == key_at(x as int, y as int),
{
    let row: usize = ((y - 105) / 105) as usize;
    let keys = chars(keys_of(row));
    let left: i32 = (480 - keys.len() as i32 * 48) / 2;
    if x < left {
        return None;
    }
    let column: usize = ((x - left) / 48) as usize;
    if column < keys.len() {
        Some(keys[column])
    } else {
        None
    }
}

fn small_letter(c: char) -> (r: char)
    ensures
        r == small(c),
{
    if 'A' <= c && c <= 'Z' {
        let n: u8 = c as u8;
        (n + 32) as char
    } else {
        c
    }
}

fn find_row(y: i32) -> (r: usize)
    requires
        LIST_TOP <= y < STRIP_TOP,
    ensures
        r == row_at(y as int),
        r <= 8,
{
    ((y - LIST_TOP) / ROW_HEIGHT) as usize
}

fn find_tile(x: i32, y: i32) -> (r: usize)
    requires
        LIST_TOP <= y < STRIP_TOP,
    ensures
        r == tile_at(x as int, y as int),
        r < 6,
{
    ((y - LIST_TOP) / 180) as usize * 2 + (clamp(x) / 240) as usize
}

/// The theme on a tile of the first page of themes.
pub fn find_theme(tile: usize) -> (r: Theme)
    ensures
        r == theme_on(tile as int),
{
    if tile == 0 {
        Theme::ElKayKay
    } else if tile == 1 {
        Theme::Tidepool
    } else if tile == 2 {
        Theme::CitrusGrove
    } else if tile == 3 {
        Theme::MonochromeStatic
    } else {
        Theme::PaperLantern
    }
}

/// The theme on a tile of the second page of themes.
pub fn find_special_theme(tile: usize) -> (r: Theme)
    ensures
        r == special_theme_on(tile as int),
{
    if tile == 0 {
        Theme::DurandalTerminal
    } else if tile == 1 {
        Theme::ArcadeBloom
    } else if tile == 2 {
        Theme::DesertBloom
    } else if tile == 3 {
        Theme::AlNoor
    } else {
        Theme::NightMarket
    }
}

/// The command that loads a track from a list.
fn write_load_command(source: &QueueSource, request_id: u64, track_id: &str) -> (r: String)
    ensures
        r@ == load_command(source@, request_id, track_id@),
{
    let mut command: String;
    match source {
        QueueSource::Liked => {
            command = "LOAD_LIKED ".to_owned();
            append_number(&mut command, request_id);
        },
        QueueSource::Playlist(id) => {
            command = "LOAD_PLAYLIST ".to_owned();
            append_number(&mut command, request_id);
            command.append(" ");
            command.append(id.as_str());
        },
        QueueSource::Search => {
            command = "LOAD_SEARCH ".to_owned();
            append_number(&mut command, request_id);
        },
    }
    command.append(" ");
    command.append(track_id);
    command
}

impl Ui {
    fn scroll_list(&self, scroll: usize, len: usize) -> (r: usize)
        requires
            scroll <= last_scroll(len as nat),
        ensures
            r == scrolled(self@, scroll, len as nat),
            r <= last_scroll(len as nat),
    {
        if self.device.x < 360 {
            scroll_up(scroll, PAGE_STEP)
        } else {
            scroll_down(scroll, PAGE_STEP, end_scroll(len))
        }
    }

    fn touch_header(&mut self) -> (r: Effect)
        requires
            old(self)@.wf(),
        ensures
            (final(self)@, r@) == header_touched(old(self)@),
            final(self)@.wf(),
    {
        self.nav.exit_armed = false;
        match self.nav.view {
            AppView::Library => {
                self.nav.scroll = self.scroll_list(self.nav.scroll, self.items.len());
                self.device.dirty = true;
                Effect::Nothing
            },
            AppView::Playlists => {
                self.nav.playlist_scroll = self.scroll_list(
                    self.nav.playlist_scroll,
                    self.playlists.len(),
                );
                self.device.dirty = true;
                Effect::Nothing
            },
            AppView::PlaylistTracks => {
                self.nav.playlist_track_scroll = self.scroll_list(
                    self.nav.playlist_track_scroll,
                    self.playlist_tracks.len(),
                );
                self.device.dirty = true;
                Effect::Nothing
            },
            AppView::SearchResults => {
                self.nav.search_scroll = self.scroll_list(
                    self.nav.search_scroll,
                    self.search_results.len(),
                );
                self.device.dirty = true;
                Effect::Nothing
            },
            AppView::UpNext => {
                let offset: usize = if self.device.x < 360 {
                    scroll_up(self.nav.up_next_offset, VISIBLE_ROWS)
                } else {
                    let last: usize = match &self.page {
                        Some(page) => {
                            if page.total > 0 {
                                (page.total - 1) / VISIBLE_ROWS * VISIBLE_ROWS
                            } else {
                                0
                            }
                        },
                        None => 0,
                    };
                    scroll_down(self.nav.up_next_offset, VISIBLE_ROWS, last)
                };
                self.nav.up_next_offset = offset;
                Effect::AskPage(offset)
            },
            _ => Effect::Nothing,
        }
    }

    fn way_back(&self) -> (r: AppView)
        ensures
            r == back(self@.nav),
    {
        match self.nav.view {
            AppView::Library => AppView::Menu,
            AppView::Playlists => AppView::Menu,
            AppView::PlaylistTracks => AppView::Playlists,
            AppView::SearchInput => AppView::Menu,
            AppView::SearchResults => AppView::SearchInput,
            AppView::SearchHistory => AppView::SearchInput,
            AppView::Menu => AppView::Library,
            AppView::Sound => AppView::Menu,
            AppView::UpNext => self.nav.up_next_return,
            AppView::NowPlaying => self.nav.now_playing_return,
            AppView::Appearance => AppView::Menu,
            AppView::Special => AppView::Appearance,
            AppView::Diagnostics => AppView::Menu,
            AppView::Settings => AppView::Menu,
        }
    }

    fn touch_toolbar(&mut self) -> (r: Effect)
        requires
            old(self)@.wf(),
        ensures
            (final(self)@, r@) == toolbar_touched(old(self)@),
            final(self)@.wf(),
    {
        let button: i32 = clamp(self.device.x) / 120;
        if button == 0 {
            if self.nav.exit_armed {
                return Effect::Exit;
            }
            self.nav.exit_armed = true;
            self.device.dirty = true;
            return Effect::Nothing;
        }
        self.nav.exit_armed = false;
        self.device.dirty = true;
        if button == 1 {
            self.device.brightness = (self.device.brightness + 1) % CHOICES;
            Effect::SetBrightness
        } else if button == 2 {
            Effect::Send(self.play.state.pause_command())
        } else {
            let refreshed = self.nav.view == AppView::Library;
            let cancelled = self.nav.view == AppView::SearchInput && self.nav.search_in_progress;
            if cancelled {
                self.nav.search_in_progress = false;
            }
            self.nav.view = self.way_back();
            if cancelled {
                Effect::CancelSearch
            } else if refreshed {
                Effect::AskLibrary
            } else {
                Effect::Nothing
            }
        }
    }

    fn find_time(&self, left: i32, width: i32) -> (r: Option<u32>)
        requires
            0 <= left <= self.device.x,
            self.device.x - left <= width,
            0 < width <= 480,
        ensures
            r == sought(self@, left as int, width as int),
    {
        match &self.now_playing {
            Some(item) => {
                let duration: u32 = item.duration_ms;
                if duration > 0 {
                    let offset: u64 = (self.device.x - left) as u64;
                    proof {
                        assert(0 <= offset * duration <= 480 * 0xffff_ffff) by (nonlinear_arith)
                            requires
                                0 <= offset <= 480,
                                0 <= duration <= 0xffff_ffff,
                        ;
                        assert((offset * duration) / (width as int) <= duration) by (nonlinear_arith)
                            requires
                                0 <= offset <= width,
                                0 < width,
                                0 <= duration,
                        ;
                        assert((offset * duration) / (width as int) >= 0) by (nonlinear_arith)
                            requires
                                0 <= offset <= width,
                                0 < width,
                                0 <= duration,
                        ;
                    }
                    Some((offset * duration as u64 / width as u64) as u32)
                } else {
                    None
                }
            },
            None => None,
        }
    }

    fn touch_big_view(&mut self) -> (r: Effect)
        requires
            old(self)@.wf(),
        ensures
            (final(self)@, r@) == big_view_touched(old(self)@),
            final(self)@.wf(),
    {
        self.nav.exit_armed = false;
        let x: i32 = self.device.x;
        let y: i32 = self.device.y;
        if 275 <= y && y < 350 && 20 <= x && x <= 460 {
            match self.find_time(20, 440) {
                Some(ms) => {
                    self.play.position = Some(ms);
                    self.device.dirty = true;
                    seek_to(ms)
                },
                None => Effect::Nothing,
            }
        } else if 390 <= y && y < 490 {
            if x < 160 || x >= 320 {
                Effect::AskStep(x >= 320)
            } else {
                self.device.dirty = true;
                Effect::Send(self.play.state.pause_command())
            }
        } else if 520 <= y && y < 640 {
            self.nav.up_next_return = AppView::NowPlaying;
            Effect::AskFirstPage
        } else {
            Effect::Nothing
        }
    }

    fn touch_strip(&mut self) -> (r: Effect)
        requires
            old(self)@.wf(),
        ensures
            (final(self)@, r@) == strip_touched(old(self)@),
            final(self)@.wf(),
    {
        self.nav.exit_armed = false;
        let x: i32 = self.device.x;
        let y: i32 = self.device.y;
        let loaded = self.now_playing.is_some();
        if y < SEEK_TOP && loaded && (x < 80 || x >= 400) {
            Effect::AskStep(x >= 400)
        } else if y >= SEEK_TOP && 10 <= x && x <= 470 {
            match self.find_time(10, 460) {
                Some(ms) => {
                    self.play.position = Some(ms);
                    self.device.strip_dirty = true;
                    seek_to(ms)
                },
                None => Effect::Nothing,
            }
        } else if y < SEEK_TOP && 80 <= x && x < 400 && loaded {
            self.nav.now_playing_return = self.nav.view;
            self.nav.view = AppView::NowPlaying;
            self.device.dirty = true;
            Effect::Nothing
        } else {
            Effect::Nothing
        }
    }

    fn touch_search_button(&mut self) -> (r: Effect)
        requires
            old(self)@.wf(),
        ensures
            (final(self)@, r@) == search_button_touched(old(self)@),
            final(self)@.wf(),
    {
        let button: i32 = clamp(self.device.x) / 120;
        let len: usize = self.query.as_str().unicode_len();
        if button == 0 {
            if len == 0 && self.recent.len() > 0 {
                self.nav.view = AppView::SearchHistory;
            } else {
                self.query = String::new();
                assert(self.query@ =~= seq![]);
            }
            self.device.dirty = true;
            Effect::Nothing
        } else if button == 1 {
            if 0 < len && len < QUERY_LIMIT && self.query.as_str().get_char(len - 1) != ' ' {
                self.query.push(' ');
                self.device.dirty = true;
            }
            Effect::Nothing
        } else if button == 2 {
            if len > 0 {
                self.query = self.query.as_str().substring_char(0, len - 1).to_owned();
                assert(self.query@ =~= old(self)@.query.drop_last());
            }
            self.device.dirty = true;
            Effect::Nothing
        } else {
            let query = trim(self.query.as_str()).to_owned();
            if query.as_str().is_empty() {
                Effect::Nothing
            } else {
                self.nav.search_in_progress = true;
                self.device.dirty = true;
                Effect::Search(query)
            }
        }
    }

    fn touch_keyboard(&mut self) -> (r: Effect)
        requires
            old(self)@.wf(),
        ensures
            (final(self)@, r@) == keyboard_touched(old(self)@),
            final(self)@.wf(),
    {
        self.nav.exit_armed = false;
        let x: i32 = self.device.x;
        let y: i32 = self.device.y;
        if self.nav.search_in_progress {
            Effect::Nothing
        } else if 105 <= y && y < 407 {
            match find_key(x, y) {
                Some(key) => {
                    if self.query.as_str().unicode_len() < QUERY_LIMIT {
                        self.query.push(small_letter(key));
                        self.device.dirty = true;
                    }
                },
                None => {},
            }
            Effect::Nothing
        } else if 420 <= y && y < 540 {
            self.touch_search_button()
        } else {
            Effect::Nothing
        }
    }

    fn touch_history(&mut self) -> (r: Effect)
        requires
            old(self)@.wf(),
            LIST_TOP <= old(self).device.y < STRIP_TOP,
        ensures
            (final(self)@, r@) == history_touched(old(self)@),
            final(self)@.wf(),
    {
        self.nav.exit_armed = false;
        let row: usize = find_row(self.device.y);
        if row < self.recent.len() {
            assert(self@.recent[row as int] == self.recent@[row as int]@);
            let query = self.recent[row].clone();
            self.query = query.clone();
            self.nav.search_in_progress = true;
            self.nav.view = AppView::SearchInput;
            self.device.dirty = true;
            Effect::Search(query)
        } else if row == self.recent.len() && self.recent.len() > 0 {
            self.recent = Vec::new();
            assert(self@.recent =~= seq![]);
            self.nav.view = AppView::SearchInput;
            self.device.dirty = true;
            Effect::KeepHistory
        } else {
            Effect::Nothing
        }
    }

    fn show(&mut self, view: AppView) -> (r: Effect)
        requires
            old(self)@.wf(),
        ensures
            (final(self)@, r@) == (viewing(old(self)@, view), EffectView::Nothing),
            final(self)@.wf(),
    {
        self.nav.view = view;
        self.device.dirty = true;
        Effect::Nothing
    }

    fn touch_menu(&mut self, tile: usize) -> (r: Effect)
        requires
            old(self)@.wf(),
        ensures
            (final(self)@, r@) == menu_touched(old(self)@, tile as int),
            final(self)@.wf(),
    {
        if tile == 0 {
            self.show(AppView::SearchInput)
        } else if tile == 1 {
            Effect::AskModes
        } else if tile == 2 {
            Effect::AskPlaylists
        } else if tile == 3 {
            self.show(AppView::Appearance)
        } else if tile == 4 {
            self.show(AppView::Settings)
        } else {
            Effect::AskQueueStatus
        }
    }

    fn touch_sound(&mut self, tile: usize) -> (r: Effect)
        requires
            old(self)@.wf(),
        ensures
            (final(self)@, r@) == sound_touched(old(self)@, tile as int),
            final(self)@.wf(),
    {
        if tile == 0 {
            if self.play.modes.shuffle {
                Effect::AskSetMode("SET_SHUFFLE OFF".to_owned())
            } else {
                Effect::AskSetMode("SET_SHUFFLE ON".to_owned())
            }
        } else if tile == 1 {
            Effect::AskSetMode("SET_REPEAT OFF".to_owned())
        } else if tile == 2 {
            Effect::AskSetMode("SET_REPEAT ALL".to_owned())
        } else if tile == 3 {
            Effect::AskSetMode("SET_REPEAT ONE".to_owned())
        } else if tile == 4 {
            self.nav.up_next_return = AppView::Sound;
            Effect::AskFirstPage
        } else {
            self.show(AppView::Menu)
        }
    }

    fn set_theme(&mut self, theme: Theme) -> (r: Effect)
        requires
            old(self)@.wf(),
        ensures
            (final(self)@, r@) == themed(old(self)@, theme),
            final(self)@.wf(),
    {
        self.device.theme = theme;
        self.device.dirty = true;
        Effect::KeepTheme
    }

    fn touch_settings(&mut self, tile: usize, now: u64) -> (r: Effect)
        requires
            old(self)@.wf(),
            tile < 6,
        ensures
            (final(self)@, r@) == settings_touched(old(self)@, tile as int, now),
            final(self)@.wf(),
    {
        if tile == 5 {
            self.show(AppView::Menu)
        } else {
            self.device.sleep = tile;
            self.times.input = now;
            self.device.dirty = true;
            Effect::KeepSleep
        }
    }

    fn touch_tile(&mut self, now: u64) -> (r: Effect)
        requires
            old(self)@.wf(),
            LIST_TOP <= old(self).device.y < STRIP_TOP,
        ensures
            (final(self)@, r@) == tile_touched(old(self)@, now),
            final(self)@.wf(),
    {
        self.nav.exit_armed = false;
        let tile: usize = find_tile(self.device.x, self.device.y);
        match self.nav.view {
            AppView::Menu => self.touch_menu(tile),
            AppView::Sound => self.touch_sound(tile),
            AppView::Appearance => {
                if tile == 5 {
                    self.show(AppView::Special)
                } else {
                    self.set_theme(find_theme(tile))
                }
            },
            AppView::Special => {
                if tile == 5 {
                    self.show(AppView::Appearance)
                } else {
                    self.set_theme(find_special_theme(tile))
                }
            },
            AppView::Diagnostics => {
                if tile == 5 {
                    Effect::AskRefresh
                } else {
                    Effect::Nothing
                }
            },
            _ => self.touch_settings(tile, now),
        }
    }

    fn load_later(&mut self, source: QueueSource, track_id: String, now: u64)
        requires
            old(self)@.wf(),
        ensures
            final(self)@ == load_pending(old(self)@, source@, track_id@, now),
            final(self)@.wf(),
    {
        let request_id: u64 = self.play.next_request;
        self.play.next_request = if request_id == u64::MAX { 0 } else { request_id + 1 };
        let command = write_load_command(&source, request_id, track_id.as_str());
        self.pending_selection = Some(
            PendingQueueSelection { source, track_id, request_id, started: now },
        );
        self.pending_load = Some(PendingLoadCommand { request_id, command, started: now });
    }

    fn touch_result(&mut self, now: u64)
        requires
            old(self)@.wf(),
            LIST_TOP <= old(self).device.y < STRIP_TOP,
        ensures
            (final(self)@, EffectView::Nothing) == result_touched(old(self)@, now),
            final(self)@.wf(),
    {
        let row: usize = find_row(self.device.y);
        if self.nav.search_scroll < self.search_results.len() && row < self.search_results.len()
            - self.nav.search_scroll {
            let index: usize = self.nav.search_scroll + row;
            assert(self@.search_results[index as int] == self.search_results@[index as int]@);
            let id = self.search_results[index].id.clone();
            self.nav.search_selected = Some(index);
            self.nav.exit_armed = false;
            self.device.dirty = true;
            if !id.as_str().is_empty() {
                self.nav.selected = None;
                self.nav.playlist_track_selected = None;
                self.load_later(QueueSource::Search, id, now);
            }
        }
    }

    fn touch_playlist(&mut self) -> (r: Effect)
        requires
            old(self)@.wf(),
            LIST_TOP <= old(self).device.y < STRIP_TOP,
        ensures
            (final(self)@, r@) == playlist_touched(old(self)@),
            final(self)@.wf(),
    {
        let row: usize = find_row(self.device.y);
        if self.nav.playlist_scroll < self.playlists.len() && row < self.playlists.len()
            - self.nav.playlist_scroll {
            let index: usize = self.nav.playlist_scroll + row;
            assert(self@.playlists[index as int] == self.playlists@[index as int]@);
            let id = self.playlists[index].id.clone();
            self.nav.playlist_selected = Some(index);
            self.nav.exit_armed = false;
            self.device.dirty = true;
            if !id.as_str().is_empty() {
                return Effect::AskPlaylist(id);
            }
        }
        Effect::Nothing
    }

    /// The id of the playlist that is shown.
    pub fn shown_playlist_id(&self) -> (r: Option<String>)
        ensures
            view_opt(r) == shown_playlist_id(self@),
    {
        match self.nav.playlist_selected {
            Some(index) => {
                if index < self.playlists.len() {
                    assert(self@.playlists[index as int] == self.playlists@[index as int]@);
                    Some(self.playlists[index].id.clone())
                } else {
                    None
                }
            },
            None => None,
        }
    }

    fn touch_playlist_track(&mut self, now: u64)
        requires
            old(self)@.wf(),
            LIST_TOP <= old(self).device.y < STRIP_TOP,
        ensures
            (final(self)@, EffectView::Nothing) == playlist_track_touched(old(self)@, now),
            final(self)@.wf(),
    {
        let row: usize = find_row(self.device.y);
        if self.nav.playlist_track_scroll < self.playlist_tracks.len() && row
            < self.playlist_tracks.len() - self.nav.playlist_track_scroll {
            let index: usize = self.nav.playlist_track_scroll + row;
            assert(self@.playlist_tracks[index as int] == self.playlist_tracks@[index as int]@);
            let id = self.playlist_tracks[index].id.clone();
            self.nav.playlist_track_selected = Some(index);
            self.nav.exit_armed = false;
            self.device.dirty = true;
            match self.shown_playlist_id() {
                Some(playlist) => {
                    if !id.as_str().is_empty() {
                        self.nav.selected = None;
                        self.load_later(QueueSource::Playlist(playlist), id, now);
                    }
                },
                None => {},
            }
        }
    }

    fn touch_liked(&mut self, now: u64)
        requires
            old(self)@.wf(),
            LIST_TOP <= old(self).device.y < STRIP_TOP,
        ensures
            (final(self)@, EffectView::Nothing) == liked_touched(old(self)@, now),
            final(self)@.wf(),
    {
        let row: usize = find_row(self.device.y);
        if self.nav.scroll < self.items.len() && row < self.items.len() - self.nav.scroll {
            let index: usize = self.nav.scroll + row;
            assert(self@.items[index as int] == self.items@[index as int]@);
            let id = self.items[index].id.clone();
            self.nav.selected = Some(index);
            self.nav.exit_armed = false;
            self.device.dirty = true;
            if !id.as_str().is_empty() {
                self.nav.playlist_track_selected = None;
                self.load_later(QueueSource::Liked, id, now);
            }
        }
    }

    fn touch_content(&mut self, now: u64) -> (r: Effect)
        requires
            old(self)@.wf(),
            LIST_TOP <= old(self).device.y < STRIP_TOP,
        ensures
            (final(self)@, r@) == content_touched(old(self)@, now),
            final(self)@.wf(),
    {
        match self.nav.view {
            AppView::SearchInput => self.touch_keyboard(),
            AppView::SearchHistory => self.touch_history(),
            AppView::Menu | AppView::Sound | AppView::Appearance | AppView::Special
            | AppView::Diagnostics | AppView::Settings => self.touch_tile(now),
            AppView::SearchResults => {
                self.touch_result(now);
                Effect::Nothing
            },
            AppView::Playlists => self.touch_playlist(),
            AppView::PlaylistTracks => {
                self.touch_playlist_track(now);
                Effect::Nothing
            },
            _ => {
                self.touch_liked(now);
                Effect::Nothing
            },
        }
    }

    /// A touch at the point where the finger is.
    pub fn touch(&mut self, now: u64) -> (r: Effect)
        requires
            old(self)@.wf(),
        ensures
            (final(self)@, r@) == touched(old(self)@, now),
            final(self)@.wf(),
    {
        let y: i32 = self.device.y;
        self.device.touching = false;
        self.times.input = now;
        if self.device.asleep {
            self.device.asleep = false;
            self.times.flush = now;
            return Effect::Wake;
        }
        if 435 <= y && y < 535 {
            match self.device.stage {
                Some(stage) => {
                    if stage == StartupStage::Library {
                        self.times.liked_retry = if now >= 3_000_000_000 {
                            now - 3_000_000_000
                        } else {
                            now
                        };
                    }
                    self.times.stage_start = now;
                    self.times.retry = Some(now);
                    self.device.dirty = true;
                    return Effect::Recover(stage);
                },
                None => {},
            }
        }
        if y < LIST_TOP {
            self.touch_header()
        } else if y >= TOOLBAR_TOP {
            self.touch_toolbar()
        } else if self.nav.view == AppView::NowPlaying {
            self.touch_big_view()
        } else if y >= SEPARATOR_TOP {
            self.nav.exit_armed = false;
            Effect::Nothing
        } else if y >= STRIP_TOP {
            self.touch_strip()
        } else {
            self.touch_content(now)
        }
    }
}

} // verus!
