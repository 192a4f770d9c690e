//! The interface: answers, settings, the system, touches and time.
use spotui::daemon::modes::RepeatMode;
use spotui::daemon::queue::QueueSource;
use spotui::ui::answers::{
    mode_accepted, read_event, step_command, volume_command, write_page_command,
    write_playlist_command, write_search_command, InputEvent,
};
use spotui::ui::labels::{format_playback_time, truncate_label, StartupStage};
use spotui::ui::replies::{
    daemon_now_playing, daemon_playback_modes, daemon_playback_position, daemon_playlist_query,
    daemon_query, daemon_queue_page, daemon_queue_status, decode_lines, decode_reply,
    parse_volume_reply, playlist_list_is_complete, track_list_is_complete, Listed, PlaybackState,
    ShownModes,
};
use spotui::ui::settings::{
    brightness_label, brightness_level, load_brightness_idx, load_screen_sleep_idx,
    load_search_history, load_theme, remember_search, save_choice, save_search_history,
    screen_sleep_timeout, Theme,
};
use spotui::ui::state::{AppView, Ui};
use spotui::ui::system::{
    auto_select_output, cmdline_has_argument, entry_is_process, le_i32, le_u16, parse_pid,
    read_battery_percent, read_memory_available_mb, storage_free_mb, switch_active,
    wifi_has_default_route, PORT_35MM, PORT_44MM,
};
use spotui::ui::tick::Frame;
use spotui::ui::touch::Effect;

const SECOND: u64 = 1_000_000_000;

fn listed(id: &str, name: &str, by: &str) -> Listed {
    Listed { id: id.to_string(), name: name.to_string(), by: by.to_string() }
}

fn list(n: usize) -> Vec<Listed> {
    (0..n).map(|i| listed(&format!("id{}", i), &format!("Track {}", i), "Someone")).collect()
}

fn ui(n: usize) -> Ui {
    Ui::start(
        list(n),
        vec!["old search".to_string()],
        None,
        true,
        Theme::Tidepool,
        0,
        1,
        ShownModes::default(),
        100,
        None,
        Some(77),
        None,
        None,
        10 * SECOND,
    )
}

fn tap(u: &mut Ui, x: i32, y: i32, now: u64) -> Effect {
    u.device.x = x;
    u.device.y = y;
    u.touch(now)
}

const PLAYING: &str = "NOW_PLAYING abc\tTitle\tArtist\t100000";

#[test]
fn replies_are_decoded() {
    assert_eq!(decode_reply(b""), None);
    assert_eq!(decode_reply(b" STATUS PLAYING\n"), Some("STATUS PLAYING".to_string()));
    assert_eq!(decode_reply("caf\u{e9}\n".as_bytes()), Some("caf\u{e9}".to_string()));
    assert_eq!(decode_reply(b"a\xffb"), Some("a\u{fffd}b".to_string()));
    assert_eq!(decode_lines(b"a\xff\n"), "a\u{fffd}\n");
}

#[test]
fn volume_replies() {
    assert_eq!(parse_volume_reply("OK vol 85"), Some(85));
    assert_eq!(parse_volume_reply("OK vol  100 "), Some(100));
    assert_eq!(parse_volume_reply("OK vol 101"), None);
    assert_eq!(parse_volume_reply("OK vol 300"), None);
    assert_eq!(parse_volume_reply("ERR"), None);
}

#[test]
fn status_and_mode_replies() {
    assert_eq!(PlaybackState::from_status_reply("STATUS STOPPED"), Some(PlaybackState::Stopped));
    assert_eq!(PlaybackState::from_status_reply("STATUS LOADING"), Some(PlaybackState::Loading));
    assert_eq!(PlaybackState::from_status_reply("STATUS PLAYING"), Some(PlaybackState::Playing));
    assert_eq!(PlaybackState::from_status_reply("STATUS PAUSED"), Some(PlaybackState::Paused));
    assert_eq!(PlaybackState::from_status_reply("STATUS ERROR"), Some(PlaybackState::Error));
    assert_eq!(PlaybackState::from_status_reply("STATUS playing"), None);
    assert_eq!(
        daemon_playback_modes("MODES SHUFFLE ON REPEAT ONE"),
        Some(ShownModes { shuffle: true, repeat: RepeatMode::One })
    );
    for bad in [
        "MODES SHUFFLE ON REPEAT", "MODES SHUFFLE x REPEAT ONE", "MODES SHUFFLE ON REPEAT x",
        "MODES SHUFFLE ON REPEAT ONE more", "MODE SHUFFLE ON REPEAT ONE",
    ] {
        assert_eq!(daemon_playback_modes(bad), None);
    }
}

#[test]
fn queue_status_replies() {
    assert!(matches!(daemon_queue_status("QUEUE NONE"), Some(None)));
    let status = daemon_queue_status("QUEUE LIKED 7 1 3 abc").unwrap().unwrap();
    assert!(matches!(status.source, QueueSource::Liked));
    assert_eq!((status.request_id, status.index, status.length), (7, 1, 3));
    assert_eq!(status.track_id, "abc");
    let status = daemon_queue_status("QUEUE PLAYLIST 7 list 0 1 abc").unwrap().unwrap();
    assert!(matches!(status.source, QueueSource::Playlist(id) if id == "list"));
    let status = daemon_queue_status("QUEUE SEARCH 8 0 1 abc").unwrap().unwrap();
    assert!(matches!(status.source, QueueSource::Search));
    for bad in [
        "QUEUE LIKED 7 3 3 abc", "QUEUE LIKED x 1 3 abc", "QUEUE LIKED 7 1 3", "QUEUE LIKED 7 1 3  ",
        "QUEUE PLAYLIST 7  0 1 abc", "QUEUE OTHER 7 1 3 abc", "",
    ] {
        assert!(daemon_queue_status(bad).is_none(), "{}", bad);
    }
}

#[test]
fn queue_page_replies() {
    assert!(matches!(daemon_queue_page("QUEUE_PAGE NONE"), Some(None)));
    let reply = "QUEUE_PAGE PLAYLIST:p 5 1 3 0 2\nITEM 0 2 aa\nITEM 1 0 bb";
    let page = daemon_queue_page(reply).unwrap().unwrap();
    assert!(matches!(page.source, QueueSource::Playlist(id) if id == "p"));
    assert_eq!((page.current_position, page.total, page.start), (1, 3, 0));
    assert_eq!(page.items.len(), 2);
    assert_eq!(page.items[1].source_index, 0);
    assert_eq!(page.items[0].track_id, "aa");
    for bad in [
        "", "QUEUE_PAGE LIKED 5 3 3 0 0", "QUEUE_PAGE LIKED 5 0 3 4 0", "QUEUE_PAGE LIKED 5 0 3 0 10",
        "QUEUE_PAGE LIKED 5 0 3 0 1", "QUEUE_PAGE LIKED 5 0 3 0 1\nITEM 3 0 a",
        "QUEUE_PAGE LIKED 5 0 3 0 1\nTHING 0 0 a", "QUEUE_PAGE PLAYLIST: 5 0 3 0 0",
        "QUEUE_PAGE X 5 0 3 0 0", "QUEUE_PAGE LIKED 5 0 3 0 0 1",
    ] {
        assert!(daemon_queue_page(bad).is_none(), "{}", bad);
    }
}

#[test]
fn track_and_position_replies() {
    assert!(matches!(daemon_now_playing("NOW_PLAYING NONE"), Some(None)));
    let item = daemon_now_playing("NOW_PLAYING id\t T \tA\t1000").unwrap().unwrap();
    assert_eq!((item.id.as_str(), item.title.as_str(), item.artist.as_str()), ("id", "T", "A"));
    assert_eq!(item.duration_ms, 1000);
    assert!(daemon_now_playing("NOW_PLAYING \tT\tA\t1000").is_none());
    assert!(daemon_now_playing("NOW_PLAYING id\tT\tA").is_none());
    assert!(daemon_now_playing("NOW_PLAYING id\tT\tA\tx").is_none());
    assert_eq!(daemon_playback_position("POSITION NONE"), Some(None));
    assert_eq!(daemon_playback_position("POSITION 12"), Some(Some(12)));
    assert_eq!(daemon_playback_position("POSITION x"), None);
    assert_eq!(daemon_playback_position("x"), None);
}

#[test]
fn list_replies() {
    let text = "RESULT a\tName\tArtist\nnoise\nRESULT b\nRESULT \tx\ty\nEND 2\n";
    let tracks = daemon_query(text);
    assert_eq!(tracks.len(), 2);
    assert_eq!(tracks[0].label(), "Name - Artist");
    assert_eq!((tracks[1].id.as_str(), tracks[1].name.as_str(), tracks[1].by.as_str()), ("b", "", ""));
    let playlists = daemon_playlist_query("PLAYLIST p\tMix\t\nEND 1\n");
    assert_eq!(playlists.len(), 1);
    assert_eq!(playlists[0].label(), "Mix");
    assert!(track_list_is_complete(text));
    assert!(track_list_is_complete("ENDLESS"));
    assert!(!playlist_list_is_complete("ENDLESS"));
    assert!(playlist_list_is_complete("END 0"));
    assert!(!track_list_is_complete("RESULT END"));
}

#[test]
fn labels_and_times() {
    assert_eq!(truncate_label("hello", 5), "hello");
    assert_eq!(truncate_label("hello world", 8), "hello...");
    assert_eq!(truncate_label("hello", 2), "..");
    assert_eq!(truncate_label("hello", 0), "");
    assert_eq!(truncate_label("\u{e9}\u{e9}\u{e9}\u{e9}\u{e9}", 4), "\u{e9}...");
    assert_eq!(format_playback_time(0), "0:00");
    assert_eq!(format_playback_time(61999), "1:01");
    assert_eq!(format_playback_time(u32::MAX), "71582:47");
    assert_eq!(StartupStage::Wifi.label(), "Starting Wi-Fi");
    assert_eq!(StartupStage::Spotify.detail(), "Signing in and starting playback");
    assert_eq!(StartupStage::Library.retry_label(), "Retry Library");
    assert_eq!(StartupStage::Library.progress_width(), 360);
}

#[test]
fn choices_are_kept() {
    assert_eq!(load_brightness_idx(None), 0);
    assert_eq!(load_brightness_idx(Some("3\n")), 3);
    assert_eq!(load_brightness_idx(Some("5")), 0);
    assert_eq!(load_screen_sleep_idx(None), 1);
    assert_eq!(load_screen_sleep_idx(Some("x")), 1);
    for i in 0..5 {
        assert_eq!(load_screen_sleep_idx(Some(&save_choice(i))), i);
    }
    assert_eq!(brightness_level(4), 25);
    assert_eq!(brightness_label(1), "80%");
    assert_eq!(screen_sleep_timeout(2), Some(120_000));
    assert_eq!(screen_sleep_timeout(4), None);
}

#[test]
fn themes_are_kept() {
    let all = [
        Theme::ElKayKay, Theme::Tidepool, Theme::CitrusGrove, Theme::MonochromeStatic,
        Theme::PaperLantern, Theme::DurandalTerminal, Theme::ArcadeBloom, Theme::DesertBloom,
        Theme::AlNoor, Theme::NightMarket,
    ];
    for theme in all {
        assert_eq!(load_theme(Some(theme.key())), theme);
    }
    assert_eq!(load_theme(None), Theme::ElKayKay);
    assert_eq!(load_theme(Some("what")), Theme::ElKayKay);
    assert_eq!(load_theme(Some(" amber\n")), Theme::MonochromeStatic);
    assert_eq!(load_theme(Some("crimson")), Theme::NightMarket);
}

#[test]
fn search_history() {
    let mut history = load_search_history("a\n  b \n\nc\r\n");
    assert_eq!(history, vec!["a", "b", "c"]);
    remember_search(&mut history, " B ");
    assert_eq!(history, vec!["B", "a", "c"]);
    remember_search(&mut history, "  ");
    assert_eq!(history, vec!["B", "a", "c"]);
    for i in 0..10 {
        remember_search(&mut history, &format!("q{}", i));
    }
    assert_eq!(history.len(), 8);
    assert_eq!(history[0], "q9");
    let kept = save_search_history(&history);
    assert_eq!(load_search_history(&kept), history);
    assert_eq!(save_search_history(&vec!["x".to_string(), "y".to_string()]), "x\ny");
}

#[test]
fn system_files() {
    assert!(switch_active(Some("1\n")));
    assert!(!switch_active(Some("0")));
    assert!(!switch_active(None));
    assert_eq!(auto_select_output(true, true), Some(PORT_44MM));
    assert_eq!(auto_select_output(false, true), Some(PORT_35MM));
    assert_eq!(auto_select_output(false, false), None);
    let table = "Iface Destination\nwlan0 0001A8C0\nwlan0 00000000 x\n";
    assert!(wifi_has_default_route(table));
    assert!(!wifi_has_default_route("wlan0 00000000\neth0 00000000\n"));
    assert!(!wifi_has_default_route(""));
    assert_eq!(read_battery_percent("88\n"), Some(88));
    assert_eq!(read_battery_percent("101"), None);
    assert_eq!(read_battery_percent("full"), None);
    assert_eq!(storage_free_mb(1000, 4096, 1), 3);
    assert_eq!(storage_free_mb(1024, 0, 1024), 1);
    assert_eq!(storage_free_mb(u64::MAX, u64::MAX, 1), u64::MAX / 1_048_576);
    let info = "MemFree: 1024 kB\nBuffers: 1024 kB\nCached: 2048 kB\nbroken\n";
    assert_eq!(read_memory_available_mb(info), Some(4));
    assert_eq!(read_memory_available_mb(&format!("{}MemAvailable: 3072 kB\n", info)), Some(3));
    assert_eq!(read_memory_available_mb(""), None);
}

#[test]
fn processes() {
    assert!(cmdline_has_argument(b"sh\0/usr/x\0", b"/usr/x"));
    assert!(cmdline_has_argument(b"/usr/x", b"/usr/x"));
    assert!(!cmdline_has_argument(b"sh\0/usr/xy\0", b"/usr/x"));
    assert!(!cmdline_has_argument(b"sh/usr/x", b"/usr/x"));
    assert!(cmdline_has_argument(b"a\0", b""));
    assert!(!cmdline_has_argument(b"a\0b", b"a\0b"));
    for name in ["1", "+1", "-1", "2147483647", "2147483648", "-2147483648", "-2147483649", "", "-", "-+1", "x"] {
        assert_eq!(parse_pid(name), name.parse::<i32>().ok(), "{}", name);
    }
    assert!(entry_is_process("12", Some("aplay\n"), "aplay"));
    assert!(!entry_is_process("12a", Some("aplay"), "aplay"));
    assert!(!entry_is_process("12", Some("sh"), "aplay"));
    assert!(!entry_is_process("12", None, "aplay"));
}

#[test]
fn input_events() {
    assert_eq!(le_u16(&[0x34, 0x12]), 0x1234);
    assert_eq!(le_i32(&[0xff, 0xff, 0xff, 0xff]), -1);
    assert_eq!(le_i32(&[1, 0, 0, 0x80]), i32::MIN + 1);
    let bytes = [0, 0, 0, 0, 0, 0, 0, 0, 3, 0, 0x35, 0, 0x2c, 1, 0, 0];
    let e = read_event(&bytes);
    assert_eq!((e.kind, e.code, e.value), (3, 0x35, 300));
    let mut u = ui(3);
    u.on_screen_event(&e, 0);
    assert_eq!(u.device.x, 300);
    u.on_screen_event(&InputEvent { kind: 3, code: 0x36, value: 45 }, 0);
    u.on_screen_event(&InputEvent { kind: 0, code: 0, value: 0 }, 5);
    assert_eq!(u.nav.selected, None);
    u.on_screen_event(&InputEvent { kind: 1, code: 0x14a, value: 1 }, 0);
    u.on_screen_event(&InputEvent { kind: 0, code: 0, value: 0 }, 5);
    assert_eq!(u.nav.selected, Some(0));
    assert!(!u.device.touching);
    assert_eq!(u.times.input, 5);
}

#[test]
fn keys_of_the_device() {
    let mut u = ui(3);
    let power = InputEvent { kind: 1, code: 116, value: 1 };
    assert!(!u.on_power_event(&power, 1));
    u.device.asleep = true;
    assert!(u.on_power_event(&power, 2));
    assert!(!u.device.asleep);
    assert_eq!(u.on_volume_event(&InputEvent { kind: 1, code: 0x73, value: 1 }, 3), Some(true));
    assert_eq!(u.on_volume_event(&InputEvent { kind: 1, code: 0x72, value: 1 }, 4), Some(false));
    assert_eq!(u.on_volume_event(&InputEvent { kind: 1, code: 0x72, value: 0 }, 5), None);
    assert_eq!(u.times.input, 4);
    u.answer_volume(Some("OK vol 40"), 9);
    assert_eq!(u.play.volume_popup.unwrap().percent, 40);
    assert!(u.device.strip_dirty);
    u.expire_popup(9 + 1_799_999_999);
    assert!(u.play.volume_popup.is_some());
    u.expire_popup(9 + 1_800_000_000);
    assert!(u.play.volume_popup.is_none());
}

#[test]
fn a_sleeping_screen_wakes_and_nothing_else() {
    let mut u = ui(3);
    u.device.asleep = true;
    assert!(matches!(tap(&mut u, 100, 50, 77), Effect::Wake));
    assert!(!u.device.asleep);
    assert_eq!(u.nav.selected, None);
    assert_eq!(u.times.input, 77);
}

#[test]
fn the_header_scrolls() {
    let mut u = ui(20);
    tap(&mut u, 400, 10, 0);
    assert_eq!(u.nav.scroll, 8);
    tap(&mut u, 400, 10, 0);
    assert_eq!(u.nav.scroll, 11);
    tap(&mut u, 10, 10, 0);
    assert_eq!(u.nav.scroll, 3);
    tap(&mut u, 10, -5, 0);
    assert_eq!(u.nav.scroll, 0);
    let mut u = ui(3);
    tap(&mut u, 400, 10, 0);
    assert_eq!(u.nav.scroll, 0);
}

#[test]
fn the_toolbar() {
    let mut u = ui(3);
    assert!(matches!(tap(&mut u, 5, 700, 0), Effect::Nothing));
    assert!(u.nav.exit_armed);
    assert!(matches!(tap(&mut u, 5, 650, 0), Effect::Nothing));
    assert!(!u.nav.exit_armed);
    assert_eq!(u.nav.view, AppView::Library);
    tap(&mut u, -5, 700, 0);
    assert!(matches!(tap(&mut u, 119, 719, 0), Effect::Exit));
    let mut u = ui(3);
    assert!(matches!(tap(&mut u, 120, 660, 0), Effect::SetBrightness));
    assert_eq!(u.device.brightness, 1);
    assert!(matches!(tap(&mut u, 300, 660, 0), Effect::Send(c) if c == "PAUSE"));
    u.play.state = PlaybackState::Paused;
    assert!(matches!(tap(&mut u, 300, 660, 0), Effect::Send(c) if c == "PLAY"));
    u.nav.selected = Some(1);
    assert!(matches!(tap(&mut u, 9999, 660, 0), Effect::AskLibrary));
    assert_eq!(u.nav.view, AppView::Menu);
    u.answer_library("");
    assert_eq!((u.items.len(), u.nav.selected), (3, Some(1)));
    u.answer_library("RESULT n\tNew\tX\nEND 1\n");
    assert_eq!((u.items.len(), u.items[0].id.as_str(), u.nav.selected), (1, "n", None));
    assert_eq!(u.nav.view, AppView::Menu);
    assert!(matches!(tap(&mut u, 470, 660, 0), Effect::Nothing));
    assert_eq!(u.nav.view, AppView::Library);
    u.nav.view = AppView::SearchInput;
    u.nav.search_in_progress = true;
    assert!(matches!(tap(&mut u, 470, 660, 0), Effect::CancelSearch));
    assert!(!u.nav.search_in_progress);
}

#[test]
fn a_tapped_track_is_loaded_after_a_pause() {
    let mut u = ui(20);
    u.nav.scroll = 2;
    tap(&mut u, 100, 100, SECOND);
    assert_eq!(u.nav.selected, Some(3));
    let pending = u.pending_selection.as_ref().unwrap();
    assert_eq!((pending.request_id, pending.track_id.as_str()), (100, "id3"));
    assert_eq!(u.dispatch_load(SECOND + 599_999_999), None);
    tap(&mut u, 100, 40, SECOND + 599_999_999);
    assert_eq!(u.dispatch_load(2 * SECOND), None);
    assert_eq!(u.dispatch_load(3 * SECOND), Some("LOAD_LIKED 101 id2".to_string()));
    assert_eq!(u.dispatch_load(4 * SECOND), None);
    assert_eq!(u.play.next_request, 102);
    // Below the last row nothing is hit, and an armed exit stays armed.
    let mut u = ui(2);
    u.nav.exit_armed = true;
    tap(&mut u, 100, 400, 0);
    assert_eq!(u.nav.selected, None);
    assert!(u.nav.exit_armed);
    u.play.next_request = u64::MAX;
    tap(&mut u, 100, 40, 0);
    assert_eq!(u.play.next_request, 0);
}

#[test]
fn playlists_and_their_tracks() {
    let mut u = ui(3);
    u.nav.view = AppView::Menu;
    assert!(matches!(tap(&mut u, 10, 300, 0), Effect::AskPlaylists));
    u.answer_playlists("PLAYLIST p1\tOne\tme\nPLAYLIST p2\tTwo\tme\nEND 2\n");
    assert_eq!(u.nav.view, AppView::Playlists);
    assert!(matches!(tap(&mut u, 10, 105, 0), Effect::AskPlaylist(id) if id == "p2"));
    assert_eq!(write_playlist_command("p2"), "PLAYLIST p2");
    u.answer_playlist("RESULT a\tA\tX\nRESULT b\tB\tX\nEND 2\n");
    assert_eq!(u.nav.view, AppView::PlaylistTracks);
    assert_eq!(u.shown_playlist_id(), Some("p2".to_string()));
    tap(&mut u, 10, 105, 0);
    assert_eq!(u.dispatch_load(SECOND), Some("LOAD_PLAYLIST 100 p2 b".to_string()));
    u.answer_playlists("");
    assert_eq!(u.playlists[0].name, "No playlists found");
    assert!(matches!(tap(&mut u, 10, 45, 0), Effect::Nothing));
    u.answer_playlist("");
    assert_eq!(u.playlist_tracks[0].name, "No tracks found");
}

#[test]
fn searching() {
    let mut u = ui(3);
    u.nav.view = AppView::SearchInput;
    tap(&mut u, 10, 110, 0);
    tap(&mut u, 30, 215, 0);
    tap(&mut u, 10, 215, 0);
    tap(&mut u, 80, 330, 0);
    assert_eq!(u.query, "qaz");
    tap(&mut u, 130, 430, 0);
    tap(&mut u, 130, 430, 0);
    assert_eq!(u.query, "qaz ");
    tap(&mut u, 250, 430, 0);
    assert_eq!(u.query, "qaz");
    assert!(matches!(tap(&mut u, 479, 500, 0), Effect::Search(q) if q == "qaz"));
    assert!(u.nav.search_in_progress);
    assert_eq!(write_search_command("qaz"), "SEARCH qaz");
    tap(&mut u, 10, 110, 0);
    assert_eq!(u.query, "qaz");
    assert_eq!(u.answer_search("RESULT r\tR\tS\nEND 1\n"), Some("qaz\nold search".to_string()));
    assert_eq!(u.nav.view, AppView::SearchResults);
    tap(&mut u, 10, 50, 0);
    assert_eq!(u.nav.search_selected, Some(0));
    assert_eq!(u.dispatch_load(SECOND), Some("LOAD_SEARCH 100 r".to_string()));
    assert_eq!(u.answer_search("x"), None);
    // Clear, then the history.
    u.nav.view = AppView::SearchInput;
    tap(&mut u, 10, 430, 0);
    assert_eq!(u.query, "");
    tap(&mut u, 10, 430, 0);
    assert_eq!(u.nav.view, AppView::SearchHistory);
    assert!(matches!(tap(&mut u, 10, 100, 0), Effect::Search(q) if q == "old search"));
    assert_eq!(u.nav.view, AppView::SearchInput);
    u.answer_search("");
    assert_eq!(u.search_results[0].name, "No search results");
    u.nav.view = AppView::SearchHistory;
    assert!(matches!(tap(&mut u, 10, 400, 0), Effect::Nothing));
    assert!(matches!(tap(&mut u, 10, 160, 0), Effect::KeepHistory));
    assert!(u.recent.is_empty());
    assert_eq!(u.nav.view, AppView::SearchInput);
    let mut full = ui(1);
    full.nav.view = AppView::SearchInput;
    full.query = "x".repeat(48);
    tap(&mut full, 10, 110, 0);
    assert_eq!(full.query.len(), 48);
    full.query = " ".to_string();
    assert!(matches!(tap(&mut full, 479, 500, 0), Effect::Nothing));
}

#[test]
fn menus() {
    let mut u = ui(3);
    u.nav.view = AppView::Menu;
    assert!(matches!(tap(&mut u, 300, 50, 0), Effect::AskModes));
    u.answer_sound(Some("MODES SHUFFLE ON REPEAT ALL"));
    assert_eq!(u.nav.view, AppView::Sound);
    assert!(matches!(tap(&mut u, 10, 50, 0), Effect::AskSetMode(c) if c == "SET_SHUFFLE OFF"));
    assert!(mode_accepted(Some("OK shuffle off")));
    assert!(!mode_accepted(Some("ERR")));
    u.answer_modes(Some("MODES SHUFFLE OFF REPEAT ALL"));
    assert!(!u.play.modes.shuffle);
    assert!(matches!(tap(&mut u, 10, 50, 0), Effect::AskSetMode(c) if c == "SET_SHUFFLE ON"));
    assert!(matches!(tap(&mut u, 300, 50, 0), Effect::AskSetMode(c) if c == "SET_REPEAT OFF"));
    assert!(matches!(tap(&mut u, 10, 230, 0), Effect::AskSetMode(c) if c == "SET_REPEAT ALL"));
    assert!(matches!(tap(&mut u, 300, 230, 0), Effect::AskSetMode(c) if c == "SET_REPEAT ONE"));
    tap(&mut u, 300, 570, 0);
    assert_eq!(u.nav.view, AppView::Menu);
    tap(&mut u, 300, 230, 0);
    assert_eq!(u.nav.view, AppView::Appearance);
    assert!(matches!(tap(&mut u, 300, 230, 0), Effect::KeepTheme));
    assert_eq!(u.device.theme, Theme::MonochromeStatic);
    tap(&mut u, 300, 570, 0);
    assert_eq!(u.nav.view, AppView::Special);
    tap(&mut u, 10, 50, 0);
    assert_eq!(u.device.theme, Theme::DurandalTerminal);
    u.nav.view = AppView::Settings;
    assert!(matches!(tap(&mut u, 10, 400, 9), Effect::KeepSleep));
    assert_eq!(u.device.sleep, 4);
    u.nav.view = AppView::Menu;
    assert!(matches!(tap(&mut u, 300, 400, 0), Effect::AskQueueStatus));
    u.answer_diagnostics(Some("QUEUE LIKED 1 0 1 a"));
    assert_eq!(u.nav.view, AppView::Diagnostics);
    assert!(u.queue_status.is_some());
    assert!(matches!(tap(&mut u, 300, 400, 0), Effect::AskRefresh));
    u.answer_refresh(Some("STATUS PLAYING"), None, 5);
    assert_eq!(u.play.state, PlaybackState::Playing);
    assert!(u.queue_status.is_none());
    assert_eq!(u.times.diagnostics, Some(5));
    u.expire_diagnostics(5 + 1_500_000_000);
    assert_eq!(u.times.diagnostics, None);
}

#[test]
fn the_current_track_on_the_screen() {
    let mut u = ui(3);
    // Without a track the strip does nothing.
    assert!(matches!(tap(&mut u, 10, 590, 0), Effect::Nothing));
    u.poll_track(Some(PLAYING));
    assert!(u.device.strip_dirty);
    assert!(matches!(tap(&mut u, 10, 590, 0), Effect::AskStep(false)));
    assert_eq!(step_command(false), "PREVIOUS");
    assert!(matches!(tap(&mut u, 400, 590, 0), Effect::AskStep(true)));
    assert_eq!(step_command(true), "NEXT");
    assert_eq!((volume_command(true), volume_command(false)), ("VOL_UP", "VOL_DOWN"));
    u.answer_step(Some("OK queue boundary"));
    assert_eq!(u.play.state, PlaybackState::Unknown);
    u.answer_step(Some("OK loading next 1 x"));
    assert_eq!(u.play.state, PlaybackState::Loading);
    assert_eq!(u.play.position, Some(0));
    assert!(matches!(tap(&mut u, 240, 630, 0), Effect::Send(c) if c == "SEEK 50000"));
    assert_eq!(u.play.position, Some(50000));
    tap(&mut u, 200, 590, 0);
    assert_eq!(u.nav.view, AppView::NowPlaying);
    assert!(matches!(tap(&mut u, 460, 300, 0), Effect::Send(c) if c == "SEEK 100000"));
    assert!(matches!(tap(&mut u, 100, 400, 0), Effect::AskStep(false)));
    assert!(matches!(tap(&mut u, 200, 400, 0), Effect::Send(c) if c == "PAUSE"));
    assert!(matches!(tap(&mut u, 200, 530, 0), Effect::AskFirstPage));
    assert_eq!(u.nav.up_next_return, AppView::NowPlaying);
    tap(&mut u, 470, 700, 0);
    assert_eq!(u.nav.view, AppView::Library);
}

fn page(position: usize, start: usize) -> String {
    let mut text = format!("QUEUE_PAGE LIKED 1 {} 30 {} 9", position, start);
    for i in start..start + 9 {
        text.push_str(&format!("\nITEM {} {} id{}", i, i, i));
    }
    text
}

#[test]
fn the_play_order() {
    let mut u = ui(3);
    assert_eq!(u.answer_first_page(Some(&page(11, 0))), Some(9));
    u.answer_opening_page(Some(&page(11, 9)));
    assert_eq!(u.nav.view, AppView::UpNext);
    assert_eq!(u.page.as_ref().unwrap().start, 9);
    assert!(matches!(tap(&mut u, 400, 10, 0), Effect::AskPage(18)));
    assert_eq!(write_page_command(18), "QUEUE_PAGE 18 9");
    u.answer_page(None);
    assert_eq!(u.page.as_ref().unwrap().start, 9);
    u.answer_page(Some(&page(11, 18)));
    assert_eq!(u.page.as_ref().unwrap().start, 18);
    assert!(matches!(tap(&mut u, 400, 10, 0), Effect::AskPage(27)));
    assert!(matches!(tap(&mut u, 400, 10, 0), Effect::AskPage(27)));
    assert!(matches!(tap(&mut u, 10, 10, 0), Effect::AskPage(18)));
    // The page follows the current track.
    assert_eq!(u.shown_page(), Some(18));
    assert_eq!(u.poll_page(Some(&page(11, 18))), Some(9));
    u.poll_moved_page(Some(&page(11, 9)));
    assert_eq!(u.page.as_ref().unwrap().start, 9);
    u.device.dirty = false;
    assert_eq!(u.poll_page(Some(&page(11, 9))), None);
    assert!(!u.device.dirty);
    assert_eq!(u.poll_page(Some(&page(12, 9))), None);
    assert!(u.device.dirty);
    u.nav.view = AppView::Library;
    assert_eq!(u.shown_page(), None);
    assert_eq!(u.answer_first_page(Some("QUEUE_PAGE NONE")), None);
    assert!(u.page.is_none());
    assert_eq!(u.nav.view, AppView::UpNext);
}

#[test]
fn the_start() {
    let mut u = Ui::start(
        vec![], vec![], None, false, Theme::ElKayKay, 0, 1, ShownModes::default(), 1, None, None, None,
        None, 0,
    );
    assert_eq!(u.device.stage, Some(StartupStage::Wifi));
    assert_eq!(u.items[0].name, "Connecting...");
    assert!(!u.library_is_due(SECOND));
    assert!(u.library_is_due(2 * SECOND));
    u.answer_startup(true, false, "", 3 * SECOND);
    assert_eq!(u.device.stage, Some(StartupStage::Spotify));
    assert_eq!(u.times.stage_start, 3 * SECOND);
    assert!(matches!(tap(&mut u, 200, 450, 4 * SECOND), Effect::Recover(StartupStage::Spotify)));
    assert!(u.times.retry.is_some());
    u.expire_retry(5 * SECOND);
    assert!(u.times.retry.is_some());
    u.expire_retry(5 * SECOND + 500_000_000);
    assert!(u.times.retry.is_none());
    u.answer_startup(true, true, "", 6 * SECOND);
    assert!(matches!(tap(&mut u, 200, 450, 7 * SECOND), Effect::Recover(StartupStage::Library)));
    assert_eq!(u.times.liked_retry, 4 * SECOND);
    assert!(u.library_is_due(7 * SECOND));
    u.answer_startup(true, true, "RESULT a\tA\tB\nEND 1\n", 8 * SECOND);
    assert_eq!(u.device.stage, None);
    assert!(u.device.tracks_loaded);
    assert!(!u.library_is_due(99 * SECOND));
    assert!(u.settle_brightness(9 * SECOND));
    assert!(!u.settle_brightness(9 * SECOND));
}

#[test]
fn polls_of_the_daemon() {
    let mut u = ui(5);
    assert!(!u.status_is_due(10 * SECOND));
    assert!(u.status_is_due(11 * SECOND));
    u.poll_state(Some("STATUS PLAYING"));
    assert_eq!(u.play.state, PlaybackState::Playing);
    u.poll_state(None);
    assert_eq!(u.play.state, PlaybackState::Playing);
    u.poll_track(Some(PLAYING));
    u.poll_position(Some("POSITION 5"));
    assert_eq!(u.play.position, Some(5));
    u.poll_state(None);
    assert_eq!(u.play.state, PlaybackState::Unknown);
    assert!(u.now_playing.is_none());
    assert_eq!(u.play.position, None);
    u.poll_queue(Some("QUEUE LIKED 1 2 5 id2"), 0);
    assert_eq!(u.nav.selected, Some(2));
    u.poll_queue(Some("QUEUE LIKED 1 2 5 id4"), 0);
    assert_eq!(u.nav.selected, Some(4));
    u.poll_queue(Some("nonsense"), 0);
    assert_eq!(u.nav.selected, Some(4));
    // A tap that is waited for keeps its mark.
    tap(&mut u, 10, 45, 20 * SECOND);
    u.poll_queue(Some("QUEUE LIKED 1 2 5 id4"), 21 * SECOND);
    assert_eq!(u.nav.selected, Some(0));
    assert!(u.pending_selection.is_some());
    u.poll_queue(Some("QUEUE LIKED 100 0 5 id0"), 22 * SECOND);
    assert_eq!(u.nav.selected, Some(0));
    assert!(u.pending_selection.is_none());
    tap(&mut u, 10, 105, 30 * SECOND);
    u.poll_queue(Some("QUEUE LIKED 100 0 5 id0"), 33 * SECOND);
    assert!(u.pending_selection.is_none());
    assert_eq!(u.nav.selected, Some(0));
    u.poll_queue(Some("QUEUE NONE"), 34 * SECOND);
    assert_eq!(u.nav.selected, None);
}

#[test]
fn polls_of_the_device() {
    let mut u = ui(5);
    u.device.dirty = false;
    assert!(!u.battery_is_due(39 * SECOND));
    assert!(u.battery_is_due(40 * SECOND));
    assert!(u.storage_is_due(40 * SECOND));
    assert!(u.memory_is_due(40 * SECOND));
    u.poll_battery(Some(77));
    assert!(!u.device.dirty);
    u.poll_battery(Some(76));
    assert!(u.device.dirty);
    u.poll_storage(Some(10));
    u.poll_memory(Some(11));
    assert_eq!((u.device.storage_mb, u.device.memory_mb), (Some(10), Some(11)));
    assert!(u.jack_is_due(11 * SECOND));
    u.play.state = PlaybackState::Playing;
    let change = u.poll_jack(Some(2));
    assert!(!change.pause);
    assert_eq!(change.port, Some(2));
    assert_eq!(u.play.state, PlaybackState::Playing);
    let change = u.poll_jack(None);
    assert!(change.pause);
    assert_eq!(change.port, None);
    assert_eq!(u.play.state, PlaybackState::Paused);
    assert!(!u.poll_jack(None).pause);
}

#[test]
fn time_goes_by() {
    let mut u = ui(5);
    u.play.state = PlaybackState::Playing;
    u.move_ambient(11 * SECOND);
    assert_eq!(u.device.frame, 0);
    u.move_ambient(12 * SECOND);
    assert_eq!(u.device.frame, 1);
    assert_eq!(u.device.seed, 0x5a17_c9e3u32.wrapping_mul(1_664_525).wrapping_add(1_013_904_223));
    u.device.frame = u32::MAX;
    u.move_ambient(13 * SECOND);
    assert_eq!(u.device.frame, 0);
    u.device.theme = Theme::DurandalTerminal;
    u.move_ambient(20 * SECOND);
    assert_eq!(u.device.frame, 0);
    assert!(!u.fall_asleep(69 * SECOND));
    assert!(u.fall_asleep(70 * SECOND));
    assert_eq!(u.next_frame(71 * SECOND, 200), Frame::Nothing);
    u.device.asleep = false;
    u.device.sleep = 4;
    assert!(!u.fall_asleep(9999 * SECOND));
    u.device.dirty = true;
    assert_eq!(u.next_frame(72 * SECOND, 200), Frame::Full);
    u.device.strip_dirty = true;
    assert_eq!(u.next_frame(72 * SECOND, 200), Frame::Strip);
    assert_eq!(u.next_frame(72 * SECOND + 199_999_999, 200), Frame::Nothing);
    assert_eq!(u.next_frame(72 * SECOND + 200_000_000, 200), Frame::Keepalive);
    u.nav.view = AppView::NowPlaying;
    u.device.strip_dirty = true;
    assert_eq!(u.next_frame(73 * SECOND, 200), Frame::Full);
}
