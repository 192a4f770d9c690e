//! What is drawn.
use spotui::daemon::state::NowPlaying;
use spotui::ui::canvas::{Canvas, Font, Shape};
use spotui::ui::labels::StartupStage;
use spotui::ui::palette::Palette;
use spotui::ui::panels::{draw_now_playing_strip, draw_now_playing_view, draw_volume_popup};
use spotui::ui::pixels::{frame_offset, solid_frame, Pixels, FRAME_BYTES};
use spotui::ui::replies::{Listed, PlaybackState, ShownModes};
use spotui::ui::scenery::{
    draw_al_noor_sky, draw_el_kay_kay_motes, draw_el_kay_kay_puppy, draw_monochrome_static,
    draw_night_market_lights, draw_scenery,
};
use spotui::ui::screen::{draw_frame, draw_list, view_is_menu, Checks};
use spotui::ui::settings::Theme;
use spotui::ui::state::{AppView, Ui};
use spotui::ui::tick::Frame;

fn listed(id: &str, name: &str, by: &str) -> Listed {
    Listed { id: id.to_string(), name: name.to_string(), by: by.to_string() }
}

fn ui() -> Ui {
    let items = (0..12).map(|i| listed(&format!("id{}", i), &format!("T{}", i), "X")).collect();
    Ui::start(
        items, vec![], None, true, Theme::DurandalTerminal, 1, 1, ShownModes::default(), 1, None,
        Some(50), None, None, 0,
    )
}

const CHECKS: Checks = Checks { wifi: true, player: false, balance: false, headset: true };

fn labels(c: &Canvas) -> Vec<(String, i32, i32)> {
    c.shapes
        .iter()
        .filter_map(|s| match s {
            Shape::Label { text, x, y, .. } => Some((text.clone(), *x, *y)),
            _ => None,
        })
        .collect()
}

fn has(c: &Canvas, text: &str, x: i32, y: i32) -> bool {
    labels(c).contains(&(text.to_string(), x, y))
}

fn drawn(ui: &Ui) -> Canvas {
    let mut c = Canvas::new();
    draw_list(&mut c, ui, &CHECKS, 5_000_000_000);
    c
}

#[test]
fn colours() {
    let p = Theme::MonochromeStatic.palette();
    assert_eq!(p.header_text, 0);
    assert_eq!(p.selected_text, 0xffff);
    assert_eq!(p.background, (2 << 11) | (4 << 5) | 2);
    assert_eq!(Palette::durandal_terminal().progress_track, (21 << 11) | (42 << 5) | 21);
    assert_eq!(Palette::el_kay_kay().progress_fill, (31 << 11) | (30 << 5) | 23);
    let all = [
        Theme::ElKayKay, Theme::Tidepool, Theme::CitrusGrove, Theme::MonochromeStatic,
        Theme::PaperLantern, Theme::DurandalTerminal, Theme::ArcadeBloom, Theme::DesertBloom,
        Theme::AlNoor, Theme::NightMarket,
    ];
    for (i, a) in all.iter().enumerate() {
        for b in &all[i + 1..] {
            assert_ne!(a.palette(), b.palette());
        }
    }
}

#[test]
fn scenery_moves() {
    let p = Theme::ElKayKay.palette();
    let mut c = Canvas::new();
    draw_el_kay_kay_motes(&mut c, 0, &p);
    assert_eq!(c.shapes.len(), 14);
    assert!(matches!(&c.shapes[1], Shape::Disc { x: 71, y: 91, d: 2, color } if *color == p.progress_fill));
    let mut c = Canvas::new();
    draw_el_kay_kay_motes(&mut c, u32::MAX, &p);
    // The sum runs over: 71 + (2^32 - 1) * 2 is 69 in 32 bits.
    assert!(matches!(&c.shapes[1], Shape::Disc { x: 69, y: 89, .. }));
    let mut c = Canvas::new();
    draw_el_kay_kay_puppy(&mut c, 5);
    assert_eq!(c.shapes.len(), 18);
    assert!(matches!(&c.shapes[0], Shape::Disc { x: 376, y: 490, d: 34, color: 0 }));
    assert!(matches!(&c.shapes[14], Shape::Ring { x: 420, y: 536, d: 11, stroke: 2, color: 0 }));
    let mut c = Canvas::new();
    draw_al_noor_sky(&mut c, 3, &p);
    assert_eq!(c.shapes.len(), 34);
    let mut c = Canvas::new();
    draw_night_market_lights(&mut c, 0, &p);
    assert!(matches!(&c.shapes[0], Shape::Rect { x: 0, y: 58, w: 4, h: 6, color } if *color == p.header));
    assert!(matches!(&c.shapes[1], Shape::Dot { x: 1, y: 65, .. }));
    for (theme, n) in [
        (Theme::ElKayKay, 32), (Theme::Tidepool, 10), (Theme::CitrusGrove, 12),
        (Theme::MonochromeStatic, 180), (Theme::PaperLantern, 12), (Theme::DurandalTerminal, 0),
        (Theme::ArcadeBloom, 14), (Theme::DesertBloom, 11), (Theme::AlNoor, 34), (Theme::NightMarket, 14),
    ] {
        let mut c = Canvas::new();
        draw_scenery(&mut c, theme, &p, 1, 2);
        assert_eq!(c.shapes.len(), n);
    }
}

#[test]
fn snow() {
    let mut c = Canvas::new();
    draw_monochrome_static(&mut c, 1);
    assert_eq!(c.shapes.len(), 180);
    let step = |mut seed: u32| {
        seed ^= seed << 13;
        seed ^= seed >> 17;
        seed ^= seed << 5;
        seed
    };
    let a = step(1);
    let b = step(a);
    let level = 4 + ((b >> 16) % 15) as u16;
    let expected = (level << 11) | ((level * 2) << 5) | level;
    assert!(matches!(&c.shapes[0], Shape::Dot { x, y, color }
        if *x == (a % 480) as i32 && *y == 40 + (b % 540) as i32 && *color == expected));
}

fn track(title: &str, artist: &str, duration_ms: u32) -> Option<NowPlaying> {
    Some(NowPlaying {
        id: "id".to_string(),
        title: title.to_string(),
        artist: artist.to_string(),
        duration_ms,
    })
}

#[test]
fn the_strip() {
    let p = Theme::Tidepool.palette();
    let mut c = Canvas::new();
    let item = track("Song", "", 60000);
    draw_now_playing_strip(&mut c, &item, Some(30000), PlaybackState::Playing, &p);
    assert!(has(&c, "Song", 38, 583));
    assert!(has(&c, "Unknown artist", 10, 601));
    assert!(has(&c, "0:30 / 1:00", 470 - 99, 601));
    assert!(matches!(c.shapes.last(), Some(Shape::Rect { x: 10, y: 633, w: 230, h: 4, .. })));
    let mut c = Canvas::new();
    draw_now_playing_strip(&mut c, &track("x", "y", 0), Some(5), PlaybackState::Playing, &p);
    assert!(matches!(c.shapes.last(), Some(Shape::Rect { w: 460, .. })));
    for (state, text) in [
        (PlaybackState::Unknown, "Reconnecting..."), (PlaybackState::Error, "Playback error"),
        (PlaybackState::Paused, "Nothing playing"),
    ] {
        let mut c = Canvas::new();
        draw_now_playing_strip(&mut c, &None, None, state, &p);
        assert!(has(&c, text, 10, 602));
    }
}

#[test]
fn the_screen_of_the_track() {
    let p = Theme::Tidepool.palette();
    let mut c = Canvas::new();
    draw_now_playing_view(&mut c, &track("Song", "Me", 60000), Some(45000), PlaybackState::Paused, &p);
    assert!(has(&c, "Song", 220, 145));
    assert!(has(&c, "Me", 231, 190));
    assert!(has(&c, "0:45", 20, 322));
    assert!(has(&c, "-0:15", 415, 322));
    assert!(has(&c, "Previous", 44, 432));
    assert!(has(&c, "Play", 222, 432));
    assert!(has(&c, "Next", 382, 432));
    assert!(has(&c, "View Up Next", 186, 558));
    let long = "w".repeat(100);
    let mut c = Canvas::new();
    draw_now_playing_view(&mut c, &track(&long, &long, 1), None, PlaybackState::Playing, &p);
    assert!(labels(&c).iter().any(|l| l.0.len() == 42 && l.1 == 30));
    assert!(has(&c, "Pause", 240 - 22, 432));
    let mut c = Canvas::new();
    draw_now_playing_view(&mut c, &None, None, PlaybackState::Unknown, &p);
    assert!(has(&c, "Reconnecting...", 165, 190));
}

#[test]
fn the_volume() {
    let p = Theme::Tidepool.palette();
    let mut c = Canvas::new();
    draw_volume_popup(&mut c, 100, &p);
    assert!(has(&c, "Volume 100%", 190, 598));
    assert!(matches!(&c.shapes[0], Shape::Rect { x: 118, y: 582, w: 244, h: 48, .. }));
}

#[test]
fn the_library() {
    let mut u = ui();
    u.nav.selected = Some(1);
    let c = drawn(&u);
    assert!(has(&c, "Liked Songs", 6, 12));
    assert!(has(&c, "Connecting", 195, 12));
    assert!(has(&c, "50%", 445, 12));
    assert!(has(&c, "T0 - X", 10, 62));
    assert!(has(&c, "> T1 - X", 10, 122));
    assert!(has(&c, "T8 - X", 10, 542));
    assert!(!labels(&c).iter().any(|l| l.0 == "T9 - X"));
    assert!(has(&c, "v", 392, 12));
    assert!(!has(&c, "^", 368, 12));
    assert!(has(&c, "Exit", 40, 682));
    assert!(has(&c, "Bright 80%", 128, 682));
    assert!(has(&c, "Pause", 270, 682));
    assert!(has(&c, "Refresh", 388, 682));
    assert!(!labels(&c).iter().any(|l| l.2 >= 640 && l.2 < 660));
    assert!(has(&c, "Reconnecting...", 10, 602));
    assert!(matches!(&c.shapes[0], Shape::Rect { x: 0, y: 0, w: 480, h: 720, .. }));
    u.nav.scroll = 3;
    u.device.battery = None;
    u.play.state = PlaybackState::Paused;
    u.nav.exit_armed = true;
    let c = drawn(&u);
    assert!(has(&c, "T3 - X", 10, 62));
    assert!(has(&c, "^", 368, 12));
    assert!(!has(&c, "v", 392, 12));
    assert!(has(&c, "--%", 445, 12));
    assert!(has(&c, "Resume", 270, 682));
    assert!(has(&c, "Confirm", 40, 682));
}

#[test]
fn the_start_screen() {
    let mut u = ui();
    u.device.stage = Some(StartupStage::Spotify);
    let c = drawn(&u);
    assert!(has(&c, "SpotUI", 6, 12));
    assert!(has(&c, "Starting", 204, 12));
    assert!(has(&c, "Connecting to Spotify", 145, 275));
    assert!(has(&c, "Waiting 5s", 195, 405));
    assert!(has(&c, "Retry Spotify", 181, 477));
    assert!(!has(&c, "Exit", 40, 682));
    u.times.retry = Some(1);
    assert!(has(&drawn(&u), "Retry requested", 172, 477));
}

#[test]
fn the_search_screens() {
    let mut u = ui();
    u.nav.view = AppView::SearchInput;
    let c = drawn(&u);
    assert!(has(&c, "Tap letters to search", 12, 62));
    assert!(has(&c, "Q", 20, 141));
    assert!(has(&c, "A", 44, 246));
    assert!(has(&c, "M", 72 + 6 * 48 + 20, 351));
    assert!(has(&c, "Clear", 12, 468));
    assert!(has(&c, "Go", 372, 468));
    u.recent = vec!["cats".to_string()];
    u.nav.search_in_progress = true;
    let c = drawn(&u);
    assert!(has(&c, "Recent", 12, 468));
    assert!(has(&c, "Wait", 372, 468));
    assert!(has(&c, "Searching...", 12, 62));
    u.nav.view = AppView::SearchHistory;
    let c = drawn(&u);
    assert!(has(&c, "cats", 10, 62));
    assert!(has(&c, "Clear History", 10, 122));
    u.recent.clear();
    assert!(has(&drawn(&u), "No recent searches", 10, 62));
}

#[test]
fn the_play_order_is_drawn() {
    let mut u = ui();
    u.nav.view = AppView::UpNext;
    assert!(has(&drawn(&u), "No active queue", 10, 62));
    u.answer_page(Some("QUEUE_PAGE LIKED 1 1 30 0 2\nITEM 0 4 id4\nITEM 1 0 other"));
    let c = drawn(&u);
    assert!(has(&c, "1. T4 - X", 10, 62));
    assert!(has(&c, "> 2. other", 10, 122));
    assert!(has(&c, "v", 392, 12));
    u.answer_page(Some("QUEUE_PAGE LIKED 1 0 1 0 1\nITEM 0 0 id7"));
    assert!(has(&drawn(&u), "> 1. T7 - X", 10, 62));
}

#[test]
fn the_menus() {
    let mut u = ui();
    u.nav.view = AppView::Menu;
    let c = drawn(&u);
    assert!(has(&c, "Search", 93, 122));
    assert!(has(&c, "Diagnostics", 240 + 70, 40 + 360 + 82));
    assert!(has(&c, "Back", 402, 682));
    u.nav.view = AppView::Sound;
    let c = drawn(&u);
    assert!(has(&c, "Shuffle: Off", 66, 122));
    assert!(has(&c, "> Repeat Off", 240 + 66, 122));
    u.nav.view = AppView::Special;
    assert!(has(&drawn(&u), "> Durandal", 75, 122));
    u.nav.view = AppView::Settings;
    assert!(has(&drawn(&u), "> Sleep: 60 sec", 240 + 52, 122));
    u.nav.view = AppView::Diagnostics;
    u.play.state = PlaybackState::Playing;
    let c = drawn(&u);
    assert!(has(&c, "Wi-Fi: Connected", 48, 122));
    assert!(has(&c, "Spotify: Playing", 240 + 48, 122));
    assert!(has(&c, "Audio: Starting", 52, 302));
    assert!(has(&c, "Output: 3.5 mm", 240 + 57, 302));
    assert!(has(&c, "Queue: None", 70, 482));
    assert!(has(&c, "Refresh Status", 240 + 57, 482));
    u.times.diagnostics = Some(0);
    assert!(has(&drawn(&u), "Status Refreshed", 240 + 48, 482));
    assert!(view_is_menu(AppView::Special));
    assert!(!view_is_menu(AppView::UpNext));
}

#[test]
fn frames() {
    let mut u = ui();
    let full = draw_frame(&u, Frame::Full, &CHECKS, 0).shapes.len();
    let strip = draw_frame(&u, Frame::Strip, &CHECKS, 0);
    assert_eq!(strip.shapes.len(), 2);
    assert!(draw_frame(&u, Frame::Keepalive, &CHECKS, 0).shapes.is_empty());
    u.answer_volume(Some("OK vol 5"), 0);
    assert_eq!(draw_frame(&u, Frame::Full, &CHECKS, 0).shapes.len(), full + 3);
    assert!(has(&draw_frame(&u, Frame::Strip, &CHECKS, 0), "Volume 5%", 199, 598));
}

#[test]
fn fonts_of_labels() {
    let mut c = Canvas::new();
    c.label("x", 1, 2, Font::Large, 3);
    assert!(matches!(&c.shapes[0], Shape::Label { font: Font::Large, x: 1, y: 2, color: 3, .. }));
}

#[test]
fn pixels() {
    let mut p = Pixels::black();
    assert_eq!(p.bytes.len(), FRAME_BYTES);
    p.set_pixel(479, 719, 0x1234);
    assert_eq!(p.bytes[FRAME_BYTES - 2..], [0x34, 0x12]);
    p.set_pixel(1, 2, 0xabcd);
    assert_eq!(p.bytes[(2 * 480 + 1) * 2..(2 * 480 + 1) * 2 + 2], [0xcd, 0xab]);
    let before = p.bytes.clone();
    for (x, y) in [(-1, 0), (0, -1), (480, 0), (0, 720), (i32::MIN, i32::MAX)] {
        p.set_pixel(x, y, 0xffff);
    }
    assert_eq!(p.bytes, before);
    let solid = solid_frame(0x0102);
    assert_eq!(solid.len(), FRAME_BYTES);
    assert_eq!(solid[..4], [2, 1, 2, 1]);
    assert_eq!(frame_offset(1), 691_200);
}
