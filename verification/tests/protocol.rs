//! The daemon and the interface talking to each other.
use spotui::daemon::browse::{enrich_track_uris, lookups, Details};
use spotui::daemon::control::Outcome;
use spotui::daemon::events::{AudioItem, Credits, Event};
use spotui::daemon::modes::load_playback_modes;
use spotui::daemon::order::next_random;
use spotui::daemon::profile::public_playlists;
use spotui::daemon::queue::QueueSource;
use spotui::daemon::state::Daemon;
use spotui::daemon::volume::{vol_level, vol_percent};
use spotui::media::MediaUri;
use spotui::ui::answers::write_page_command;
use spotui::ui::replies::{
    daemon_now_playing, daemon_playback_modes, daemon_playback_position, daemon_playlist_query,
    daemon_query, daemon_queue_page, daemon_queue_status, decode_reply, parse_volume_reply,
    playlist_list_is_complete, track_list_is_complete, Listed, PlaybackState, ShownModes,
};
use spotui::ui::settings::Theme;
use spotui::ui::state::Ui;

const A: &str = "4uLU6hMCjMI75M1A2tKUQC";
const B: &str = "0000000000000000000001";
const C: &str = "000000000000000000000A";

fn ask(d: &mut Daemon, line: &str) -> String {
    match d.command(line, 40000) {
        Some(Outcome::Answer(reply)) => decode_reply(reply.text.as_bytes()).unwrap(),
        _ => panic!("not answered: {}", line),
    }
}

fn playing(source: &str) -> Daemon {
    let mut d = Daemon::new(load_playback_modes(""));
    let request = match d.command(&format!("{} {}", source, B), 0) {
        Some(Outcome::Queue(request)) => request,
        _ => panic!("not queued"),
    };
    let ids = vec![A.to_string(), B.to_string(), C.to_string()];
    d.finish_load(&request, Ok(ids));
    d
}

#[test]
fn answers_are_understood() {
    let mut d = playing("LOAD_LIKED 12");
    let status = daemon_queue_status(&ask(&mut d, "QUEUE_STATUS")).unwrap().unwrap();
    assert!(matches!(status.source, QueueSource::Liked));
    assert_eq!((status.request_id, status.index, status.length), (12, 1, 3));
    assert_eq!(status.track_id, B);
    let mut d = playing("LOAD_PLAYLIST 13 list");
    let status = daemon_queue_status(&ask(&mut d, "QUEUE_STATUS")).unwrap().unwrap();
    assert!(matches!(status.source, QueueSource::Playlist(id) if id == "list"));
    let page = daemon_queue_page(&ask(&mut d, &write_page_command(1))).unwrap().unwrap();
    assert!(matches!(page.source, QueueSource::Playlist(id) if id == "list"));
    assert_eq!((page.current_position, page.total, page.start), (1, 3, 1));
    assert_eq!(page.items.len(), 2);
    assert_eq!(page.items[0].track_id, B);
    let empty = daemon_queue_page(&ask(&mut d, &write_page_command(7))).unwrap().unwrap();
    assert_eq!((empty.start, empty.items.len()), (3, 0));
    d.follow(&Event::Paused(77));
    assert_eq!(
        PlaybackState::from_status_reply(&ask(&mut d, "STATUS")),
        Some(PlaybackState::Paused)
    );
    assert_eq!(daemon_playback_position(&ask(&mut d, "POSITION")), Some(Some(77)));
    ask(&mut d, "SET_SHUFFLE ON");
    let modes = daemon_playback_modes(&ask(&mut d, "PLAYBACK_MODES")).unwrap();
    assert!(modes.shuffle);
    assert_eq!(parse_volume_reply(&ask(&mut d, "SETVOL 33")), Some(33));
    d.follow(&Event::TrackChanged(AudioItem {
        uri: format!("spotify:track:{}", A),
        name: " A\tname ".to_string(),
        credits: Credits::Track(vec!["x".to_string()]),
        duration_ms: 9,
    }));
    let item = daemon_now_playing(&ask(&mut d, "NOW_PLAYING")).unwrap().unwrap();
    assert_eq!((item.id.as_str(), item.title.as_str(), item.artist.as_str()), (A, "A name", "x"));
    d.follow(&Event::EndOfTrack(MediaUri::Other));
    assert!(matches!(daemon_now_playing(&ask(&mut d, "NOW_PLAYING")), Some(None)));
    ask(&mut d, "STOP");
    assert!(matches!(daemon_queue_status(&ask(&mut d, "QUEUE_STATUS")), Some(None)));
    assert!(matches!(daemon_queue_page(&ask(&mut d, "QUEUE_PAGE 0 9")), Some(None)));
}

#[test]
fn pages_follow_each_other() {
    let mut d = playing("LOAD_LIKED 1");
    let items = |text: String| -> Vec<String> {
        text.lines().skip(1).map(|line| line.to_string()).collect()
    };
    let mut split = items(ask(&mut d, "QUEUE_PAGE 0 2"));
    split.extend(items(ask(&mut d, "QUEUE_PAGE 2 9")));
    assert_eq!(split, items(ask(&mut d, "QUEUE_PAGE 0 9")));
}

#[test]
fn lists_are_understood() {
    let wanted = lookups(&vec![A.to_string(), B.to_string()]);
    let found = vec![
        Some(Details { name: " Song ".to_string(), artists: vec!["X".to_string(), "Y\r".to_string()] }),
        None,
    ];
    let text = enrich_track_uris(&wanted, &found);
    assert!(track_list_is_complete(&text));
    let tracks = daemon_query(&text);
    assert_eq!(tracks.len(), 2);
    assert_eq!((tracks[0].id.as_str(), tracks[0].name.as_str()), (A, "Song"));
    assert_eq!(tracks[0].by, "X, Y");
    assert_eq!(tracks[1].name, "(unknown)");
    let profile = r#"{"public_playlists": [{"uri": "spotify:playlist:p", "name": "N\n", "owner_name": "o"},
        {"uri": "spotify:playlist: "}]}"#;
    let text = public_playlists(Ok(profile.as_bytes().to_vec()));
    assert!(playlist_list_is_complete(&text));
    let playlists = daemon_playlist_query(&text);
    assert_eq!(playlists.len(), 1);
    assert_eq!((playlists[0].id.as_str(), playlists[0].name.as_str()), ("p", "N"));
}

#[test]
fn a_tap_becomes_a_queue() {
    let list = vec![
        Listed { id: A.to_string(), name: "a".to_string(), by: String::new() },
        Listed { id: B.to_string(), name: "b".to_string(), by: String::new() },
    ];
    let mut u = Ui::start(
        list, vec![], None, true, Theme::AlNoor, 0, 0, ShownModes::default(), 41, None, None, None, None, 0,
    );
    u.device.y = 105;
    u.touch(0);
    let command = u.dispatch_load(1_000_000_000).unwrap();
    let mut d = Daemon::new(load_playback_modes(""));
    let request = match d.command(&command, 0) {
        Some(Outcome::Queue(request)) => request,
        _ => panic!("not queued"),
    };
    assert_eq!((request.request_id, request.track_id.as_str()), (41, B));
    d.finish_load(&request, Ok(vec![A.to_string(), B.to_string()]));
    assert!(u.pending_selection.is_some());
    u.poll_queue(Some(&ask(&mut d, "QUEUE_STATUS")), 1_000_000_000);
    assert!(u.pending_selection.is_none());
    assert_eq!(u.nav.selected, Some(1));
}

#[test]
fn volumes_read_back() {
    for percent in 0..=100u32 {
        let read = vol_percent(vol_level(percent));
        assert!(read == percent || read + 1 == percent);
    }
    assert_eq!(vol_percent(vol_level(100)), 100);
    let mut last = 0;
    for level in (0..=65535u16).step_by(97) {
        assert!(vol_percent(level) >= last);
        last = vol_percent(level);
    }
}

#[test]
fn the_generator_does_not_stick() {
    for start in [1u64, 2, u64::MAX, 0x8000_0000_0000_0000] {
        let mut seed = start;
        for _ in 0..1000 {
            assert_ne!(next_random(&mut seed), 0);
        }
    }
}
