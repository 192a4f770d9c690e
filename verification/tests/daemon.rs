//! The daemon: commands, loads, events and browsing.
use spotui::daemon::browse::{
    collection_uri, context_track_ids, enrich_track_uris, lookups, playlist_cache_key, playlist_target,
    playlist_track_ids, sanitize_field, search_track_ids, Details,
};
use spotui::daemon::control::{split_command, Listing, Outcome};
use spotui::daemon::events::{AudioItem, Credits, Event, Reaction};
use spotui::daemon::load::{Act, LoadRequest, Reply};
use spotui::daemon::modes::{
    load_playback_modes, report_modes, save_playback_modes, PlaybackModes, RepeatMode, FIRST_SEED,
};
use spotui::daemon::order::{make_play_order, next_random};
use spotui::daemon::profile::{list_playlists, public_playlists};
use spotui::daemon::queue::{parse_page_request, PlaybackQueue, QueueSource};
use spotui::daemon::state::{Daemon, PlayState};
use spotui::daemon::volume::{louder, quieter, vol_level, vol_percent, START};
use spotui::media::{spotify_track_base62, MediaUri};

const A: &str = "4uLU6hMCjMI75M1A2tKUQC";
const B: &str = "0000000000000000000001";
const C: &str = "000000000000000000000A";

fn fresh() -> Daemon {
    Daemon::new(load_playback_modes(""))
}

fn say(d: &mut Daemon, line: &str) -> Outcome {
    d.command(line, 30000).unwrap()
}

fn reply(d: &mut Daemon, line: &str) -> Reply {
    match say(d, line) {
        Outcome::Answer(reply) => reply,
        _ => panic!("not answered: {}", line),
    }
}

fn text(d: &mut Daemon, line: &str) -> String {
    reply(d, line).text
}

fn request(d: &mut Daemon, line: &str) -> LoadRequest {
    match say(d, line) {
        Outcome::Queue(request) => request,
        _ => panic!("not queued: {}", line),
    }
}

fn id(base62: &str) -> u128 {
    librespot::core::SpotifyId::from_base62(base62).unwrap().id
}

fn strings(list: &[&str]) -> Vec<String> {
    list.iter().map(|s| s.to_string()).collect()
}

/// A daemon that plays the liked songs from the first one.
fn playing() -> Daemon {
    let mut d = fresh();
    let request = request(&mut d, &format!("LOAD_LIKED 5 {}", A));
    assert!(d.take_turn(&request).is_none());
    let reply = d.finish_load(&request, Ok(strings(&[A, B, C])));
    assert_eq!(reply.text, format!("OK loading liked 5 {}\n", A));
    assert!(matches!(reply.act, Act::Load(n) if n == id(A)));
    d
}

#[test]
fn the_generator_is_xorshift() {
    let mut seed = 1u64;
    assert_eq!(next_random(&mut seed), 0x40822041);
    assert_eq!(seed, 0x40822041);
}

#[test]
fn play_orders() {
    let mut seed = FIRST_SEED;
    assert_eq!(make_play_order(4, 2, false, &mut seed), vec![0, 1, 2, 3]);
    assert_eq!(seed, FIRST_SEED);
    let order = make_play_order(8, 3, true, &mut seed);
    assert_eq!(order[0], 3);
    let mut sorted = order.clone();
    sorted.sort();
    assert_eq!(sorted, (0..8).collect::<Vec<_>>());
    assert_ne!(seed, FIRST_SEED);
    assert_eq!(make_play_order(0, 0, true, &mut seed), vec![0]);
    // The swaps, done once more by hand.
    let mut seed = 77u64;
    let mut other = 77u64;
    let order = make_play_order(5, 4, true, &mut seed);
    let mut rest: Vec<usize> = vec![0, 1, 2, 3];
    for index in (1..rest.len()).rev() {
        let swap = (next_random(&mut other) as usize) % (index + 1);
        rest.swap(index, swap);
    }
    rest.insert(0, 4);
    assert_eq!(order, rest);
    assert_eq!(seed, other);
}

#[test]
fn modes_are_kept_and_loaded() {
    for shuffle in [true, false] {
        for repeat in [RepeatMode::Off, RepeatMode::All, RepeatMode::One] {
            let modes = PlaybackModes { shuffle, repeat, shuffle_seed: 9 };
            let loaded = load_playback_modes(&save_playback_modes(&modes));
            assert_eq!(loaded.shuffle, shuffle);
            assert_eq!(loaded.repeat, repeat);
            assert_eq!(loaded.shuffle_seed, FIRST_SEED);
        }
    }
    let modes = PlaybackModes { shuffle: true, repeat: RepeatMode::All, shuffle_seed: 9 };
    assert_eq!(save_playback_modes(&modes), "shuffle=on\nrepeat=all\n");
    assert_eq!(report_modes(&modes), "MODES SHUFFLE ON REPEAT ALL\n");
    let both = load_playback_modes("repeat=one\r\nrepeat=all");
    assert_eq!(both.repeat, RepeatMode::All);
    assert!(!load_playback_modes(" shuffle=on").shuffle);
}

#[test]
fn volume_levels() {
    assert_eq!(START, 52428);
    assert_eq!(vol_percent(0), 0);
    assert_eq!(vol_percent(65535), 100);
    assert_eq!(vol_percent(START), 80);
    assert_eq!(vol_level(50), 32767);
    assert_eq!(vol_level(100), 65535);
    assert_eq!(louder(65000), 65535);
    assert_eq!(louder(0), 3932);
    assert_eq!(quieter(3000), 0);
    assert_eq!(quieter(4000), 68);
}

#[test]
fn ids_and_uris() {
    assert_eq!(spotify_track_base62(&MediaUri::Track(id(A))), Some(A.to_string()));
    assert_eq!(spotify_track_base62(&MediaUri::Track(36)), Some(C.to_string()));
    assert_eq!(spotify_track_base62(&MediaUri::Playlist(1)), None);
    assert_eq!(playlist_target(B), Ok(MediaUri::Playlist(1)));
    assert_eq!(playlist_target(&format!("spotify:playlist:{}", A)), Ok(MediaUri::Playlist(id(A))));
    assert_eq!(playlist_target(&format!("spotify:track:{}", A)), Ok(MediaUri::Track(id(A))));
    assert_eq!(playlist_target(&format!("spotify:album:{}", A)), Ok(MediaUri::Other));
    assert_eq!(playlist_target(""), Err("empty playlist id".to_string()));
    assert_eq!(
        playlist_target("nonsense"),
        Err("bad playlist uri 'spotify:playlist:nonsense': Client specified an invalid argument { ID cannot be parsed }"
            .to_string())
    );
    let error = playlist_target("spotify:x").unwrap_err();
    assert!(error.starts_with("bad playlist uri 'spotify:x': "));
    assert_eq!(collection_uri("me"), "spotify:user:me:collection");
    assert_eq!(playlist_cache_key("spotify:playlist:abc"), "abc");
    assert_eq!(playlist_cache_key("abc"), "abc");
}

#[test]
fn command_lines_are_split() {
    assert_eq!(split_command("  load  x y \r"), Some(("load", "x y")));
    assert_eq!(split_command("PLAY"), Some(("PLAY", "")));
    assert_eq!(split_command("a\tb c"), Some(("a\tb", "c")));
    assert_eq!(split_command("  \t "), None);
    let mut d = fresh();
    assert!(d.command("   ", 1).is_none());
}

#[test]
fn simple_commands() {
    let mut d = fresh();
    let r = reply(&mut d, "play");
    assert_eq!(r.text, "OK play\n");
    assert!(matches!(r.act, Act::Play));
    let r = reply(&mut d, "PAUSE");
    assert_eq!(r.text, "OK pause\n");
    assert!(matches!(r.act, Act::Pause));
    let r = reply(&mut d, "Stop");
    assert_eq!(r.text, "OK stop\n");
    assert!(matches!(r.act, Act::Stop));
    let r = reply(&mut d, "quit");
    assert_eq!(r.text, "OK bye\n");
    assert!(matches!(r.act, Act::Quit));
    assert_eq!(text(&mut d, "status"), "STATUS STOPPED\n");
    assert_eq!(text(&mut d, "queue_status"), "QUEUE NONE\n");
    assert_eq!(text(&mut d, "queue_page 0 9"), "QUEUE_PAGE NONE\n");
    assert_eq!(text(&mut d, "now_playing"), "NOW_PLAYING NONE\n");
    assert_eq!(text(&mut d, "position"), "POSITION NONE\n");
    assert_eq!(text(&mut d, "playback_modes"), "MODES SHUFFLE OFF REPEAT OFF\n");
    assert_eq!(text(&mut d, "next"), "OK queue boundary\n");
    // Capitals of other scripts count as well.
    assert_eq!(text(&mut d, "stra\u{df}e x"), "ERR unknown command 'STRASSE'\n");
    assert!(matches!(say(&mut d, "liked"), Outcome::List(Listing::Liked)));
    assert!(matches!(say(&mut d, "playlists"), Outcome::Profile));
    assert!(matches!(say(&mut d, "playlist abc"), Outcome::List(Listing::Playlist(p)) if p == "abc"));
    assert!(matches!(say(&mut d, "search  a  b "), Outcome::List(Listing::Search(u)) if u == "spotify:search:a+b"));
    assert!(matches!(say(&mut d, "Search caf\u{e9}"), Outcome::List(Listing::Search(u)) if u == "spotify:search:caf\u{e9}"));
    assert_eq!(text(&mut d, "search"), "ERR empty query\n");
}

#[test]
fn volume_commands() {
    let mut d = fresh();
    let r = reply(&mut d, "VOL_UP");
    assert_eq!(r.text, "OK vol 51\n");
    assert!(matches!(r.act, Act::SetVolume(33932)));
    let r = reply(&mut d, "VOL_DOWN");
    assert_eq!(r.text, "OK vol 39\n");
    assert!(matches!(r.act, Act::SetVolume(26068)));
    let r = reply(&mut d, "SETVOL 50");
    assert_eq!(r.text, "OK vol 50\n");
    assert!(matches!(r.act, Act::SetVolume(32767)));
    assert_eq!(text(&mut d, "SETVOL 101"), "ERR SETVOL needs 0-100\n");
    assert_eq!(text(&mut d, "SETVOL x"), "ERR SETVOL needs 0-100\n");
    assert_eq!(text(&mut d, "GETVOL"), "VOL 45\n");
}

#[test]
fn load_of_one_track() {
    let mut d = playing();
    let r = reply(&mut d, &format!("LOAD {}", B));
    assert_eq!(r.text, format!("OK loading {}\n", B));
    assert!(matches!(r.act, Act::Load(1)));
    assert_eq!(text(&mut d, "QUEUE_STATUS"), "QUEUE NONE\n");
    let r = reply(&mut d, "LOAD nope");
    assert_eq!(
        r.text,
        "ERR bad track id 'nope': Client specified an invalid argument { ID cannot be parsed }\n"
    );
    assert!(matches!(r.act, Act::Nothing));
    // As many digits, but more than 128 bits.
    assert!(text(&mut d, "LOAD ZZZZZZZZZZZZZZZZZZZZZZ").starts_with("ERR bad track id"));
}

#[test]
fn load_from_the_liked_songs() {
    let mut d = playing();
    assert_eq!(text(&mut d, "QUEUE_STATUS"), format!("QUEUE LIKED 5 0 3 {}\n", A));
    // The list is known now.
    let r = request(&mut d, &format!("load_liked 6 {}", C));
    let answer = d.take_turn(&r).unwrap();
    assert_eq!(answer.text, format!("OK loading liked 6 {}\n", C));
    assert!(matches!(answer.act, Act::Load(36)));
    assert_eq!(text(&mut d, "QUEUE_STATUS"), format!("QUEUE LIKED 6 2 3 {}\n", C));
    // An older request is stale.
    assert_eq!(text(&mut d, &format!("LOAD_LIKED 4 {}", A)), "OK ignored stale request 4\n");
    // A request with an equal number is not.
    assert_eq!(request(&mut d, &format!("LOAD_LIKED 6 {}", A)).request_id, 6);
    for bad in ["LOAD_LIKED", "LOAD_LIKED x y", "LOAD_LIKED 1", "LOAD_LIKED 1 a b"] {
        assert_eq!(text(&mut d, bad), "ERR LOAD_LIKED needs request_id and track_id\n");
    }
}

#[test]
fn superseded_and_failed_loads() {
    let mut d = playing();
    let first = request(&mut d, &format!("LOAD_LIKED 7 {}", B));
    let second = request(&mut d, "LOAD_PLAYLIST 8 list 1111111111111111111111");
    assert_eq!(d.take_turn(&first).unwrap().text, "OK skipped superseded request 7\n");
    assert!(d.take_turn(&second).is_none());
    // What comes in late is remembered all the same.
    let late = d.finish_load(&first, Ok(strings(&[C])));
    assert_eq!(late.text, "OK skipped superseded request 7\n");
    assert_eq!(text(&mut d, "QUEUE_STATUS"), format!("QUEUE LIKED 5 0 3 {}\n", A));
    assert_eq!(d.cache.liked_track_ids, strings(&[C]));
    let failed = d.finish_load(&second, Err("gone".to_string()));
    assert_eq!(failed.text, "ERR playlist queue fetch failed: gone\n");
    let missing = d.finish_load(&second, Ok(strings(&[A])));
    assert_eq!(
        missing.text,
        "ERR track '1111111111111111111111' is not in playlist 'list'\n"
    );
    let third = request(&mut d, "LOAD_LIKED 9 zz");
    assert_eq!(d.finish_load(&third, Err("e".to_string())).text, "ERR liked queue fetch failed: e\n");
    assert_eq!(
        d.finish_load(&third, Ok(strings(&["x"]))).text,
        "ERR track 'zz' is not in Liked Songs\n"
    );
    assert!(d.finish_load(&third, Ok(strings(&["zz"]))).text.starts_with("ERR bad track id 'zz': "));
}

#[test]
fn load_from_a_playlist_and_a_search() {
    let mut d = fresh();
    let r = request(&mut d, &format!("LOAD_PLAYLIST 1 spotify:playlist:p1 {}", B));
    let answer = d.finish_load(&r, Ok(strings(&[A, B])));
    assert_eq!(answer.text, format!("OK loading playlist 1 spotify:playlist:p1 {}\n", B));
    assert_eq!(
        text(&mut d, "QUEUE_STATUS"),
        format!("QUEUE PLAYLIST 1 spotify:playlist:p1 1 2 {}\n", B)
    );
    assert_eq!(
        text(&mut d, "QUEUE_PAGE 0 9"),
        format!(
            "QUEUE_PAGE PLAYLIST:spotify:playlist:p1 1 1 2 0 2\nITEM 0 0 {}\nITEM 1 1 {}\n",
            A, B
        )
    );
    // The same playlist by its bare id needs no fetch.
    let r = request(&mut d, &format!("LOAD_PLAYLIST 2 p1 {}", A));
    assert!(d.take_turn(&r).is_some());
    assert_eq!(
        text(&mut d, "LOAD_PLAYLIST 1 p"),
        "ERR LOAD_PLAYLIST needs request_id, playlist_id, and track_id\n"
    );
    let r = request(&mut d, &format!("LOAD_SEARCH 3 {}", A));
    assert_eq!(
        d.take_turn(&r).unwrap().text,
        format!("ERR track '{}' is not in current search results\n", A)
    );
    assert!(d.list_fetched(&Listing::Search("u".to_string()), Ok(strings(&[A]))).is_ok());
    assert_eq!(d.take_turn(&r).unwrap().text, format!("OK loading search 3 {}\n", A));
    assert_eq!(text(&mut d, "QUEUE_STATUS"), format!("QUEUE SEARCH 3 0 1 {}\n", A));
    assert_eq!(
        text(&mut d, "LOAD_SEARCH a b"),
        "ERR LOAD_SEARCH needs request_id and track_id\n"
    );
}

#[test]
fn next_and_previous() {
    let mut d = playing();
    let r = reply(&mut d, "NEXT");
    assert_eq!(r.text, format!("OK loading next 1 {}\n", B));
    assert!(matches!(r.act, Act::Load(1)));
    assert_eq!(text(&mut d, "PREVIOUS"), format!("OK loading previous 0 {}\n", A));
    assert_eq!(text(&mut d, "PREVIOUS"), "OK queue boundary\n");
    text(&mut d, "SET_REPEAT all");
    assert_eq!(text(&mut d, "PREVIOUS"), format!("OK loading previous 2 {}\n", C));
    assert_eq!(text(&mut d, "NEXT"), format!("OK loading next 0 {}\n", A));
    // A queued id that is none stops there.
    let mut d = fresh();
    let r = request(&mut d, &format!("LOAD_LIKED 1 {}", A));
    d.finish_load(&r, Ok(strings(&[A, "bad"])));
    assert_eq!(
        text(&mut d, "NEXT"),
        "ERR bad queued track id 'bad': Client specified an invalid argument { ID cannot be parsed }\n"
    );
    assert_eq!(text(&mut d, "QUEUE_STATUS"), format!("QUEUE LIKED 1 0 2 {}\n", A));
}

#[test]
fn modes_by_command() {
    let mut d = playing();
    let r = reply(&mut d, "SET_SHUFFLE on");
    assert_eq!(r.text, "OK shuffle on\n");
    assert!(matches!(r.act, Act::SaveModes(t) if t == "shuffle=on\nrepeat=off\n"));
    assert_eq!(d.queue.play_order[0], 0);
    assert_eq!(d.queue.order_position, Some(0));
    text(&mut d, "NEXT");
    let playing_now = d.queue.current_index;
    let r = reply(&mut d, "SET_SHUFFLE OFF");
    assert_eq!(r.text, "OK shuffle off\n");
    assert_eq!(d.queue.play_order, vec![0, 1, 2]);
    assert_eq!(d.queue.current_index, playing_now);
    assert_eq!(d.queue.order_position, playing_now);
    let r = reply(&mut d, "SET_REPEAT One");
    assert_eq!(r.text, "OK repeat one\n");
    assert!(matches!(r.act, Act::SaveModes(t) if t == "shuffle=off\nrepeat=one\n"));
    assert_eq!(text(&mut d, "SET_SHUFFLE maybe"), "ERR SET_SHUFFLE needs ON or OFF\n");
    assert_eq!(text(&mut d, "SET_REPEAT"), "ERR SET_REPEAT needs OFF, ALL, or ONE\n");
    assert_eq!(text(&mut d, "PLAYBACK_MODES"), "MODES SHUFFLE OFF REPEAT ONE\n");
}

#[test]
fn pages_of_the_queue() {
    assert_eq!(parse_page_request("3 9"), Some((3, 9)));
    for bad in ["", "1", "1 0", "1 10", "a 1", "1 b", "1 2 3"] {
        assert_eq!(parse_page_request(bad), None);
    }
    let mut d = playing();
    assert_eq!(text(&mut d, "QUEUE_PAGE 1 1"), format!("QUEUE_PAGE LIKED 5 0 3 1 1\nITEM 1 1 {}\n", B));
    assert_eq!(text(&mut d, "QUEUE_PAGE 9 9"), "QUEUE_PAGE LIKED 5 0 3 3 0\n");
    assert_eq!(text(&mut d, "QUEUE_PAGE 0 0"), "ERR QUEUE_PAGE needs offset and limit 1-9\n");
    assert_eq!(PlaybackQueue::default().page(0, 9), "QUEUE_PAGE NONE\n");
}

fn item(uri: &str, name: &str, credits: Credits) -> Event {
    Event::TrackChanged(AudioItem {
        uri: uri.to_string(),
        name: name.to_string(),
        credits,
        duration_ms: 61000,
    })
}

#[test]
fn the_current_track_and_seeking() {
    let mut d = fresh();
    assert_eq!(text(&mut d, "SEEK 5"), "ERR no track loaded\n");
    assert_eq!(text(&mut d, "SEEK five"), "ERR SEEK needs milliseconds\n");
    let event = item(
        "spotify:track:abc",
        "A\tname\r\nhere",
        Credits::Track(strings(&["One", "Two"])),
    );
    assert_eq!(d.follow(&event), Reaction::Nothing);
    assert_eq!(text(&mut d, "NOW_PLAYING"), "NOW_PLAYING abc\tA name  here\tOne, Two\t61000\n");
    let r = reply(&mut d, "SEEK 70000");
    assert_eq!(r.text, "OK seek 61000\n");
    assert!(matches!(r.act, Act::Seek(61000)));
    assert_eq!(text(&mut d, "SEEK 10"), "OK seek 10\n");
    d.follow(&item("file", "n", Credits::Local(None)));
    assert_eq!(text(&mut d, "NOW_PLAYING"), "NOW_PLAYING file\tn\t\t61000\n");
    d.follow(&item("file", "n", Credits::Local(Some("X".to_string()))));
    assert_eq!(text(&mut d, "NOW_PLAYING"), "NOW_PLAYING file\tn\tX\t61000\n");
    d.follow(&item("a:b", "n", Credits::Episode("Show".to_string())));
    assert_eq!(text(&mut d, "NOW_PLAYING"), "NOW_PLAYING b\tn\tShow\t61000\n");
    d.follow(&Event::Stopped);
    assert_eq!(text(&mut d, "NOW_PLAYING"), "NOW_PLAYING NONE\n");
    assert_eq!(sanitize_field("a\tb\rc\nd"), "a b c d");
}

#[test]
fn events_set_state_and_position() {
    let mut d = fresh();
    d.follow(&Event::Loading(0));
    assert_eq!(text(&mut d, "STATUS"), "STATUS LOADING\n");
    assert_eq!(text(&mut d, "POSITION"), "POSITION 0\n");
    d.follow(&Event::Playing(10));
    assert_eq!(text(&mut d, "STATUS"), "STATUS PLAYING\n");
    d.follow(&Event::Moved(1234));
    assert_eq!(text(&mut d, "POSITION"), "POSITION 1234\n");
    assert_eq!(text(&mut d, "STATUS"), "STATUS PLAYING\n");
    d.follow(&Event::Paused(2000));
    assert_eq!(text(&mut d, "STATUS"), "STATUS PAUSED\n");
    d.follow(&Event::Other);
    assert_eq!(text(&mut d, "POSITION"), "POSITION 2000\n");
    d.follow(&Event::Stopped);
    assert_eq!(text(&mut d, "STATUS"), "STATUS STOPPED\n");
    assert_eq!(text(&mut d, "POSITION"), "POSITION NONE\n");
}

#[test]
fn the_end_of_a_track() {
    let mut d = playing();
    d.follow(&Event::Playing(1));
    // An end that is not that of the current track.
    assert_eq!(d.follow(&Event::EndOfTrack(MediaUri::Track(1))), Reaction::Nothing);
    assert_eq!(d.queue.current_index, Some(0));
    assert_eq!(d.state, PlayState::Stopped);
    d.follow(&Event::Playing(1));
    assert_eq!(d.follow(&Event::EndOfTrack(MediaUri::Track(id(A)))), Reaction::Load(1));
    // The state stays until the next track reports its own.
    assert_eq!(d.state, PlayState::Playing);
    assert_eq!(d.queue.current_index, Some(1));
    d.modes.repeat = RepeatMode::One;
    assert_eq!(d.follow(&Event::EndOfTrack(MediaUri::Track(1))), Reaction::Load(1));
    d.modes.repeat = RepeatMode::Off;
    assert_eq!(d.follow(&Event::EndOfTrack(MediaUri::Track(1))), Reaction::Load(36));
    assert_eq!(d.follow(&Event::EndOfTrack(MediaUri::Track(36))), Reaction::Nothing);
    assert_eq!(text(&mut d, "QUEUE_STATUS"), "QUEUE NONE\n");
    let mut d = playing();
    d.modes.repeat = RepeatMode::All;
    d.follow(&Event::EndOfTrack(MediaUri::Track(id(A))));
    d.follow(&Event::EndOfTrack(MediaUri::Track(1)));
    assert_eq!(d.follow(&Event::EndOfTrack(MediaUri::Track(36))), Reaction::Load(id(A)));
    assert_eq!(d.follow(&Event::EndOfTrack(MediaUri::Other)), Reaction::Nothing);
    // A next id that is none ends the queue.
    let mut d = fresh();
    let r = request(&mut d, &format!("LOAD_LIKED 1 {}", B));
    d.finish_load(&r, Ok(strings(&[B, "bad"])));
    assert_eq!(d.follow(&Event::EndOfTrack(MediaUri::Track(1))), Reaction::Nothing);
    assert_eq!(text(&mut d, "QUEUE_STATUS"), "QUEUE NONE\n");
}

#[test]
fn unavailable_tracks() {
    let mut d = playing();
    assert_eq!(d.follow(&Event::Unavailable), Reaction::Retry(id(A)));
    assert_eq!(text(&mut d, "STATUS"), "STATUS LOADING\n");
    d.follow(&Event::Playing(0));
    assert_eq!(d.follow(&Event::Unavailable), Reaction::Retry(id(A)));
    assert_eq!(d.follow(&Event::Unavailable), Reaction::Exit);
    assert_eq!(text(&mut d, "STATUS"), "STATUS ERROR\n");
    let mut d = fresh();
    assert_eq!(d.follow(&Event::Unavailable), Reaction::Stop);
    assert_eq!(text(&mut d, "STATUS"), "STATUS STOPPED\n");
    assert_eq!(d.unavailable, 1);
}

#[test]
fn tracks_of_a_context() {
    let uri = |s: &str| Some(s.to_string());
    let pages = vec![
        vec![None, uri("spotify:episode:x")],
        vec![uri("spotify:track:a"), None, uri("spotify:track:b")],
        vec![uri("spotify:track:c")],
    ];
    assert_eq!(search_track_ids(Ok(pages.clone())), Ok(strings(&[])));
    assert_eq!(search_track_ids(Ok(pages[1..].to_vec())), Ok(strings(&["a", "b"])));
    assert_eq!(search_track_ids(Ok(vec![])), Ok(vec![]));
    assert_eq!(search_track_ids(Err("e".to_string())), Err("context failed: e".to_string()));
    assert_eq!(context_track_ids(Ok(pages)), Ok(strings(&["a", "b"])));
    assert_eq!(context_track_ids(Ok(vec![])), Ok(vec![]));
    assert_eq!(context_track_ids(Err("e".to_string())), Err("context failed: e".to_string()));
    let long: Vec<Option<String>> = (0..70).map(|n| Some(format!("spotify:track:{}", n))).collect();
    assert_eq!(search_track_ids(Ok(vec![long.clone()])).unwrap().len(), 50);
    let ids = context_track_ids(Ok(vec![long])).unwrap();
    assert_eq!(ids.len(), 50);
    assert_eq!(ids[49], "49");
}

#[test]
fn tracks_of_a_playlist() {
    let items = vec![MediaUri::Track(1), MediaUri::Other, MediaUri::Playlist(2), MediaUri::Track(36)];
    assert_eq!(playlist_track_ids(Ok(items)), Ok(strings(&[B, C])));
    assert_eq!(
        playlist_track_ids(Err("e".to_string())),
        Err("playlist fetch failed: e".to_string())
    );
    let long: Vec<MediaUri> = (0..60).map(MediaUri::Track).collect();
    assert_eq!(playlist_track_ids(Ok(long)).unwrap().len(), 50);
}

#[test]
fn lists_are_remembered_and_shown() {
    let mut d = fresh();
    let wanted = d.list_fetched(&Listing::Liked, Ok(strings(&[A, "bad", &format!("x:{}", B)]))).unwrap();
    assert_eq!(wanted.len(), 2);
    assert_eq!(wanted[0].base62, A);
    assert_eq!(wanted[1].base62, B);
    assert_eq!(wanted[1].id, 1);
    let found = vec![
        Some(Details { name: "Song".to_string(), artists: strings(&["X", "Y"]) }),
        None,
    ];
    assert_eq!(
        enrich_track_uris(&wanted, &found),
        format!("RESULT {}\tSong\tX, Y\nRESULT {}\t(unknown)\t\nEND 2\n", A, B)
    );
    assert_eq!(enrich_track_uris(&lookups(&vec![]), &vec![]), "END 0\n");
    let error = d.list_fetched(&Listing::Liked, Err("e".to_string()));
    assert_eq!(error.err(), Some("ERR liked fetch failed: e\n".to_string()));
    let error = d.list_fetched(&Listing::Playlist("p".to_string()), Err("e".to_string()));
    assert_eq!(error.err(), Some("ERR e\n".to_string()));
    assert!(d.list_fetched(&Listing::Playlist("p".to_string()), Ok(strings(&[A]))).is_ok());
    assert_eq!(d.cache.playlist("p"), strings(&[A]));
    assert_eq!(d.cache.playlist("q"), strings(&[]));
}

#[test]
fn playlists_of_a_profile() {
    let json = r#"{"public_playlists": [
        {"uri": "spotify:playlist:p1", "name": "One\ttwo", "owner_name": "me"},
        {"uri": "spotify:album:x", "name": "no"},
        {"name": "no uri"},
        {"uri": "spotify:playlist:p2"}
    ]}"#;
    let expected = "PLAYLIST p1\tOne two\tme\nPLAYLIST p2\tUntitled Playlist\t\nEND 2\n";
    assert_eq!(public_playlists(Ok(json.as_bytes().to_vec())), expected);
    let value: serde_json::Value = serde_json::from_str(json).unwrap();
    assert_eq!(list_playlists(&value), expected);
    assert_eq!(
        public_playlists(Ok(b"{}".to_vec())),
        "ERR profile has no public_playlists field\n"
    );
    assert_eq!(
        public_playlists(Ok(b"{\"public_playlists\": 3}".to_vec())),
        "ERR profile has no public_playlists field\n"
    );
    assert_eq!(
        public_playlists(Ok(b"[1".to_vec())),
        "ERR playlist profile parse failed: EOF while parsing a list at line 1 column 2\n"
    );
    assert_eq!(
        public_playlists(Err("e".to_string())),
        "ERR playlist profile fetch failed: e\n"
    );
    let many: Vec<String> =
        (0..120).map(|n| format!("{{\"uri\": \"spotify:playlist:{}\"}}", n)).collect();
    let many = format!("{{\"public_playlists\": [{}]}}", many.join(","));
    assert!(public_playlists(Ok(many.into_bytes())).ends_with("END 100\n"));
}

#[test]
fn requests_in_order() {
    let mut d = fresh();
    assert!(d.register_load_request(4));
    assert!(!d.register_load_request(3));
    assert!(d.load_request_is_current(4));
    assert!(d.register_load_request(9));
    assert!(!d.load_request_is_current(4));
    assert!(matches!(QueueSource::Liked.copy(), QueueSource::Liked));
}
