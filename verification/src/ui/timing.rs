//! Laws of time and of the daemon's answers: when things are due, how long they last, and
//! what is shown afterwards.
use crate::text::{decimal, lemma_place, lines, trimmed};
use crate::ui::answers::{
    power_event, screen_event, volume_event, InputEvent, first_page_answered, page_answered,
    page_of_answer, playlist_answered, playlists_answered, step_answered, up_next_opened,
    volume_answered,
};
use crate::ui::labels::StartupStage;
use crate::ui::replies::{all_listed_in, ListedView, PlaybackState, ShownModes, StatusView};
use crate::ui::screen::{frame_shapes, popup, screen, Checks};
use crate::ui::settings::Theme;
use crate::ui::state::{Times, started_ui, notice, AppView, Device, PendingView, UiView};
use crate::ui::tick::{
    ambient, battery_due, brightness_settled, device_polled, diagnostics_expired, found_in,
    frame_due, ids, jack_polled, is_awaited, queue_known, jack_due, library_due, load_dispatched,
    memory_due, page_polled, page_shown, popup_expired, position_polled, retry_noted, rows_marked,
    search_answered, slept, startup_answered, state_polled, status_due, storage_due, track_polled,
    waiting, Frame,
};
use crate::ui::touch::{
    big_view_touched, content_touched, header_touched, history_touched, keyboard_touched,
    liked_touched, playlist_touched, playlist_track_touched, result_touched, strip_touched,
    tile_touched, toolbar_touched, shown_playlist_id, touched, EffectView,
};
use vstd::prelude::*;

verus! {

/// What is done every so often is due exactly when that time has passed, and not again
/// before it has passed once more: the daemon is asked every second, the jacks are looked at
/// four times a second, the battery, the space and the memory twice a minute, and the
/// library, until it is there, every two seconds.
pub proof fn polls_are_due_in_time(u: UiView, now: u64)
    ensures
        now >= u.times.status ==> (status_due(u, now).1 <==> now - u.times.status
            >= 1_000_000_000),
        status_due(u, now).1 ==> !status_due(status_due(u, now).0, now).1,
        now >= u.times.jack ==> (jack_due(u, now).1 <==> now - u.times.jack >= 250_000_000),
        jack_due(u, now).1 ==> !jack_due(jack_due(u, now).0, now).1,
        now >= u.times.battery ==> (battery_due(u, now).1 <==> now - u.times.battery
            >= 30_000_000_000),
        battery_due(u, now).1 ==> !battery_due(battery_due(u, now).0, now).1,
        now >= u.times.storage ==> (storage_due(u, now).1 <==> now - u.times.storage
            >= 30_000_000_000),
        storage_due(u, now).1 ==> !storage_due(storage_due(u, now).0, now).1,
        now >= u.times.memory ==> (memory_due(u, now).1 <==> now - u.times.memory
            >= 30_000_000_000),
        memory_due(u, now).1 ==> !memory_due(memory_due(u, now).0, now).1,
        now >= u.times.liked_retry ==> (library_due(u, now).1 <==> !u.device.tracks_loaded && now
            - u.times.liked_retry >= 2_000_000_000),
        library_due(u, now).1 ==> !library_due(library_due(u, now).0, now).1,
{
}

/// The brightness that was kept is set once, two seconds after the start.
pub proof fn brightness_is_restored_once(u: UiView, now: u64, later: u64)
    requires
        now >= u.times.start,
    ensures
        brightness_settled(u, now).1 <==> !u.device.brightness_applied && now - u.times.start
            >= 2_000_000_000,
        brightness_settled(u, now).1 ==> !brightness_settled(brightness_settled(u, now).0, later).1,
        brightness_settled(u, now).0.device.brightness == u.device.brightness,
{
}

/// A tap is sent 600 milliseconds after it, and no earlier.
pub proof fn tap_is_sent_in_time(u: UiView, now: u64)
    requires
        u.pending_load is Some,
        now >= u.pending_load->0.started,
    ensures
        load_dispatched(u, now).1 == if now - u.pending_load->0.started >= 600_000_000 {
            Some(u.pending_load->0.command)
        } else {
            None
        },
        load_dispatched(u, now).1 is Some ==> load_dispatched(u, now).0.pending_load is None,
        load_dispatched(u, now).1 is None ==> load_dispatched(u, now).0 == u,
        load_dispatched(u, now).0.pending_selection == u.pending_selection,
{
}

/// The volume indicator shows the percentage that was answered, for 1.8 seconds.
pub proof fn volume_shows_for_a_while(u: UiView, percent: u8, then: u64, now: u64)
    requires
        percent <= 100,
        then <= now,
    ensures
        ({
            let reply = trimmed("OK vol "@ + decimal(percent as nat) + "\n"@);
            let shown = volume_answered(u, Some(reply), then);
            &&& shown.play.volume_popup is Some
            &&& shown.play.volume_popup->0.percent == percent
            &&& shown.device.strip_dirty
            &&& shown.nav == u.nav
            &&& popup(shown).len() == 3
            &&& popup(shown)[2] is Label
            &&& popup(shown)[2]->text == "Volume "@ + decimal(percent as nat) + "%"@
            &&& popup_expired(shown, now).play.volume_popup is Some <==> now - then < 1_800_000_000
            &&& now - then >= 1_800_000_000 ==> popup(popup_expired(shown, now)).len() == 0
                && popup_expired(shown, now).device.strip_dirty
        }),
{
    crate::protocol::volume_answer_reads_back(percent);
}

/// The notes that a retry was asked for and that the diagnostics are fresh go away after a
/// second and a half.
pub proof fn notes_go_away_in_time(u: UiView, now: u64)
    ensures
        u.times.retry is Some && now >= u.times.retry->0 ==> (retry_noted(u, now).times.retry is None
            <==> now - u.times.retry->0 >= 1_500_000_000),
        u.times.diagnostics is Some && now >= u.times.diagnostics->0 ==> (diagnostics_expired(
            u,
            now,
        ).times.diagnostics is None <==> now - u.times.diagnostics->0 >= 1_500_000_000),
        retry_noted(u, now).nav == u.nav,
        diagnostics_expired(u, now).nav == u.nav,
        u.times.retry is Some && retry_noted(u, now).times.retry is None ==> retry_noted(
            u,
            now,
        ).device.dirty,
        u.times.diagnostics is Some && diagnostics_expired(u, now).times.diagnostics is None
            ==> diagnostics_expired(u, now).device.dirty,
{
}

/// The screen sleeps exactly when the time that was chosen has passed since the last touch
/// and the device has started: 30 seconds, 1, 2 or 5 minutes, or never.
pub proof fn screen_sleeps_in_time(u: UiView, now: u64)
    requires
        now >= u.times.input,
        !u.device.asleep,
        u.device.stage is None,
        u.device.sleep < 5,
    ensures
        slept(u, now).1 <==> {
            let idle = now - u.times.input;
            ||| u.device.sleep == 0 && idle >= 30_000_000_000
            ||| u.device.sleep == 1 && idle >= 60_000_000_000
            ||| u.device.sleep == 2 && idle >= 120_000_000_000
            ||| u.device.sleep == 3 && idle >= 300_000_000_000
        },
        slept(u, now).1 <==> slept(u, now).0.device.asleep,
        slept(u, now).0.nav == u.nav,
        slept(u, now).0.play == u.play,
{
}

/// The background moves once a second, by one frame, while nothing was touched for two
/// seconds and nothing loads.
pub proof fn background_moves_in_time(u: UiView, now: u64)
    requires
        now >= u.times.input,
        now >= u.times.ambient,
    ensures
        ({
            let moves = u.device.theme != Theme::DurandalTerminal && u.pending_load is None
                && u.pending_selection is None && u.play.state != PlaybackState::Loading && now
                - u.times.input >= 2_000_000_000 && now - u.times.ambient >= 1_000_000_000;
            let after = ambient(u, now);
            &&& moves ==> after.device.dirty && after.times.ambient == now && (u.device.frame
                < u32::MAX ==> after.device.frame == u.device.frame + 1) && ambient(after, now) == after
            &&& !moves ==> after == u
            &&& after.nav == u.nav
            &&& after.play == u.play
        }),
{
}

/// What has changed is drawn at the next chance, as a whole or the strip alone, and then
/// is drawn no more; between changes the picture is only kept alive.
pub proof fn changes_are_drawn_once(u: UiView, now: u64, keepalive_ms: u64)
    requires
        !u.device.asleep,
        now >= u.times.flush,
    ensures
        ({
            let (after, frame) = frame_due(u, now, keepalive_ms);
            let whole = u.nav.view == AppView::NowPlaying && u.device.strip_dirty;
            &&& frame == Frame::Full <==> u.device.dirty || whole
            &&& frame == Frame::Strip <==> u.device.strip_dirty && !u.device.dirty && !whole
            &&& frame == Frame::Keepalive <==> !u.device.dirty && !u.device.strip_dirty && (now
                - u.times.flush) / 1_000_000 >= keepalive_ms
            &&& frame != Frame::Nothing ==> !after.device.dirty && !after.device.strip_dirty
                && after.times.flush == now
            &&& frame == Frame::Nothing ==> after == u
            &&& after.nav == u.nav
            &&& after.play == u.play
        }),
{
}

/// A frame of the whole screen draws it with the volume indicator on top, where there is
/// one.
pub proof fn full_frame_draws_the_screen(u: UiView, checks: Checks, now: u64)
    ensures
        frame_shapes(u, Frame::Full, checks, now) == screen(u, checks, now) + popup(u),
        u.play.volume_popup is None ==> popup(u).len() == 0,
        frame_shapes(u, Frame::Nothing, checks, now).len() == 0,
        frame_shapes(u, Frame::Keepalive, checks, now).len() == 0,
{
}

/// The row that is marked holds the track that plays, if the list holds it at all, and it
/// is the row that the queue gives where that one holds it.
pub proof fn found_row_holds_the_track(list: Seq<ListedView>, index: usize, track: Seq<char>, i: int)
    requires
        list.len() <= usize::MAX,
    ensures
        match found_in(list, index, track) {
            Some(row) => row < list.len() && list[row as int].id == track,
            None => 0 <= i < list.len() ==> list[i].id != track,
        },
        index < list.len() && list[index as int].id == track ==> found_in(list, index, track) == Some(
            index,
        ),
{
    lemma_place(ids(list), track);
    if found_in(list, index, track) is None && 0 <= i < list.len() && list[i].id == track {
        assert(ids(list)[i] == track);
        assert(ids(list).contains(track));
    }
}

/// The track that plays is marked in the list that it comes from and in no other: in the
/// liked songs, in the search results, or in the playlist if that one is shown.
pub proof fn playing_track_is_marked_in_its_list(u: UiView, status: StatusView)
    ensures
        ({
            let after = rows_marked(u, Some(status));
            let found = |list: Seq<ListedView>| found_in(list, status.index, status.track_id);
            &&& after.queue_status == Some(status)
            &&& after.nav.view == u.nav.view
            &&& after.nav.selected == if status.source is Liked {
                found(u.items)
            } else {
                None
            }
            &&& after.nav.search_selected == if status.source is Search {
                found(u.search_results)
            } else {
                None
            }
            &&& after.nav.playlist_track_selected == if status.source is Playlist
                && shown_playlist_id(u) == Some(status.source->Playlist_0) {
                found(u.playlist_tracks)
            } else {
                None
            }
            &&& after.nav.playlist_selected == u.nav.playlist_selected
            &&& (after.nav.selected != u.nav.selected || after.nav.search_selected
                != u.nav.search_selected || after.nav.playlist_track_selected
                != u.nav.playlist_track_selected) ==> after.device.dirty
        }),
        rows_marked(u, None).nav.selected is None,
        rows_marked(u, None).nav.search_selected is None,
        rows_marked(u, None).nav.playlist_track_selected is None,
        rows_marked(u, None).queue_status is None,
{
}

/// A tapped track is waited for three seconds at most.
pub proof fn tap_is_waited_for_in_time(pending: PendingView, now: u64)
    requires
        now >= pending.started,
    ensures
        waiting(Some(pending), now) == if now - pending.started >= 3_000_000_000 {
            None
        } else {
            Some(pending)
        },
{
}

/// The state that the daemon tells is the one that is known, and a change of it is drawn.
pub proof fn told_state_is_known(u: UiView, reply: Seq<char>)
    requires
        crate::ui::replies::status_in(reply) is Some,
    ensures
        state_polled(u, Some(reply)).play.state == crate::ui::replies::status_in(reply)->0,
        state_polled(u, Some(reply)).play.failures == 0,
        state_polled(u, Some(reply)).play.state != u.play.state ==> state_polled(
            u,
            Some(reply),
        ).device.dirty,
        state_polled(u, Some(reply)).now_playing == u.now_playing,
        state_polled(u, Some(reply)).play.position == u.play.position,
{
}

/// The track and the position that the daemon tells are the ones that are known, and a
/// change of them draws the strip; an answer that makes no sense changes nothing.
pub proof fn told_track_and_position_are_known(u: UiView, reply: Seq<char>)
    ensures
        match crate::ui::replies::now_playing_in(reply) {
            Some(item) => track_polled(u, Some(reply)).now_playing == item && (item != u.now_playing
                ==> track_polled(u, Some(reply)).device.strip_dirty),
            None => track_polled(u, Some(reply)) == u,
        },
        match crate::ui::replies::position_in(reply) {
            Some(position) => position_polled(u, Some(reply)).play.position == position && (position
                != u.play.position ==> position_polled(u, Some(reply)).device.strip_dirty),
            None => position_polled(u, Some(reply)) == u,
        },
        track_polled(u, None) == u,
        position_polled(u, None) == u,
        track_polled(u, Some(reply)).nav == u.nav,
        position_polled(u, Some(reply)).nav == u.nav,
{
}

/// A step that loads shows the next track as loading from its start; one that does not
/// changes nothing.
pub proof fn loading_step_is_shown(u: UiView, rest: Seq<char>)
    ensures
        step_answered(u, Some("OK loading "@ + rest)).play.state == PlaybackState::Loading,
        step_answered(u, Some("OK loading "@ + rest)).play.position == Some(0u32),
        step_answered(u, Some("OK loading "@ + rest)).device.dirty,
        step_answered(u, Some("OK queue boundary"@)) == u,
        step_answered(u, None) == u,
{
    reveal_strlit("OK loading ");
    reveal_strlit("OK queue boundary");
    let text = "OK loading "@ + rest;
    assert(text.subrange(0, 11) =~= "OK loading "@);
    let other = "OK queue boundary"@;
    assert(other.subrange(0, 11)[3] == 'q');
    assert("OK loading "@[3] == 'l');
}

/// The results of a search are shown from the first one, in the order in which they came,
/// or a notice that there are none; the search comes first among the recent ones.
pub proof fn search_shows_its_results(u: UiView, text: Seq<char>)
    requires
        u.nav.search_in_progress,
    ensures
        ({
            let after = search_answered(u, text).0;
            let found = all_listed_in(lines(text), "RESULT "@);
            &&& after.nav.view == AppView::SearchResults
            &&& !after.nav.search_in_progress
            &&& after.nav.search_scroll == 0
            &&& after.nav.search_selected is None
            &&& found.len() > 0 ==> after.search_results == found
            &&& found.len() == 0 ==> after.search_results.len() == 1 && after.search_results[0].id.len()
                == 0 && after.search_results[0].name == "No search results"@
            &&& trimmed(u.query).len() > 0 ==> after.recent.len() > 0 && after.recent[0] == trimmed(
                u.query,
            )
            &&& after.items == u.items
            &&& after.playlist_tracks == u.playlist_tracks
            &&& after.device.dirty
        }),
{
}

/// A cancelled search, or none, shows nothing when results come.
pub proof fn cancelled_search_shows_nothing(u: UiView, text: Seq<char>)
    requires
        !u.nav.search_in_progress,
    ensures
        search_answered(u, text) == (u, None::<Seq<char>>),
{
}

/// Playlists and their tracks are shown from the first one, in the order in which they
/// came, or a notice that there are none.
pub proof fn playlists_are_shown(u: UiView, text: Seq<char>)
    ensures
        ({
            let after = playlists_answered(u, text);
            let found = all_listed_in(lines(text), "PLAYLIST "@);
            &&& after.nav.view == AppView::Playlists
            &&& after.nav.playlist_scroll == 0
            &&& after.nav.playlist_selected is None
            &&& found.len() > 0 ==> after.playlists == found
            &&& found.len() == 0 ==> after.playlists == notice("No playlists found"@)
            &&& after.items == u.items
            &&& after.device.dirty
        }),
        ({
            let after = playlist_answered(u, text);
            let found = all_listed_in(lines(text), "RESULT "@);
            &&& after.nav.view == AppView::PlaylistTracks
            &&& after.nav.playlist_track_scroll == 0
            &&& after.nav.playlist_track_selected is None
            &&& after.nav.playlist_selected == u.nav.playlist_selected
            &&& found.len() > 0 ==> after.playlist_tracks == found
            &&& found.len() == 0 ==> after.playlist_tracks == notice("No tracks found"@)
            &&& after.items == u.items
            &&& after.playlists == u.playlists
            &&& after.device.dirty
        }),
        notice(text).len() == 1,
        notice(text)[0].name == text,
        notice(text)[0].id.len() == 0,
{
}

/// The play order opens at the page with the track that plays: either the first page holds
/// it, or the page that is asked for next starts at most eight turns before it.
pub proof fn play_order_opens_at_the_current_track(u: UiView, reply: Seq<char>)
    requires
        page_of_answer(Some(reply)) matches Some(Some(page)) && page.current_position < page.total,
    ensures
        ({
            let page = page_of_answer(Some(reply))->0->0;
            let (after, ask) = first_page_answered(u, Some(reply));
            let at = page.current_position as int;
            match ask {
                Some(offset) => offset <= at < offset + 9 && offset % 9 == 0 && offset > 0
                    && after.nav.up_next_offset == offset,
                None => at < 9 && after.page == Some(page) && after.nav.view == AppView::UpNext
                    && after.nav.up_next_offset == 0,
            }
        }),
        up_next_opened(u, page_of_answer(Some(reply))->0).nav.view == AppView::UpNext,
        up_next_opened(u, page_of_answer(Some(reply))->0).page == page_of_answer(Some(reply))->0,
{
}

/// The page that is shown follows the track that plays: while the track is on it, it is
/// shown anew; when the track has left it, the page that holds it is asked for.
pub proof fn shown_page_follows_the_track(u: UiView, reply: Seq<char>)
    requires
        page_of_answer(Some(reply)) matches Some(Some(page)) && page.current_position < page.total,
    ensures
        ({
            let page = page_of_answer(Some(reply))->0->0;
            let (after, ask) = page_polled(u, Some(reply));
            let at = page.current_position as int;
            let on = page.start <= at < page.start + page.items.len();
            &&& on ==> ask is None && after.page == Some(page) && (u.page != Some(page)
                ==> after.device.dirty)
            &&& !on ==> ask is Some && ask->0 <= at < ask->0 + 9 && after.nav.up_next_offset
                == ask->0 && after.page == u.page
        }),
        page_polled(u, None) == (u, None::<usize>),
        page_shown(u, page_of_answer(Some(reply))->0).page == page_of_answer(Some(reply))->0,
        page_answered(u, Some(reply)).page == page_of_answer(Some(reply))->0,
        page_answered(u, Some(reply)).device.dirty,
        page_answered(u, None) == u,
{
}

/// A touch of the header moves the play order by a page, within the pages that it has.
pub proof fn play_order_is_paged(u: UiView, now: u64)
    requires
        !u.device.asleep,
        u.nav.view == AppView::UpNext,
        u.device.y < 40,
        u.page is Some,
        u.page->0.total > 0,
        u.nav.up_next_offset % 9 == 0,
        u.nav.up_next_offset < u.page->0.total,
    ensures
        ({
            let (after, effect) = touched(u, now);
            let (old, new) = (u.nav.up_next_offset as int, after.nav.up_next_offset as int);
            &&& effect == EffectView::AskPage(new as usize)
            &&& new % 9 == 0
            &&& 0 <= new < u.page->0.total
            &&& u.device.x < 360 ==> new == if old >= 9 {
                old - 9
            } else {
                0
            }
            &&& u.device.x >= 360 ==> new == if old + 9 < u.page->0.total {
                old + 9
            } else {
                old
            }
        }),
{
}

/// The start waits for the network, then for the daemon, then for the library, and is over
/// when the songs are there.
pub proof fn start_goes_through_its_stages(u: UiView, wifi: bool, daemon: bool, text: Seq<char>, now: u64)
    ensures
        ({
            let after = startup_answered(u, wifi, daemon, text, now);
            let songs = all_listed_in(lines(text), "RESULT "@);
            &&& songs.len() > 0 ==> after.items == songs && after.device.stage is None
                && after.device.tracks_loaded && after.nav.scroll == 0 && after.nav.selected is None
            &&& songs.len() == 0 ==> after.items == u.items && after.device.tracks_loaded
                == u.device.tracks_loaded && after.device.stage == Some(
                if !wifi {
                    StartupStage::Wifi
                } else if !daemon {
                    StartupStage::Spotify
                } else {
                    StartupStage::Library
                },
            )
            &&& songs.len() == 0 && after.device.stage == u.device.stage ==> after.times.stage_start
                == u.times.stage_start
            &&& songs.len() == 0 && after.device.stage != u.device.stage ==> after.times.stage_start
                == now && after.times.retry is None
        }),
{
}

/// The snow is seeded anew each time the background moves, by a number that follows from
/// the last one.
pub proof fn snow_is_seeded_anew(u: UiView, now: u64)
    requires
        ambient(u, now) != u,
    ensures
        ambient(u, now).device.seed as int == (u.device.seed as int * 1_664_525 + 1_013_904_223)
            % 0x1_0000_0000,
{
}

/// What is looked up of the device is known, and a change of it is drawn.
pub proof fn looked_up_values_are_known(u: UiView, battery: Option<u8>, mb: Option<u64>)
    ensures
        ({
            let a = device_polled(u, Device { battery, ..u.device });
            let b = device_polled(u, Device { storage_mb: mb, ..u.device });
            let c = device_polled(u, Device { memory_mb: mb, ..u.device });
            &&& a.device.battery == battery && (battery != u.device.battery ==> a.device.dirty)
            &&& b.device.storage_mb == mb && (mb != u.device.storage_mb ==> b.device.dirty)
            &&& c.device.memory_mb == mb && (mb != u.device.memory_mb ==> c.device.dirty)
            &&& battery == u.device.battery ==> a == u
            &&& a.nav == u.nav && b.nav == u.nav && c.nav == u.nav
        }),
{
}

/// When the daemon does not answer twice in a row, nothing is known of playback any more;
/// what was browsed stays.
pub proof fn lost_daemon_leaves_nothing_known(u: UiView)
    requires
        u.play.failures == 0,
        u.play.state != PlaybackState::Unknown,
    ensures
        ({
            let once = state_polled(u, None);
            let twice = state_polled(once, None);
            &&& once.now_playing == u.now_playing
            &&& once.play.position == u.play.position
            &&& once.queue_status == u.queue_status
            &&& once.pending_selection == u.pending_selection
            &&& twice.now_playing is None
            &&& twice.play.position is None
            &&& twice.queue_status is None
            &&& twice.pending_selection is None
            &&& twice.device.dirty
            &&& twice.items == u.items
            &&& twice.nav == u.nav
        }),
{
}

/// A screen that falls asleep has nothing left to draw, and the strip is drawn over the
/// last picture with the volume indicator on top.
pub proof fn strip_frame_draws_the_strip(u: UiView, checks: Checks, now: u64)
    ensures
        slept(u, now).1 ==> !slept(u, now).0.device.dirty && !slept(u, now).0.device.strip_dirty,
        frame_shapes(u, Frame::Strip, checks, now) == crate::ui::panels::strip(
            u.now_playing,
            u.play.position,
            u.play.state,
            crate::ui::palette::palette_of(u.device.theme),
        ) + popup(u),
{
}

/// When the jack that plays is pulled or changed, what plays, loads or is not known is shown
/// as paused, and what does not play stays as it is.
pub proof fn pulled_jack_is_shown_as_a_pause(u: UiView, port: Option<u8>)
    requires
        u.play.port is Some,
        port != u.play.port,
    ensures
        ({
            let (after, change) = jack_polled(u, port);
            &&& change.pause
            &&& change.port == port
            &&& after.play.port == port
            &&& u.play.state == PlaybackState::Playing || u.play.state == PlaybackState::Loading
                || u.play.state == PlaybackState::Unknown ==> after.play.state
                == PlaybackState::Paused && after.device.dirty
            &&& u.play.state == PlaybackState::Stopped || u.play.state == PlaybackState::Error
                || u.play.state == PlaybackState::Paused ==> after.play.state == u.play.state
            &&& after.play.position == u.play.position
            &&& after.nav == u.nav
        }),
{
}

/// A jack that is plugged where none was selects its port and changes nothing else.
pub proof fn plugged_jack_only_selects_its_port(u: UiView, port: u8)
    requires
        u.play.port is None,
    ensures
        ({
            let (after, change) = jack_polled(u, Some(port));
            &&& !change.pause
            &&& change.port == Some(port)
            &&& after.play.port == Some(port)
            &&& after.play.state == u.play.state
            &&& after.device == u.device
        }),
{
}

/// A retry of the library that is asked for on the start screen is due at once.
pub proof fn asked_retry_is_due_at_once(u: UiView, now: u64)
    requires
        !u.device.asleep,
        u.device.stage == Some(StartupStage::Library),
        !u.device.tracks_loaded,
        455 <= u.device.y < 515,
        now >= 3_000_000_000,
    ensures
        library_due(touched(u, now).0, now).1,
{
}

/// The keys of the device are told apart by their codes: the power key wakes a sleeping
/// screen, the volume keys go up and down, and none does anything when it is let go.
pub proof fn keys_are_told_apart(u: UiView, e: InputEvent, now: u64)
    ensures
        power_event(u, e, now).1 <==> e.kind == 1 && e.code == 116 && e.value == 1
            && u.device.asleep,
        power_event(u, e, now).1 ==> power_event(u, e, now).0.times.input == now,
        e.kind == 1 && e.value == 1 && e.code == 115 ==> volume_event(u, e, now).1 == Some(true),
        e.kind == 1 && e.value == 1 && e.code == 114 ==> volume_event(u, e, now).1 == Some(false),
        e.kind != 1 || e.value != 1 || (e.code != 114 && e.code != 115) ==> volume_event(
            u,
            e,
            now,
        ).1 is None,
        volume_event(u, e, now).0.nav == u.nav,
        volume_event(u, e, now).0.device == u.device,
        e.kind == 1 && e.value == 1 ==> volume_event(u, e, now).0.times.input == now,
        e.kind != 1 || e.value != 1 ==> volume_event(u, e, now).0 == u,
{
}

/// The finger is followed over the screen, and touches when it is reported down.
pub proof fn finger_is_followed(u: UiView, e: InputEvent, now: u64)
    ensures
        ({
            let (after, effect) = screen_event(u, e, now);
            &&& e.kind == 3 && e.code == 53 ==> after.device.x == e.value && after.device.y
                == u.device.y && after.nav == u.nav && effect == EffectView::Nothing
            &&& e.kind == 3 && e.code == 54 ==> after.device.y == e.value && after.device.x
                == u.device.x && after.nav == u.nav && effect == EffectView::Nothing
            &&& e.kind == 1 && e.code == 330 ==> (after.device.touching <==> e.value == 1)
                && after.nav == u.nav && effect == EffectView::Nothing
            &&& e.kind == 0 && e.code == 0 && u.device.touching ==> (after, effect) == touched(u, now)
            &&& e.kind == 0 && !u.device.touching ==> after == u && effect == EffectView::Nothing
        }),
{
}

/// Whether the finger is where it was and its last touch is known.
pub open spec fn leaves_the_finger(u: UiView, after: UiView, now: u64) -> bool {
    &&& after.device.touching == u.device.touching
    &&& after.device.x == u.device.x
    &&& after.device.y == u.device.y
    &&& after.times.input == now
    &&& leaves_what_is_known(u, after)
}

/// Whether what is known of the lists, of playback and of the device stays, and with it what
/// only time or the daemon changes.
pub open spec fn leaves_what_is_known(u: UiView, after: UiView) -> bool {
    &&& after.items == u.items
    &&& after.playlists == u.playlists
    &&& after.playlist_tracks == u.playlist_tracks
    &&& after.search_results == u.search_results
    &&& after.page == u.page
    &&& after.queue_status == u.queue_status
    &&& after.now_playing == u.now_playing
    &&& after.play.state == u.play.state
    &&& after.play.modes == u.play.modes
    &&& after.play.failures == u.play.failures
    &&& after.play.port == u.play.port
    &&& after.play.volume_popup == u.play.volume_popup
    &&& after.device.seed == u.device.seed
    &&& after.device.frame == u.device.frame
    &&& after.device.battery == u.device.battery
    &&& after.device.stage == u.device.stage
    &&& after.device.tracks_loaded == u.device.tracks_loaded
    &&& after.times.status == u.times.status
    &&& after.times.ambient == u.times.ambient
}

proof fn lemma_header_touched(u: UiView, now: u64)
    requires
        u.times.input == now,
    ensures
        leaves_the_finger(u, header_touched(u).0, now),
{
}

proof fn lemma_toolbar_touched(u: UiView, now: u64)
    requires
        u.times.input == now,
    ensures
        leaves_the_finger(u, toolbar_touched(u).0, now),
{
}

proof fn lemma_big_view_touched(u: UiView, now: u64)
    requires
        u.times.input == now,
    ensures
        leaves_the_finger(u, big_view_touched(u).0, now),
{
}

proof fn lemma_strip_touched(u: UiView, now: u64)
    requires
        u.times.input == now,
    ensures
        leaves_the_finger(u, strip_touched(u).0, now),
{
}

proof fn lemma_keyboard_touched(u: UiView, now: u64)
    requires
        u.times.input == now,
    ensures
        leaves_the_finger(u, keyboard_touched(u).0, now),
{
}

proof fn lemma_history_touched(u: UiView, now: u64)
    requires
        u.times.input == now,
    ensures
        leaves_the_finger(u, history_touched(u).0, now),
{
}

proof fn lemma_tile_touched(u: UiView, now: u64)
    requires
        u.times.input == now,
    ensures
        leaves_the_finger(u, tile_touched(u, now).0, now),
{
}

proof fn lemma_result_touched(u: UiView, now: u64)
    requires
        u.times.input == now,
    ensures
        leaves_the_finger(u, result_touched(u, now).0, now),
{
}

proof fn lemma_playlist_touched(u: UiView, now: u64)
    requires
        u.times.input == now,
    ensures
        leaves_the_finger(u, playlist_touched(u).0, now),
{
}

proof fn lemma_playlist_track_touched(u: UiView, now: u64)
    requires
        u.times.input == now,
    ensures
        leaves_the_finger(u, playlist_track_touched(u, now).0, now),
{
}

proof fn lemma_liked_touched(u: UiView, now: u64)
    requires
        u.times.input == now,
    ensures
        leaves_the_finger(u, liked_touched(u, now).0, now),
{
}

/// A touch counts once, and counts as the last touch. By itself it changes nothing of what
/// is known: only an answer, or time, does.
pub proof fn touch_counts_once(u: UiView, now: u64)
    ensures
        !touched(u, now).0.device.touching,
        touched(u, now).0.times.input == now,
        touched(u, now).0.device.x == u.device.x,
        touched(u, now).0.device.y == u.device.y,
        leaves_what_is_known(u, touched(u, now).0),
{
    let v = UiView {
        device: Device { touching: false, ..u.device },
        times: Times { input: now, ..u.times },
        ..u
    };
    lemma_header_touched(v, now);
    lemma_toolbar_touched(v, now);
    lemma_big_view_touched(v, now);
    lemma_strip_touched(v, now);
    lemma_content_touched(v, now);
}

proof fn lemma_content_touched(u: UiView, now: u64)
    requires
        u.times.input == now,
    ensures
        leaves_the_finger(u, content_touched(u, now).0, now),
{
    lemma_keyboard_touched(u, now);
    lemma_history_touched(u, now);
    lemma_tile_touched(u, now);
    lemma_result_touched(u, now);
    lemma_playlist_touched(u, now);
    lemma_playlist_track_touched(u, now);
    lemma_liked_touched(u, now);
}

/// The interface starts in the library with nothing chosen, nothing pending and nothing
/// known of playback; it waits for what is missing unless the songs are there.
pub proof fn interface_starts_in_the_library(
    liked: Seq<ListedView>,
    recent: Seq<Seq<char>>,
    queue_status: Option<StatusView>,
    wifi: bool,
    theme: Theme,
    brightness: usize,
    sleep: usize,
    modes: ShownModes,
    next_request: u64,
    port: Option<u8>,
    battery: Option<u8>,
    now: u64,
)
    ensures
        ({
            let u = started_ui(
                liked,
                recent,
                queue_status,
                wifi,
                theme,
                brightness,
                sleep,
                modes,
                next_request,
                port,
                battery,
                None,
                None,
                now,
            );
            &&& u.nav.view == AppView::Library
            &&& u.nav.selected is None && u.nav.scroll == 0 && !u.nav.exit_armed
            &&& !u.nav.search_in_progress
            &&& u.pending_load is None && u.pending_selection is None && u.page is None
            &&& u.play.state == PlaybackState::Unknown && u.play.modes == modes && u.play.next_request
                == next_request && u.play.port == port && u.play.position is None
            &&& u.now_playing is None
            &&& u.queue_status == queue_status
            &&& u.recent == recent
            &&& u.device.theme == theme && u.device.brightness == brightness && u.device.sleep == sleep
                && u.device.battery == battery && !u.device.asleep
            &&& liked.len() > 0 ==> u.items == liked && u.device.stage is None && u.device.tracks_loaded
            &&& liked.len() == 0 ==> u.items == notice("Connecting..."@) && !u.device.tracks_loaded
                && u.device.stage == Some(
                if wifi {
                    StartupStage::Spotify
                } else {
                    StartupStage::Wifi
                },
            )
            &&& u.times.input == now && u.times.stage_start == now
        }),
{
}

/// Each setting changes only where it is chosen: the theme on the tiles of the themes, the
/// screen sleep on those of the settings, the brightness on the toolbar.
pub proof fn settings_change_only_where_they_are_chosen(u: UiView, now: u64)
    ensures
        ({
            let after = touched(u, now).0;
            &&& after.device.theme != u.device.theme ==> (u.nav.view == AppView::Appearance
                || u.nav.view == AppView::Special) && 40 <= u.device.y < 580
            &&& after.device.sleep != u.device.sleep ==> u.nav.view == AppView::Settings && 40
                <= u.device.y < 580
            &&& after.device.brightness != u.device.brightness ==> u.device.y >= 660
        }),
{
    let v = UiView {
        device: Device { touching: false, ..u.device },
        times: Times { input: now, ..u.times },
        ..u
    };
    lemma_settings_header(v);
    lemma_settings_toolbar(v);
    lemma_settings_big_view(v);
    lemma_settings_strip(v);
    lemma_settings_keyboard(v);
    lemma_settings_tile(v, now);
    lemma_settings_rows(v, now);
}

spec fn same_settings(u: UiView, after: UiView) -> bool {
    after.device.theme == u.device.theme && after.device.sleep == u.device.sleep
        && after.device.brightness == u.device.brightness
}

proof fn lemma_settings_header(u: UiView)
    ensures
        same_settings(u, header_touched(u).0),
{
}

proof fn lemma_settings_toolbar(u: UiView)
    ensures
        toolbar_touched(u).0.device.theme == u.device.theme,
        toolbar_touched(u).0.device.sleep == u.device.sleep,
{
}

proof fn lemma_settings_big_view(u: UiView)
    ensures
        same_settings(u, big_view_touched(u).0),
{
}

proof fn lemma_settings_strip(u: UiView)
    ensures
        same_settings(u, strip_touched(u).0),
{
}

proof fn lemma_settings_keyboard(u: UiView)
    ensures
        same_settings(u, keyboard_touched(u).0),
        same_settings(u, history_touched(u).0),
{
}

proof fn lemma_settings_tile(u: UiView, now: u64)
    ensures
        ({
            let after = tile_touched(u, now).0;
            &&& after.device.brightness == u.device.brightness
            &&& u.nav.view == AppView::Menu || u.nav.view == AppView::Sound || u.nav.view
                == AppView::Diagnostics ==> same_settings(u, after)
            &&& u.nav.view == AppView::Appearance || u.nav.view == AppView::Special
                ==> after.device.sleep == u.device.sleep
            &&& u.nav.view == AppView::Settings ==> after.device.theme == u.device.theme
        }),
{
}

proof fn lemma_settings_rows(u: UiView, now: u64)
    ensures
        same_settings(u, result_touched(u, now).0),
        same_settings(u, playlist_touched(u).0),
        same_settings(u, playlist_track_touched(u, now).0),
        same_settings(u, liked_touched(u, now).0),
{
}

/// Time leaves the lists, the search, the settings and the view as they are.
pub proof fn time_leaves_the_view(u: UiView, port: Option<u8>, now: u64, ms: u64)
    ensures
        leaves_the_view(u, ambient(u, now)),
        leaves_the_view(u, popup_expired(u, now)),
        leaves_the_view(u, diagnostics_expired(u, now)),
        leaves_the_view(u, retry_noted(u, now)),
        leaves_the_view(u, slept(u, now).0),
        leaves_the_view(u, jack_polled(u, port).0),
        leaves_the_view(u, frame_due(u, now, ms).0),
        leaves_the_view(u, load_dispatched(u, now).0),
        leaves_the_view(u, status_due(u, now).0),
{
}

/// What is told of the player, and of a step or a volume, leaves them too.
pub proof fn reports_leave_the_view(u: UiView, reply: Option<Seq<char>>, now: u64)
    ensures
        leaves_the_view(u, state_polled(u, reply)),
        leaves_the_view(u, track_polled(u, reply)),
        leaves_the_view(u, position_polled(u, reply)),
        leaves_the_view(u, volume_answered(u, reply, now)),
        leaves_the_view(u, step_answered(u, reply)),
{
}

/// What is told of the queue leaves them too.
pub proof fn queue_leaves_the_view(u: UiView, queue: Option<StatusView>, now: u64)
    ensures
        leaves_the_view(u, queue_known(u, queue, now)),
{
}

/// What is told of the play order leaves them too.
pub proof fn page_leaves_the_view(u: UiView, reply: Option<Seq<char>>)
    ensures
        leaves_the_view(u, page_polled(u, reply).0),
{
}

/// Whether the lists, the search, the settings and the view stay.
pub open spec fn leaves_the_view(u: UiView, after: UiView) -> bool {
    &&& after.items == u.items
    &&& after.playlists == u.playlists
    &&& after.playlist_tracks == u.playlist_tracks
    &&& after.search_results == u.search_results
    &&& after.recent == u.recent
    &&& after.query == u.query
    &&& after.nav.view == u.nav.view
    &&& after.nav.scroll == u.nav.scroll
    &&& after.nav.playlist_scroll == u.nav.playlist_scroll
    &&& after.nav.playlist_track_scroll == u.nav.playlist_track_scroll
    &&& after.nav.search_scroll == u.nav.search_scroll
    &&& after.nav.search_in_progress == u.nav.search_in_progress
    &&& after.nav.exit_armed == u.nav.exit_armed
    &&& after.nav.now_playing_return == u.nav.now_playing_return
    &&& after.nav.up_next_return == u.nav.up_next_return
    &&& after.device.theme == u.device.theme
    &&& after.device.brightness == u.device.brightness
    &&& after.device.sleep == u.device.sleep
    &&& after.device.stage == u.device.stage
    &&& after.play.next_request == u.play.next_request
    &&& after.play.modes == u.play.modes
    &&& after.times.input == u.times.input
}

/// The queue that a tap waits for is the one under its number, of its list and at its
/// track; without a tap any queue will do.
pub proof fn awaited_queue_is_that_of_the_tap(tap: PendingView, queue: StatusView)
    ensures
        is_awaited(Some(tap), Some(queue)) <==> tap.request_id == queue.request_id && tap.source
            == queue.source && tap.track_id == queue.track_id,
        !is_awaited(Some(tap), None),
        is_awaited(None, Some(queue)),
        is_awaited(None, None),
{
}

} // verus!
