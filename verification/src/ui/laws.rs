//! Laws of the interface.
use crate::daemon::queue::SourceView;
use crate::daemon::state::NowPlayingView;
use crate::text::lines;
use crate::ui::answers::{power_event, InputEvent};
use crate::ui::canvas::rect;
use crate::ui::labels::{label_of, shortened};
use crate::ui::palette::Palette;
use crate::ui::panels::{artist_or_unknown, clipped, filled, lemma_clock_len, time_label};
use crate::ui::replies::{all_listed_in, ListedView, PlaybackState, StatusView, VISIBLE_ROWS};
use crate::ui::screen::{
    key_shapes, list_row, row_shapes, tile_marked, tile_shapes, visible, Checks,
};
use crate::ui::settings::{sleep_after, CHOICES};
use crate::ui::state::{last_scroll, AppView, UiView};
use crate::ui::tick::{
    frame_due, is_awaited, jack_polled, library_answered, load_dispatched, passed, queue_known,
    slept, state_polled, waiting, Frame,
};
use crate::ui::touch::{
    back, clamped, disarmed, following, key_at, key_left, key_row, keyboard_touched, load_command,
    load_pending, row_at, scrolled, sought, special_theme_on, theme_on, themed, tile_at, touched,
    EffectView, LIST_TOP, SEPARATOR_TOP, STRIP_TOP, TOOLBAR_TOP,
};
use vstd::prelude::*;

verus! {

/// A touch of a sleeping screen wakes it and does nothing else.
pub proof fn waking_touch_is_no_action(u: UiView, now: u64)
    requires
        u.device.asleep,
    ensures
        touched(u, now).1 == EffectView::Wake,
        touched(u, now).0.nav == u.nav,
        touched(u, now).0.play == u.play,
        touched(u, now).0.items == u.items,
        touched(u, now).0.query == u.query,
        touched(u, now).0.recent == u.recent,
        touched(u, now).0.pending_load == u.pending_load,
        touched(u, now).0.pending_selection == u.pending_selection,
        !touched(u, now).0.device.asleep,
{
}

/// The power key does nothing while the screen is awake, and only wakes it otherwise.
pub proof fn power_key_only_wakes(u: UiView, e: InputEvent, now: u64)
    ensures
        !u.device.asleep ==> power_event(u, e, now) == (u, false),
        power_event(u, e, now).1 ==> u.device.asleep && !power_event(u, e, now).0.device.asleep,
        power_event(u, e, now).0.nav == u.nav,
        power_event(u, e, now).0.play == u.play,
{
}

/// While a search runs, a touch of the search screen types nothing and starts nothing.
pub proof fn running_search_ignores_touches(u: UiView)
    requires
        u.nav.search_in_progress,
    ensures
        keyboard_touched(u) == (disarmed(u), EffectView::Nothing),
{
}

/// A touch is on the row whose plate is drawn under it.
pub proof fn rows_are_where_they_are_drawn(y: int, row: int, text: Seq<char>, palette: Palette)
    requires
        LIST_TOP <= y < STRIP_TOP,
    ensures
        row_shapes(text, row, true, palette)[0] == rect(
            0,
            40 + row * 60,
            480,
            60,
            palette.selected_row,
        ),
        row_at(y) == row <==> 40 + row * 60 <= y < 40 + row * 60 + 60,
        0 <= row_at(y) < VISIBLE_ROWS,
{
}

/// A touch is on the tile that is drawn under it.
pub proof fn tiles_are_where_they_are_drawn(
    x: int,
    y: int,
    tile: int,
    u: UiView,
    checks: Checks,
    palette: Palette,
)
    requires
        0 <= x < 480,
        LIST_TOP <= y < STRIP_TOP,
        0 <= tile < 6,
    ensures
        tile_shapes(u, checks, palette)(tile)[0] == rect(
            tile % 2 * 240,
            40 + tile / 2 * 180,
            240,
            180,
            palette.now_playing,
        ),
        tile_at(x, y) == tile <==> {
            &&& tile % 2 * 240 <= x < tile % 2 * 240 + 240
            &&& 40 + tile / 2 * 180 <= y < 40 + tile / 2 * 180 + 180
        },
        0 <= tile_at(x, y) < 6,
{
}

/// A touch within the plate of a key is on that key.
pub proof fn keys_are_where_they_are_drawn(x: int, y: int, row: int, column: int, palette: Palette)
    requires
        0 <= row < 3,
        0 <= column < key_row(row).len(),
        key_left(row) + column * 48 + 2 <= x < key_left(row) + column * 48 + 46,
        105 + row * 105 <= y < 105 + row * 105 + 92,
    ensures
        key_shapes(row, palette)(column)[0] == rect(
            key_left(row) + column * 48 + 2,
            105 + row * 105,
            44,
            92,
            palette.now_playing,
        ),
        105 <= y < 407,
        key_at(x, y) == Some(key_row(row)[column]),
{
    assert((y - 105) / 105 == row);
    assert((x - key_left(row)) / 48 == column);
}

/// A tap on a liked song loads the song that is drawn there, and marks it.
pub proof fn tap_loads_the_drawn_song(u: UiView, row: int, now: u64, palette: Palette)
    requires
        u.wf(),
        !u.device.asleep,
        u.device.stage is None,
        u.nav.view == AppView::Library,
        LIST_TOP <= u.device.y < STRIP_TOP,
        40 + row * 60 <= u.device.y < 40 + row * 60 + 60,
        u.nav.scroll + row < u.items.len() <= usize::MAX,
        u.items[u.nav.scroll + row].id.len() > 0,
    ensures
        ({
            let item = u.items[u.nav.scroll + row];
            let after = touched(u, now).0;
            &&& after.nav.selected == Some((u.nav.scroll + row) as usize)
            &&& after.pending_load is Some
            &&& after.pending_load->0.command == load_command(
                SourceView::Liked,
                u.play.next_request,
                item.id,
            )
            &&& row < visible(u.items.len(), u.nav.scroll)
            &&& list_row(after.items, after.nav.scroll, after.nav.selected, palette)(row)
                == row_shapes(shortened(label_of(item), 50), row, true, palette)
        }),
{
    assert(row_at(u.device.y as int) == row);
}

/// Scrolling moves by less than a screen, so that no row is passed over, and never past
/// the end of the list.
pub proof fn scrolling_skips_no_row(u: UiView, scroll: usize, len: nat)
    requires
        scroll <= last_scroll(len),
        len <= usize::MAX,
    ensures
        scrolled(u, scroll, len) <= last_scroll(len),
        scrolled(u, scroll, len) < scroll + VISIBLE_ROWS,
        scroll < scrolled(u, scroll, len) + VISIBLE_ROWS,
{
}

/// Of two taps, only the later one is sent, under the number that follows.
pub proof fn latest_tap_wins(
    u: UiView,
    first: (SourceView, Seq<char>),
    second: (SourceView, Seq<char>),
    t1: u64,
    t2: u64,
    now: u64,
)
    requires
        passed(now, t2, 600),
    ensures
        ({
            let tapped = load_pending(load_pending(u, first.0, first.1, t1), second.0, second.1, t2);
            let request_id = following(u.play.next_request);
            &&& load_dispatched(tapped, now).1 == Some(load_command(second.0, request_id, second.1))
            &&& load_dispatched(tapped, now).0.pending_load is None
            &&& load_dispatched(load_dispatched(tapped, now).0, now).1 is None
        }),
{
}

/// A tap is not sent before it has waited.
pub proof fn tap_waits(u: UiView, source: SourceView, id: Seq<char>, t: u64, now: u64)
    requires
        !passed(now, t, 600),
    ensures
        load_dispatched(load_pending(u, source, id, t), now) == (load_pending(u, source, id, t), None::<
            Seq<char>,
        >),
{
}

/// While a tapped track is waited for, what is marked stays marked until the daemon
/// reports the queue of that tap.
pub proof fn pending_tap_keeps_the_selection(u: UiView, queue: Option<StatusView>, now: u64)
    requires
        waiting(u.pending_selection, now) is Some,
        !is_awaited(waiting(u.pending_selection, now), queue),
    ensures
        queue_known(u, queue, now).nav == u.nav,
        queue_known(u, queue, now).queue_status == u.queue_status,
        queue_known(u, queue, now).pending_selection == u.pending_selection,
{
}

/// The queue of a tap ends the wait.
pub proof fn awaited_queue_ends_the_wait(u: UiView, queue: StatusView, now: u64)
    requires
        is_awaited(waiting(u.pending_selection, now), Some(queue)),
    ensures
        queue_known(u, Some(queue), now).pending_selection is None,
        queue_known(u, Some(queue), now).queue_status == Some(queue),
{
}

/// A jack that is pulled or changed asks for a pause; nothing that happens to the jacks
/// starts playback, and no port is selected unless one was plugged.
pub proof fn jack_never_resumes(u: UiView, port: Option<u8>)
    ensures
        u.play.port is Some && port != u.play.port ==> jack_polled(u, port).1.pause,
        jack_polled(u, port).0.play.state == u.play.state || jack_polled(u, port).0.play.state
            == PlaybackState::Paused,
        jack_polled(u, port).1.port is Some ==> jack_polled(u, port).1.port == port && port
            != u.play.port,
        jack_polled(jack_polled(u, port).0, port).0 == jack_polled(u, port).0,
        !jack_polled(jack_polled(u, port).0, port).1.pause,
{
}

/// Nothing is drawn on a sleeping screen.
pub proof fn sleeping_screen_stays_dark(u: UiView, now: u64, keepalive_ms: u64)
    requires
        u.device.asleep,
    ensures
        frame_due(u, now, keepalive_ms).1 == Frame::Nothing,
        frame_due(u, now, keepalive_ms).0.device.asleep,
{
}

/// The screen never sleeps while the device starts, nor where that was chosen, nor
/// within the time that was chosen after a touch.
pub proof fn screen_sleeps_only_in_time(u: UiView, now: u64)
    ensures
        u.device.stage is Some ==> slept(u, now) == (u, false),
        u.device.sleep == CHOICES - 1 ==> slept(u, now) == (u, false),
        slept(u, now).1 ==> sleep_after(u.device.sleep as int) is Some && passed(
            now,
            u.times.input,
            sleep_after(u.device.sleep as int)->0 as int,
        ),
{
}

/// To leave takes two touches: the exit button leaves only when it is armed, and only
/// the exit button arms itself.
pub proof fn exit_takes_two_touches(u: UiView, now: u64)
    ensures
        touched(u, now).1 == EffectView::Exit ==> u.nav.exit_armed && !u.device.asleep,
        touched(u, now).0.nav.exit_armed && !u.nav.exit_armed ==> u.device.y >= TOOLBAR_TOP && clamped(
            u.device.x as int,
        ) < 120 && touched(u, now).1 == EffectView::Nothing,
{
}

/// A theme that is chosen is the one that its page marks.
pub proof fn chosen_theme_is_marked(u: UiView, tile: int)
    requires
        0 <= tile < 5,
    ensures
        u.nav.view == AppView::Appearance ==> tile_marked(themed(u, theme_on(tile)).0, tile),
        u.nav.view == AppView::Special ==> tile_marked(themed(u, special_theme_on(tile)).0, tile),
{
}

/// Two answers that fail in a row make the state unknown, and the first one that comes
/// makes it known again.
pub proof fn lost_daemon_is_noticed(u: UiView, reply: Seq<char>)
    requires
        u.play.failures == 0,
        crate::ui::replies::status_in(reply) is Some,
    ensures
        state_polled(u, None).play.state == u.play.state,
        state_polled(state_polled(u, None), None).play.state == PlaybackState::Unknown,
        state_polled(state_polled(state_polled(u, None), None), Some(reply)).play.state
            == crate::ui::replies::status_in(reply)->0,
{
}

/// A touch of a progress bar stands for a time within the track.
pub proof fn seek_target_is_in_the_track(u: UiView, left: int, width: int)
    requires
        0 < width,
        left <= u.device.x <= left + width,
    ensures
        sought(u, left, width) matches Some(ms) ==> u.now_playing is Some && ms
            <= u.now_playing->0.duration_ms,
{
    if u.now_playing is Some {
        let offset = u.device.x - left;
        let duration = u.now_playing->0.duration_ms as int;
        assert(0 <= offset * duration / width <= duration) by (nonlinear_arith)
            requires
                0 <= offset <= width,
                0 < width,
                0 <= duration,
        ;
    }
}

/// From the library, the fourth button of the toolbar refreshes the songs and opens the
/// menus, and from there it leads to the library again.
pub proof fn library_refreshes_and_leads_to_the_menus(u: UiView, now: u64)
    requires
        !u.device.asleep,
        u.nav.view == AppView::Library,
        u.device.y >= TOOLBAR_TOP,
        clamped(u.device.x as int) >= 360,
    ensures
        touched(u, now).0.nav.view == AppView::Menu,
        touched(u, now).1 == EffectView::AskLibrary,
        back(touched(u, now).0.nav) == AppView::Library,
{
}

/// The separator between the strip and the toolbar does nothing but disarm the exit.
pub proof fn separator_does_nothing(u: UiView, now: u64)
    requires
        !u.device.asleep,
        u.nav.view != AppView::NowPlaying,
        SEPARATOR_TOP <= u.device.y < TOOLBAR_TOP,
    ensures
        touched(u, now).1 == EffectView::Nothing,
        touched(u, now).0.nav == disarmed(u).nav,
        touched(u, now).0.play == u.play,
{
}

/// A refresh shows the songs that have come, from the first one; where none have come, it
/// changes nothing.
pub proof fn refresh_loses_no_songs(u: UiView, text: Seq<char>)
    ensures
        all_listed_in(lines(text), "RESULT "@).len() > 0 ==> library_answered(u, text).items
            == all_listed_in(lines(text), "RESULT "@) && library_answered(u, text).nav.scroll == 0,
        all_listed_in(lines(text), "RESULT "@).len() == 0 ==> library_answered(u, text) == u,
{
}

/// The text of a row ends on the screen, however long the names are.
pub proof fn row_texts_fit(item: ListedView)
    ensures
        10 + shortened(label_of(item), 52).len() * 9 <= 480,
        10 + ("> "@ + shortened(label_of(item), 50)).len() * 9 <= 480,
{
    reveal_strlit("> ");
}

/// In the strip, the title ends before the mark behind it, and the artist before the time.
pub proof fn strip_texts_do_not_overlap(item: NowPlayingView, position: Option<u32>)
    ensures
        38 + shortened(item.title, 43).len() * 9 <= 452,
        ({
            let time = time_label(clipped(position, item.duration_ms), item.duration_ms);
            let chars = ((448 - time.len() * 9) / 9) as nat;
            10 + shortened(artist_or_unknown(item.artist), chars).len() * 9 <= 470 - time.len() * 9
        }),
{
    reveal_strlit(" / ");
    lemma_clock_len(clipped(position, item.duration_ms));
    lemma_clock_len(item.duration_ms);
}

/// A progress bar is never filled past its end.
pub proof fn progress_stays_in_the_bar(position: Option<u32>, duration: u32, width: int)
    requires
        0 <= width,
    ensures
        0 <= filled(clipped(position, duration), duration, width) <= width,
{
    let at = clipped(position, duration);
    if duration > 0 {
        assert(0 <= at * width / (duration as int) <= width) by (nonlinear_arith)
            requires
                0 <= at <= duration,
                0 < duration,
                0 <= width,
        ;
    }
}

} // verus!
