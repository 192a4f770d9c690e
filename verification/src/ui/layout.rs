//! Laws of the layout: what is drawn, and what a touch there does.
use crate::daemon::queue::SourceView;
use crate::daemon::state::NowPlayingView;
use crate::text::decimal;
use crate::ui::answers::{diagnostics_answered, playlists_answered, sound_answered};
use crate::ui::canvas::{each, label, rect, Font, ShapeView};
use crate::ui::labels::{label_of, shortened, StartupStage};
use crate::ui::palette::Palette;
use crate::ui::panels::{
    big_buttons, big_track, silence_label, clipped, filled, middle_label, strip,
};
use crate::ui::replies::{ListedView, PlaybackState, VISIBLE_ROWS};
use crate::ui::screen::{
    arrows, content, goes_on, history_row, footer, header, key_row_shapes, key_shapes, list_row,
    queue_row, queued_label, row_shapes, screen, search_input, source_list, start_screen,
    tile_label, tile_marked, tile_shapes, status_of, tile_text, tiles, title_of, toolbar, visible,
    Checks,
};
use crate::ui::scenery::scenery;
use crate::ui::settings::{brightness_of, brightness_text, sleep_after, theme_key};
use crate::ui::state::{Times, AppView, Device, Nav, UiView};
use crate::ui::system::plugged_port;
use crate::ui::touch::{back, key_left, key_row, shown_playlist_id, touched, EffectView};
use vstd::prelude::*;

verus! {

/// Whether a view is a list of tracks or playlists.
pub open spec fn is_list(view: AppView) -> bool {
    view == AppView::Library || view == AppView::Playlists || view == AppView::PlaylistTracks || view
        == AppView::SearchResults
}

/// The list that is open.
pub open spec fn open_list(u: UiView) -> Seq<ListedView> {
    match u.nav.view {
        AppView::Playlists => u.playlists,
        AppView::PlaylistTracks => u.playlist_tracks,
        AppView::SearchResults => u.search_results,
        _ => u.items,
    }
}

/// The index of the first row that is visible of the list that is open.
pub open spec fn open_scroll(u: UiView) -> usize {
    match u.nav.view {
        AppView::Playlists => u.nav.playlist_scroll,
        AppView::PlaylistTracks => u.nav.playlist_track_scroll,
        AppView::SearchResults => u.nav.search_scroll,
        _ => u.nav.scroll,
    }
}

/// The marked item of the list that is open.
pub open spec fn open_mark(u: UiView) -> Option<usize> {
    match u.nav.view {
        AppView::Playlists => u.nav.playlist_selected,
        AppView::PlaylistTracks => u.nav.playlist_track_selected,
        AppView::SearchResults => u.nav.search_selected,
        _ => u.nav.selected,
    }
}

/// The text of a row: the name and who it is by, cut to the width of the screen, with an
/// arrow in front if it is marked.
pub open spec fn row_text(item: ListedView, marked: bool) -> Seq<char> {
    if marked {
        "> "@ + shortened(label_of(item), 50)
    } else {
        shortened(label_of(item), 52)
    }
}

/// Whether a text, and no other, stands in a row.
pub open spec fn reads(shapes: Seq<ShapeView>, row: int, text: Seq<char>) -> bool {
    &&& exists|k: int|
        0 <= k < shapes.len() && is_label_at(#[trigger] shapes[k], 10, 62 + row * 60) && shapes[k]->text
            == text
    &&& forall|k: int|
        0 <= k < shapes.len() && #[trigger] shapes[k] is Label && shapes[k]->Label_y == 62 + row * 60
            ==> shapes[k]->text == text
}

/// Whether a shape is a text at a point.
pub open spec fn is_label_at(shape: ShapeView, x: int, y: int) -> bool {
    shape is Label && shape->Label_x == x && shape->Label_y == y
}

/// What is drawn for a number is among what is drawn for all of them.
proof fn lemma_each_has(n: nat, f: spec_fn(int) -> Seq<ShapeView>, i: int, j: int)
    requires
        0 <= i < n,
        0 <= j < f(i).len(),
    ensures
        exists|k: int| 0 <= k < each(n, f).len() && #[trigger] each(n, f)[k] == f(i)[j],
    decreases n,
{
    let front = each((n - 1) as nat, f);
    if i < n - 1 {
        lemma_each_has((n - 1) as nat, f, i, j);
        let k = choose|k: int| 0 <= k < front.len() && #[trigger] front[k] == f(i)[j];
        assert(each(n, f)[k] == f(i)[j]);
    } else {
        assert(each(n, f)[front.len() + j] == f(i)[j]);
    }
}

/// Nothing is drawn for all numbers but what is drawn for one of them.
proof fn lemma_each_from(n: nat, f: spec_fn(int) -> Seq<ShapeView>, k: int)
    requires
        0 <= k < each(n, f).len(),
    ensures
        exists|i: int, j: int|
            0 <= i < n && 0 <= j < f(i).len() && each(n, f)[k] == #[trigger] f(i)[j],
    decreases n,
{
    if n > 0 {
        let front = each((n - 1) as nat, f);
        if k < front.len() {
            lemma_each_from((n - 1) as nat, f, k);
            let (i, j) = choose|i: int, j: int|
                0 <= i < n - 1 && 0 <= j < f(i).len() && front[k] == #[trigger] f(i)[j];
            assert(each(n, f)[k] == f(i)[j]);
        } else {
            assert(each(n, f)[k] == f(n - 1)[k - front.len()]);
        }
    }
}

/// Rows that are each drawn as a row read as their texts.
proof fn lemma_rows_read(
    n: nat,
    f: spec_fn(int) -> Seq<ShapeView>,
    texts: spec_fn(int) -> Seq<char>,
    marks: spec_fn(int) -> bool,
    palette: Palette,
    row: int,
)
    requires
        n <= 9,
        0 <= row < n,
        forall|i: int| 0 <= i < n ==> #[trigger] f(i) == row_shapes(texts(i), i, marks(i), palette),
    ensures
        reads(
            each(n, f),
            row,
            if marks(row) {
                "> "@ + texts(row)
            } else {
                texts(row)
            },
        ),
{
    let shapes = each(n, f);
    let text = if marks(row) {
        "> "@ + texts(row)
    } else {
        texts(row)
    };
    assert(f(row) == row_shapes(texts(row), row, marks(row), palette));
    let j: int = if marks(row) {
        1
    } else {
        0
    };
    lemma_each_has(n, f, row, j);
    let k = choose|k: int| 0 <= k < shapes.len() && #[trigger] shapes[k] == f(row)[j];
    assert(is_label_at(shapes[k], 10, 62 + row * 60) && shapes[k]->text == text);
    assert forall|k: int|
        0 <= k < shapes.len() && #[trigger] shapes[k] is Label && shapes[k]->Label_y == 62 + row
            * 60 implies shapes[k]->text == text by {
        lemma_each_from(n, f, k);
        let (a, b) = choose|a: int, b: int|
            0 <= a < n && 0 <= b < f(a).len() && shapes[k] == #[trigger] f(a)[b];
        assert(f(a) == row_shapes(texts(a), a, marks(a), palette));
        assert(a == row);
    }
}

/// In each list view, the row `row` reads as the item of the list that is open at the scroll
/// and `row` more, with an arrow exactly if that item is marked.
pub proof fn rows_show_the_open_list(u: UiView, palette: Palette, row: int)
    requires
        is_list(u.nav.view),
        0 <= row < VISIBLE_ROWS,
        open_scroll(u) + row < open_list(u).len() <= usize::MAX,
    ensures
        reads(
            content(u, palette),
            row,
            row_text(
                open_list(u)[open_scroll(u) + row],
                open_mark(u) == Some((open_scroll(u) + row) as usize),
            ),
        ),
{
    let list = open_list(u);
    let first = open_scroll(u);
    let marked = open_mark(u);
    let n = visible(list.len(), first);
    let marks = |i: int| marked == Some((first + i) as usize);
    let texts = |i: int|
        shortened(
            label_of(list[first + i]),
            if marked == Some((first + i) as usize) {
                50
            } else {
                52
            },
        );
    lemma_rows_read(n, list_row(list, first, marked, palette), texts, marks, palette, row);
}

/// A point in a row of a list.
pub open spec fn touches_row(u: UiView, row: int) -> bool {
    &&& 0 <= row < VISIBLE_ROWS
    &&& 40 + row * 60 <= u.device.y < 40 + row * 60 + 60
    &&& !u.device.asleep
    &&& u.device.stage is None
}

/// A tap on a row marks the item that the row shows and acts on it: a track is loaded from
/// its list under the next number, a playlist is asked for. The list stays where it is.
pub proof fn tap_acts_on_the_row_it_hits(u: UiView, row: int, now: u64)
    requires
        is_list(u.nav.view),
        touches_row(u, row),
        open_scroll(u) + row < open_list(u).len() <= usize::MAX,
        open_list(u)[open_scroll(u) + row].id.len() > 0,
        u.nav.view == AppView::PlaylistTracks ==> shown_playlist_id(u) is Some,
    ensures
        ({
            let (after, effect) = touched(u, now);
            let id = open_list(u)[open_scroll(u) + row].id;
            let number = decimal(u.play.next_request as nat);
            &&& open_mark(after) == Some((open_scroll(u) + row) as usize)
            &&& open_list(after) == open_list(u)
            &&& open_scroll(after) == open_scroll(u)
            &&& after.nav.view == u.nav.view
            &&& !after.nav.exit_armed
            &&& after.device.dirty
            &&& u.nav.view == AppView::Playlists ==> effect == EffectView::AskPlaylist(id)
                && after.pending_load == u.pending_load
            &&& u.nav.view != AppView::Playlists ==> {
                &&& effect == EffectView::Nothing
                &&& after.pending_load is Some
                &&& after.pending_load->0.request_id == u.play.next_request
                &&& after.pending_load->0.started == now
                &&& after.pending_load->0.command == match u.nav.view {
                    AppView::PlaylistTracks => "LOAD_PLAYLIST "@ + number + " "@ + shown_playlist_id(u)->0
                        + " "@ + id,
                    AppView::SearchResults => "LOAD_SEARCH "@ + number + " "@ + id,
                    _ => "LOAD_LIKED "@ + number + " "@ + id,
                }
                &&& after.pending_selection is Some
                &&& after.pending_selection->0.track_id == id
                &&& after.pending_selection->0.request_id == u.play.next_request
                &&& after.pending_selection->0.started == now
                &&& after.pending_selection->0.source == match u.nav.view {
                    AppView::PlaylistTracks => SourceView::Playlist(shown_playlist_id(u)->0),
                    AppView::SearchResults => SourceView::Search,
                    _ => SourceView::Liked,
                }
                &&& u.play.next_request < u64::MAX ==> after.play.next_request
                    == u.play.next_request + 1
                &&& u.nav.view != AppView::Library ==> after.nav.selected is None
                &&& u.nav.view != AppView::PlaylistTracks ==> after.nav.playlist_track_selected is None
            }
            &&& after.play.state == u.play.state
            &&& after.play.position == u.play.position
        }),
{
    assert((u.device.y - 40) / 60 == row);
}

/// A tap below the last item of a list, or on a notice, loads nothing.
pub proof fn tap_off_the_items_loads_nothing(u: UiView, row: int, now: u64)
    requires
        is_list(u.nav.view),
        touches_row(u, row),
        open_list(u).len() <= usize::MAX,
        open_scroll(u) + row >= open_list(u).len() || open_list(u)[open_scroll(u) + row].id.len() == 0,
    ensures
        touched(u, now).1 == EffectView::Nothing,
        touched(u, now).0.pending_load == u.pending_load,
        touched(u, now).0.pending_selection == u.pending_selection,
        touched(u, now).0.play == u.play,
        touched(u, now).0.nav.view == u.nav.view,
        open_scroll(u) + row >= open_list(u).len() ==> touched(u, now).0.nav == u.nav,
{
    assert((u.device.y - 40) / 60 == row);
}

/// The recent searches are shown in order, and a tap on one searches for it once more.
pub proof fn recent_search_is_searched_again(u: UiView, palette: Palette, row: int, now: u64)
    requires
        u.nav.view == AppView::SearchHistory,
        u.recent.len() <= 8,
        touches_row(u, row),
        row < u.recent.len(),
    ensures
        reads(content(u, palette), row, shortened(u.recent[row], 50)),
        touched(u, now).1 == EffectView::Search(u.recent[row]),
        touched(u, now).0.query == u.recent[row],
        touched(u, now).0.nav.search_in_progress,
        touched(u, now).0.nav.view == AppView::SearchInput,
        touched(u, now).0.recent == u.recent,
{
    assert((u.device.y - 40) / 60 == row);
    let n = u.recent.len();
    let f = history_row(u.recent, palette);
    let texts = |i: int| shortened(u.recent[i], 50);
    let marks = |i: int| false;
    lemma_rows_read(n, f, texts, marks, palette, row);
    let shapes = each(n, f);
    let all = content(u, palette);
    let k = choose|k: int|
        0 <= k < shapes.len() && is_label_at(#[trigger] shapes[k], 10, 62 + row * 60)
            && shapes[k]->text == texts(row);
    assert(all[k] == shapes[k]);
    assert forall|k: int|
        0 <= k < all.len() && #[trigger] all[k] is Label && all[k]->Label_y == 62 + row
            * 60 implies all[k]->text == texts(row) by {
        if k < shapes.len() {
            assert(all[k] == shapes[k]);
        }
    }
}

/// The row behind the recent searches clears them.
pub proof fn row_behind_the_searches_clears_them(u: UiView, palette: Palette, now: u64)
    requires
        u.nav.view == AppView::SearchHistory,
        0 < u.recent.len() <= 8,
        touches_row(u, u.recent.len() as int),
    ensures
        content(u, palette).last() == label(
            "Clear History"@,
            10,
            62 + u.recent.len() as int * 60,
            Font::Bold,
            palette.selected_text,
        ),
        touched(u, now).1 == EffectView::KeepHistory,
        touched(u, now).0.recent.len() == 0,
        touched(u, now).0.nav.view == AppView::SearchInput,
{
    assert((u.device.y - 40) / 60 == u.recent.len());
}

/// A page of the play order shows, for each turn, its number and the name of the track
/// whose turn it is; the turn that plays, and no other, is marked.
pub proof fn up_next_shows_the_turns(u: UiView, palette: Palette, row: int, at: int)
    requires
        u.nav.view == AppView::UpNext,
        u.page is Some,
        u.page->0.items.len() <= VISIBLE_ROWS,
        0 <= row < u.page->0.items.len(),
        source_list(u, u.page->0.source).len() <= usize::MAX,
        at == u.page->0.items[row].source_index,
        at < source_list(u, u.page->0.source).len(),
        source_list(u, u.page->0.source)[at].id == u.page->0.items[row].track_id,
    ensures
        ({
            let item = u.page->0.items[row];
            let text = shortened(
                decimal((item.position + 1) as nat) + ". "@ + label_of(
                    source_list(u, u.page->0.source)[at],
                ),
                48,
            );
            reads(
                content(u, palette),
                row,
                if item.position == u.page->0.current_position {
                    "> "@ + text
                } else {
                    text
                },
            )
        }),
{
    let page = u.page->0;
    let list = source_list(u, page.source);
    let texts = |i: int|
        shortened(
            decimal((page.items[i].position + 1) as nat) + ". "@ + queued_label(list, page.items[i]),
            48,
        );
    let marks = |i: int| page.items[i].position == page.current_position;
    lemma_rows_read(page.items.len(), queue_row(list, page, palette), texts, marks, palette, row);
}

/// The play order of the liked songs, of a playlist and of a search take their names from
/// the list of that name.
pub proof fn up_next_names_come_from_the_source(u: UiView, id: Seq<char>)
    ensures
        source_list(u, SourceView::Liked) == u.items,
        source_list(u, SourceView::Playlist(id)) == u.playlist_tracks,
        source_list(u, SourceView::Search) == u.search_results,
{
}

/// A touch of the header scrolls the list that is open, and only it, by eight rows or to
/// its end: up on the left, down on the right.
pub proof fn header_scrolls_the_open_list(u: UiView, now: u64)
    requires
        u.wf(),
        is_list(u.nav.view),
        u.device.y < 40,
        !u.device.asleep,
        open_list(u).len() <= usize::MAX,
    ensures
        ({
            let (after, effect) = touched(u, now);
            let (first, len) = (open_scroll(u) as int, open_list(u).len() as int);
            &&& effect == EffectView::Nothing
            &&& open_scroll(after) == if u.device.x < 360 {
                if first >= 8 {
                    first - 8
                } else {
                    0
                }
            } else if first + 8 + 9 <= len {
                first + 8
            } else if len >= 9 {
                len - 9
            } else {
                0
            }
            &&& open_mark(after) == open_mark(u)
            &&& after.nav.view == u.nav.view
            &&& u.nav.view != AppView::Library ==> after.nav.scroll == u.nav.scroll
            &&& u.nav.view != AppView::Playlists ==> after.nav.playlist_scroll
                == u.nav.playlist_scroll
            &&& u.nav.view != AppView::PlaylistTracks ==> after.nav.playlist_track_scroll
                == u.nav.playlist_track_scroll
            &&& u.nav.view != AppView::SearchResults ==> after.nav.search_scroll
                == u.nav.search_scroll
        }),
{
}

/// The arrows in the header tell on which side a list goes on: there, and only there, a
/// touch of the header moves it.
pub proof fn arrows_tell_where_a_list_goes_on(u: UiView, now: u64, palette: Palette)
    requires
        u.wf(),
        is_list(u.nav.view),
        u.device.y < 40,
        !u.device.asleep,
        open_list(u).len() <= usize::MAX,
    ensures
        ({
            let moved = open_scroll(touched(u, now).0) != open_scroll(u);
            let up = label("^"@, 368, 12, Font::Bold, palette.header_text);
            let down = label("v"@, 392, 12, Font::Bold, palette.header_text);
            &&& u.device.x < 360 ==> (moved <==> arrows(u, palette).contains(up))
            &&& u.device.x >= 360 ==> (moved <==> arrows(u, palette).contains(down))
        }),
{
    reveal_strlit("^");
    reveal_strlit("v");
    let up = label("^"@, 368, 12, Font::Bold, palette.header_text);
    let down = label("v"@, 392, 12, Font::Bold, palette.header_text);
    let (above, below) = goes_on(u);
    let shapes = arrows(u, palette);
    assert("^"@[0] == '^' && "v"@[0] == 'v');
    assert(up != down);
    if above {
        assert(shapes[0] == up);
    }
    if below {
        assert(shapes[shapes.len() - 1] == down);
    }
}

/// The screen is awake and not in the part of the start screen that retries.
pub open spec fn is_awake(u: UiView) -> bool {
    !u.device.asleep && u.device.stage is None
}

/// A touch of the progress bar of the strip seeks to the part of the track that lies left
/// of the finger, and the bar is then filled up to the finger, to the pixel where the track
/// has a millisecond for each.
pub proof fn strip_seek_follows_the_finger(u: UiView, now: u64)
    requires
        is_awake(u),
        u.nav.view != AppView::NowPlaying,
        620 <= u.device.y < 640,
        10 <= u.device.x <= 470,
        u.now_playing is Some,
        u.now_playing->0.duration_ms > 0,
    ensures
        ({
            let (after, effect) = touched(u, now);
            let duration = u.now_playing->0.duration_ms;
            let ms = after.play.position->0;
            let bar = filled(clipped(after.play.position, duration), duration, 460);
            &&& after.play.position is Some
            &&& effect == EffectView::Send("SEEK "@ + decimal(ms as nat))
            &&& ms * 460 <= (u.device.x - 10) * duration < (ms + 1) * 460
            &&& u.device.x == 10 ==> ms == 0
            &&& u.device.x == 470 ==> ms == duration
            &&& bar <= u.device.x - 10
            &&& duration >= 460 ==> bar >= u.device.x - 11
            &&& after.nav.view == u.nav.view
            &&& after.device.strip_dirty
        }),
{
    lemma_sought(u.device.x - 10, u.now_playing->0.duration_ms, 460);
}

/// The same on the screen of the current track, with its wider bar.
pub proof fn big_seek_follows_the_finger(u: UiView, now: u64)
    requires
        is_awake(u),
        u.nav.view == AppView::NowPlaying,
        275 <= u.device.y < 350,
        20 <= u.device.x <= 460,
        u.now_playing is Some,
        u.now_playing->0.duration_ms > 0,
    ensures
        ({
            let (after, effect) = touched(u, now);
            let duration = u.now_playing->0.duration_ms;
            let ms = after.play.position->0;
            let bar = filled(clipped(after.play.position, duration), duration, 440);
            &&& after.play.position is Some
            &&& effect == EffectView::Send("SEEK "@ + decimal(ms as nat))
            &&& ms * 440 <= (u.device.x - 20) * duration < (ms + 1) * 440
            &&& u.device.x == 20 ==> ms == 0
            &&& u.device.x == 460 ==> ms == duration
            &&& bar <= u.device.x - 20
            &&& duration >= 440 ==> bar >= u.device.x - 21
            &&& after.nav.view == u.nav.view
            &&& after.device.dirty
        }),
{
    lemma_sought(u.device.x - 20, u.now_playing->0.duration_ms, 440);
}

proof fn lemma_sought(offset: int, duration: u32, width: int)
    requires
        0 <= offset <= width,
        0 < width <= 480,
        0 < duration,
    ensures
        ({
            let ms = offset * duration / width;
            &&& 0 <= ms <= duration
            &&& ms * width <= offset * duration < (ms + 1) * width
            &&& offset == 0 ==> ms == 0
            &&& offset == width ==> ms == duration
            &&& ms * width / (duration as int) <= offset
            &&& duration >= width ==> ms * width / (duration as int) >= offset - 1
        }),
{
    let product = offset * duration;
    let ms = product / width;
    vstd::arithmetic::div_mod::lemma_fundamental_div_mod(product, width);
    assert(product == width * ms + product % width);
    assert(0 <= product <= width * duration) by (nonlinear_arith)
        requires
            product == offset * duration,
            0 <= offset <= width,
            0 < duration,
    ;
    assert(ms * width == width * ms) by (nonlinear_arith);
    assert((ms + 1) * width == ms * width + width) by (nonlinear_arith);
    assert(ms <= duration) by (nonlinear_arith)
        requires
            ms * width <= width * duration,
            0 < width,
    ;
    assert(ms >= 0) by (nonlinear_arith)
        requires
            (ms + 1) * width > 0,
            0 < width,
    ;
    if offset == 0 {
        assert(product == 0) by (nonlinear_arith)
            requires
                product == offset * duration,
                offset == 0,
        ;
        assert(ms == 0);
    }
    if offset == width {
        assert(ms >= duration) by (nonlinear_arith)
            requires
                (ms + 1) * width > offset * duration,
                offset == width,
                0 < width,
        ;
    }
    let back = ms * width;
    let bar = back / (duration as int);
    vstd::arithmetic::div_mod::lemma_fundamental_div_mod(back, duration as int);
    assert(back == duration * bar + back % (duration as int));
    assert(bar <= offset) by (nonlinear_arith)
        requires
            duration * bar <= back,
            back <= offset * duration,
            0 < duration,
    ;
    if duration >= width {
        assert(bar >= offset - 1) by (nonlinear_arith)
            requires
                back < duration * bar + duration,
                back + width > offset * duration,
                duration >= width,
                0 < duration,
        ;
    }
}

/// Of two touches of a progress bar the one further to the right seeks further, or as far.
pub proof fn seeking_follows_the_finger_to_the_right(u: UiView, v: UiView, now: u64)
    requires
        is_awake(u),
        is_awake(v),
        u.nav.view != AppView::NowPlaying,
        v.nav.view == u.nav.view,
        620 <= u.device.y < 640,
        620 <= v.device.y < 640,
        10 <= u.device.x <= v.device.x <= 470,
        u.now_playing is Some,
        u.now_playing->0.duration_ms > 0,
        v.now_playing == u.now_playing,
    ensures
        touched(u, now).0.play.position->0 <= touched(v, now).0.play.position->0,
{
    let duration = u.now_playing->0.duration_ms;
    strip_seek_follows_the_finger(u, now);
    strip_seek_follows_the_finger(v, now);
    let a = touched(u, now).0.play.position->0 as int;
    let b = touched(v, now).0.play.position->0 as int;
    let (p, q) = ((u.device.x - 10) as int, (v.device.x - 10) as int);
    assert(a <= b) by (nonlinear_arith)
        requires
            a * 460 <= p * duration,
            q * duration < (b + 1) * 460,
            p <= q,
            0 < duration,
    ;
}

/// While no track is known, and above the bar, the strip seeks nowhere.
pub proof fn strip_seeks_only_a_known_track(u: UiView, now: u64)
    requires
        is_awake(u),
        u.nav.view != AppView::NowPlaying,
        580 <= u.device.y < 640,
        u.now_playing is None || u.now_playing->0.duration_ms == 0 || u.device.y < 620,
    ensures
        !(touched(u, now).1 is Send),
        touched(u, now).0.play == u.play,
{
}

/// The marks at the ends of the strip step back and on, and what lies between them opens
/// the screen of the track, from which the way back leads here.
pub proof fn strip_marks_step(u: UiView, now: u64, palette: Palette)
    requires
        is_awake(u),
        u.nav.view != AppView::NowPlaying,
        580 <= u.device.y < 620,
        u.now_playing is Some,
    ensures
        strip(u.now_playing, u.play.position, u.play.state, palette)[1] == label(
            "<|"@,
            8,
            583,
            Font::Bold,
            palette.text,
        ),
        strip(u.now_playing, u.play.position, u.play.state, palette)[2] == label(
            "|>"@,
            452,
            583,
            Font::Bold,
            palette.text,
        ),
        u.device.x < 80 ==> touched(u, now).1 == EffectView::AskStep(false),
        u.device.x >= 400 ==> touched(u, now).1 == EffectView::AskStep(true),
        80 <= u.device.x < 400 ==> touched(u, now).1 == EffectView::Nothing && touched(
            u,
            now,
        ).0.nav.view == AppView::NowPlaying && back(touched(u, now).0.nav) == u.nav.view,
        touched(u, now).0.play == u.play,
{
}

/// The strip names the track that plays and tells how far it has come.
pub proof fn strip_shows_the_track(u: UiView, palette: Palette)
    requires
        u.now_playing is Some,
    ensures
        ({
            let item = u.now_playing->0;
            let shapes = strip(u.now_playing, u.play.position, u.play.state, palette);
            &&& shapes[3] == label(shortened(item.title, 43), 38, 583, Font::Bold, palette.text)
            &&& shapes[4] is Label
            &&& item.artist.len() > 0 && item.artist.len() <= 20 ==> shapes[4]->text == item.artist
            &&& shapes[5] is Label
            &&& shapes[5]->text == crate::ui::labels::clock_text(
                clipped(u.play.position, item.duration_ms) as nat,
            ) + " / "@ + crate::ui::labels::clock_text(item.duration_ms as nat)
        }),
{
    let item = u.now_playing->0;
    let at = clipped(u.play.position, item.duration_ms);
    reveal_strlit(" / ");
    crate::ui::panels::lemma_clock_len(at);
    crate::ui::panels::lemma_clock_len(item.duration_ms);
}

/// Without a track the strip says what is the matter.
pub proof fn strip_tells_the_silence(u: UiView, palette: Palette)
    requires
        u.now_playing is None,
    ensures
        ({
            let shapes = strip(u.now_playing, u.play.position, u.play.state, palette);
            &&& shapes.len() == 2
            &&& shapes[1] is Label
            &&& shapes[1]->text == match u.play.state {
                PlaybackState::Unknown => "Reconnecting..."@,
                PlaybackState::Error => "Playback error"@,
                _ => "Nothing playing"@,
            }
        }),
{
}

/// The buttons of the screen of the track do what is written on them where they are drawn:
/// back, pause or play, on, and to the play order.
pub proof fn big_buttons_do_what_they_say(u: UiView, now: u64, palette: Palette)
    requires
        is_awake(u),
        u.nav.view == AppView::NowPlaying,
    ensures
        ({
            let shapes = big_buttons(u.play.state, palette);
            &&& shapes[0] == rect(0, 390, 160, 100, palette.now_playing)
            &&& shapes[1] == rect(160, 390, 160, 100, palette.now_playing)
            &&& shapes[2] == rect(320, 390, 160, 100, palette.now_playing)
            &&& shapes[5]->text == "Previous"@
            &&& shapes[6]->text == middle_label(u.play.state)
            &&& shapes[7]->text == "Next"@
            &&& shapes[8] == rect(40, 520, 400, 90, palette.now_playing)
            &&& shapes[9]->text == "View Up Next"@
        }),
        390 <= u.device.y < 490 ==> {
            let (after, effect) = touched(u, now);
            &&& 0 <= u.device.x < 160 ==> effect == EffectView::AskStep(false)
            &&& 160 <= u.device.x < 320 ==> effect == EffectView::Send(
                if middle_label(u.play.state) == "Play"@ {
                    "PLAY"@
                } else {
                    "PAUSE"@
                },
            )
            &&& 320 <= u.device.x < 480 ==> effect == EffectView::AskStep(true)
            &&& after.play == u.play
            &&& after.nav.view == u.nav.view
        },
        520 <= u.device.y < 610 ==> touched(u, now).1 == EffectView::AskFirstPage && touched(
            u,
            now,
        ).0.nav.up_next_return == AppView::NowPlaying,
{
    reveal_strlit("Play");
    reveal_strlit("Pause");
    assert("Play"@.len() == 4 && "Pause"@.len() == 5);
}

/// The label of the third button of the toolbar tells the command that it sends, and the
/// label of the first one whether it leaves.
pub proof fn toolbar_does_what_it_says(u: UiView, now: u64, palette: Palette)
    requires
        is_awake(u),
        u.device.y >= 660,
    ensures
        ({
            let (after, effect) = touched(u, now);
            let shapes = toolbar(u, palette);
            &&& shapes.len() == 8
            &&& u.device.x < 120 ==> {
                &&& effect == EffectView::Exit <==> shapes[4]->text == "Confirm"@
                &&& effect != EffectView::Exit ==> toolbar(after, palette)[4]->text == "Confirm"@
                    && effect == EffectView::Nothing
            }
            &&& 120 <= u.device.x < 240 ==> {
                &&& effect == EffectView::SetBrightness
                &&& toolbar(after, palette)[5]->text == "Bright "@ + brightness_text(
                    after.device.brightness as int,
                )
                &&& after.device.brightness == if u.device.brightness == 4 {
                    0
                } else {
                    (u.device.brightness + 1) as usize
                } || u.device.brightness >= 5
            }
            &&& 240 <= u.device.x < 360 ==> {
                &&& shapes[6]->text == "Resume"@ ==> effect == EffectView::Send("PLAY"@)
                &&& shapes[6]->text == "Pause"@ ==> effect == EffectView::Send("PAUSE"@)
                &&& shapes[6]->text == "Resume"@ <==> u.play.state == PlaybackState::Paused
                &&& shapes[6]->text == "Pause"@ <==> u.play.state != PlaybackState::Paused
            }
            &&& u.device.x >= 360 && u.nav.view != AppView::Library ==> {
                &&& shapes[7]->text == "Back"@
                &&& after.nav.view == back(u.nav)
            }
            &&& u.nav.view == AppView::Library ==> shapes[7]->text == "Refresh"@
            &&& u.device.x >= 120 ==> !after.nav.exit_armed
            &&& after.play == u.play
        }),
{
    reveal_strlit("Confirm");
    reveal_strlit("Exit");
    reveal_strlit("Resume");
    reveal_strlit("Pause");
    assert("Confirm"@.len() == 7 && "Exit"@.len() == 4 && "Resume"@.len() == 6 && "Pause"@.len() == 5);
}

/// A brightness reads as the level that is set, in percent.
pub proof fn brightness_reads_as_its_level(index: int)
    requires
        0 <= index < 5,
    ensures
        brightness_text(index) == decimal(brightness_of(index) as nat) + "%"@,
        index > 0 ==> brightness_of(index) < brightness_of(index - 1),
        brightness_of(0) == 100,
        brightness_of(index) >= 25,
{
    reveal_strlit("%");
    reveal_strlit("100%");
    reveal_strlit("80%");
    reveal_strlit("60%");
    reveal_strlit("40%");
    reveal_strlit("25%");
    reveal_with_fuel(decimal, 4);
    assert(brightness_text(index) =~= decimal(brightness_of(index) as nat) + "%"@);
}

/// The way back: from every view the button leads one level up, and from the two that can
/// be opened from elsewhere to where they were opened.
pub proof fn back_leads_up(nav: Nav)
    ensures
        nav.view == AppView::PlaylistTracks ==> back(nav) == AppView::Playlists,
        nav.view == AppView::SearchResults || nav.view == AppView::SearchHistory ==> back(nav)
            == AppView::SearchInput,
        nav.view == AppView::Special ==> back(nav) == AppView::Appearance,
        nav.view == AppView::Menu ==> back(nav) == AppView::Library,
        nav.view == AppView::Playlists || nav.view == AppView::SearchInput || nav.view
            == AppView::Sound || nav.view == AppView::Appearance || nav.view == AppView::Diagnostics
            || nav.view == AppView::Settings ==> back(nav) == AppView::Menu,
        nav.view == AppView::UpNext ==> back(nav) == nav.up_next_return,
        nav.view == AppView::NowPlaying ==> back(nav) == nav.now_playing_return,
{
}

/// A touch of a key types the letter that is drawn on it, as a small one, behind what was
/// typed; a full line takes no more.
pub proof fn key_types_the_letter_on_it(u: UiView, row: int, column: int, now: u64, palette: Palette)
    requires
        is_awake(u),
        u.nav.view == AppView::SearchInput,
        !u.nav.search_in_progress,
        0 <= row < 3,
        0 <= column < key_row(row).len(),
        key_left(row) + column * 48 + 2 <= u.device.x < key_left(row) + column * 48 + 46,
        105 + row * 105 <= u.device.y < 105 + row * 105 + 92,
    ensures
        ({
            let (after, effect) = touched(u, now);
            let drawn = key_shapes(row, palette)(column)[1]->text[0];
            let typed = after.query.last();
            &&& effect == EffectView::Nothing
            &&& u.query.len() < 48 ==> after.query.len() == u.query.len() + 1
                && after.query.drop_last() == u.query && 'A' <= drawn <= 'Z' && typed as int
                == drawn as int + 32
            &&& u.query.len() >= 48 ==> after.query == u.query
        }),
{
    assert((u.device.y - 105) / 105 == row);
    assert((u.device.x - key_left(row)) / 48 == column);
    reveal_strlit("QWERTYUIOP");
    reveal_strlit("ASDFGHJKL");
    reveal_strlit("ZXCVBNM");
    let after = touched(u, now).0;
    if u.query.len() < 48 {
        assert(after.query.drop_last() =~= u.query);
    }
}

/// The keyboard has every letter once.
pub proof fn keyboard_has_every_letter(c: char)
    requires
        'A' <= c <= 'Z',
    ensures
        exists|row: int, column: int|
            0 <= row < 3 && 0 <= column < key_row(row).len() && #[trigger] key_row(row)[column] == c,
        key_row(0).len() + key_row(1).len() + key_row(2).len() == 26,
{
    reveal_strlit("QWERTYUIOP");
    reveal_strlit("ASDFGHJKL");
    reveal_strlit("ZXCVBNM");
    let top = "QWERTYUIOP"@;
    let home = "ASDFGHJKL"@;
    let bottom = "ZXCVBNM"@;
    assert(top.len() == 10 && home.len() == 9 && bottom.len() == 7);
    let n = c as int - 'A' as int;
    let at: (int, int) = if n == 0 {
        (1, 0)
    } else if n == 1 {
        (2, 4)
    } else if n == 2 {
        (2, 2)
    } else if n == 3 {
        (1, 2)
    } else if n == 4 {
        (0, 2)
    } else if n == 5 {
        (1, 3)
    } else if n == 6 {
        (1, 4)
    } else if n == 7 {
        (1, 5)
    } else if n == 8 {
        (0, 7)
    } else if n == 9 {
        (1, 6)
    } else if n == 10 {
        (1, 7)
    } else if n == 11 {
        (1, 8)
    } else if n == 12 {
        (2, 6)
    } else if n == 13 {
        (2, 5)
    } else if n == 14 {
        (0, 8)
    } else if n == 15 {
        (0, 9)
    } else if n == 16 {
        (0, 0)
    } else if n == 17 {
        (0, 3)
    } else if n == 18 {
        (1, 1)
    } else if n == 19 {
        (0, 4)
    } else if n == 20 {
        (0, 6)
    } else if n == 21 {
        (2, 3)
    } else if n == 22 {
        (0, 1)
    } else if n == 23 {
        (2, 1)
    } else if n == 24 {
        (0, 5)
    } else {
        (2, 0)
    };
    assert(key_row(at.0)[at.1] == c);
}

/// The buttons below the keyboard: the first one clears, or leads to the recent searches
/// where there is nothing to clear; then a blank, never two and never in front; then one
/// that takes back the last letter; then one that searches for what was typed.
pub proof fn search_buttons_do_what_they_say(u: UiView, now: u64)
    requires
        is_awake(u),
        u.nav.view == AppView::SearchInput,
        !u.nav.search_in_progress,
        420 <= u.device.y < 540,
        0 <= u.device.x < 480,
    ensures
        ({
            let (after, effect) = touched(u, now);
            &&& u.device.x < 120 && (u.query.len() > 0 || u.recent.len() == 0) ==> after.query.len()
                == 0 && after.nav.view == AppView::SearchInput
            &&& u.device.x < 120 && u.query.len() == 0 && u.recent.len() > 0 ==> after.nav.view
                == AppView::SearchHistory
            &&& 120 <= u.device.x < 240 ==> after.query == if 0 < u.query.len() < 48
                && u.query.last() != ' ' {
                u.query.push(' ')
            } else {
                u.query
            }
            &&& 240 <= u.device.x < 360 ==> after.query == if u.query.len() > 0 {
                u.query.drop_last()
            } else {
                u.query
            }
            &&& u.device.x < 360 ==> effect == EffectView::Nothing && !after.nav.search_in_progress
            &&& u.device.x >= 360 ==> after.query == u.query && (crate::text::trimmed(u.query).len()
                > 0 <==> after.nav.search_in_progress) && effect == if crate::text::trimmed(
                u.query,
            ).len() > 0 {
                EffectView::Search(crate::text::trimmed(u.query))
            } else {
                EffectView::Nothing
            }
            &&& after.recent == u.recent
        }),
{
}

/// The buttons below the keyboard are drawn where they are touched.
pub proof fn search_buttons_are_where_they_are_drawn(u: UiView, palette: Palette)
    ensures
        ({
            let shapes = search_input(u, palette);
            let n = shapes.len() as int;
            &&& n >= 8
            &&& shapes[n - 8] == rect(0, 420, 120, 120, palette.now_playing)
            &&& shapes[n - 7]->text == if u.query.len() == 0 && u.recent.len() > 0 {
                "Recent"@
            } else {
                "Clear"@
            }
            &&& shapes[n - 6] == rect(120, 420, 120, 120, palette.now_playing)
            &&& shapes[n - 5]->text == "Space"@
            &&& shapes[n - 4] == rect(240, 420, 120, 120, palette.now_playing)
            &&& shapes[n - 3]->text == "Delete"@
            &&& shapes[n - 2] == rect(360, 420, 120, 120, palette.now_playing)
            &&& shapes[n - 1]->text == if u.nav.search_in_progress {
                "Wait"@
            } else {
                "Go"@
            }
            &&& shapes[1]->text == if u.nav.search_in_progress {
                "Searching..."@
            } else if u.query.len() == 0 {
                "Tap letters to search"@
            } else {
                shortened(u.query, 48)
            }
        }),
{
}

/// A point on a tile of a menu.
pub open spec fn touches_tile(u: UiView, tile: int) -> bool {
    &&& is_awake(u)
    &&& 0 <= tile < 6
    &&& tile % 2 * 240 <= u.device.x < tile % 2 * 240 + 240
    &&& 40 + tile / 2 * 180 <= u.device.y < 40 + tile / 2 * 180 + 180
}

/// The tiles of the main menu lead where they say: to the screen with that title, to the
/// playlists, or to the settings; what has to be asked for first is asked for.
pub proof fn menu_tiles_lead_where_they_say(
    u: UiView,
    tile: int,
    now: u64,
    checks: Checks,
    reply: Option<Seq<char>>,
    text: Seq<char>,
)
    requires
        u.nav.view == AppView::Menu,
        touches_tile(u, tile),
    ensures
        ({
            let (after, effect) = touched(u, now);
            let says = tile_text(u, checks, tile);
            &&& says == "Search"@ ==> effect == EffectView::Nothing && title_of(after) == says
            &&& says == "Sound"@ ==> effect == EffectView::AskModes && title_of(
                sound_answered(after, reply),
            ) == says
            &&& says == "Library"@ ==> effect == EffectView::AskPlaylists && title_of(
                playlists_answered(after, text),
            ) == "Playlists"@
            &&& says == "Appearance"@ ==> effect == EffectView::Nothing && title_of(after) == says
            &&& says == "Device"@ ==> effect == EffectView::Nothing && title_of(after)
                == "Settings"@
            &&& says == "Diagnostics"@ ==> effect == EffectView::AskQueueStatus && title_of(
                diagnostics_answered(after, reply),
            ) == says
            &&& says == "Search"@ || says == "Sound"@ || says == "Library"@ || says == "Appearance"@
                || says == "Device"@ || says == "Diagnostics"@
            &&& after.play == u.play
        }),
{
    reveal_strlit("Search");
    reveal_strlit("Sound");
    reveal_strlit("Library");
    reveal_strlit("Appearance");
    reveal_strlit("Device");
    reveal_strlit("Diagnostics");
    assert("Search"@.len() == 6 && "Sound"@.len() == 5 && "Library"@.len() == 7);
    assert("Appearance"@.len() == 10 && "Device"@.len() == 6 && "Diagnostics"@.len() == 11);
    assert("Search"@[0] == 'S' && "Device"@[0] == 'D');
    assert((u.device.y - 40) / 180 * 2 + u.device.x / 240 == tile);
}

/// A letter A-Z as the small one, a blank as a hyphen, anything else as it is.
pub open spec fn key_char(c: char) -> char {
    if 'A' <= c <= 'Z' {
        (c as int + 32) as char
    } else if c == ' ' {
        '-'
    } else {
        c
    }
}

/// Whether a theme goes by a name: its key starts with the name, written as a key.
pub open spec fn goes_by(key: Seq<char>, name: Seq<char>) -> bool {
    name.len() <= key.len() && forall|i: int|
        0 <= i < name.len() ==> #[trigger] key_char(name[i]) == key[i]
}

/// A tile with the name of a theme sets the theme of that name.
pub proof fn theme_tiles_set_the_theme_they_name(u: UiView, tile: int, now: u64)
    requires
        u.nav.view == AppView::Appearance || u.nav.view == AppView::Special,
        touches_tile(u, tile),
        tile < 5,
    ensures
        goes_by(theme_key(touched(u, now).0.device.theme), tile_label(u.nav.view, tile)),
        touched(u, now).1 == EffectView::KeepTheme,
        touched(u, now).0.nav.view == u.nav.view,
        tile_marked(touched(u, now).0, tile),
        forall|other: int|
            0 <= other < 6 && other != tile ==> !#[trigger] tile_marked(touched(u, now).0, other),
{
    reveal_strlit("El Kay Kay");
    reveal_strlit("Tidepool");
    reveal_strlit("Citrus Grove");
    reveal_strlit("Monochrome");
    reveal_strlit("Paper Lantern");
    reveal_strlit("Durandal");
    reveal_strlit("Arcade Bloom");
    reveal_strlit("Desert Bloom");
    reveal_strlit("Al Noor");
    reveal_strlit("Night Market");
    reveal_strlit("el-kay-kay");
    reveal_strlit("tidepool");
    reveal_strlit("citrus-grove");
    reveal_strlit("monochrome-static");
    reveal_strlit("paper-lantern");
    reveal_strlit("durandal-terminal");
    reveal_strlit("arcade-bloom");
    reveal_strlit("desert-bloom");
    reveal_strlit("al-noor");
    reveal_strlit("night-market");
    assert((u.device.y - 40) / 180 * 2 + u.device.x / 240 == tile);
    let name = tile_label(u.nav.view, tile);
    let key = theme_key(touched(u, now).0.device.theme);
    assert(name.len() <= key.len());
    assert forall|i: int| 0 <= i < name.len() implies #[trigger] key_char(name[i]) == key[i] by {}
}

/// The last tile of each page of themes leads to the other page.
pub proof fn theme_pages_lead_to_each_other(u: UiView, now: u64)
    requires
        touches_tile(u, 5),
    ensures
        u.nav.view == AppView::Appearance ==> touched(u, now).0.nav.view == AppView::Special,
        u.nav.view == AppView::Special ==> touched(u, now).0.nav.view == AppView::Appearance,
        u.nav.view == AppView::Sound || u.nav.view == AppView::Settings ==> touched(
            u,
            now,
        ).0.nav.view == AppView::Menu,
        u.nav.view == AppView::Diagnostics ==> touched(u, now).1 == EffectView::AskRefresh,
{
    assert((u.device.y - 40) / 180 * 2 + u.device.x / 240 == 5);
}

/// A tile of the settings tells the time after which the screen sleeps once it is chosen,
/// and is then the one that is marked.
pub proof fn sleep_tiles_set_the_time_they_tell(u: UiView, tile: int, now: u64)
    requires
        u.nav.view == AppView::Settings,
        touches_tile(u, tile),
        tile < 5,
    ensures
        ({
            let (after, effect) = touched(u, now);
            &&& effect == EffectView::KeepSleep
            &&& after.times.input == now
            &&& tile_marked(after, tile)
            &&& forall|other: int|
                0 <= other < 6 && other != tile ==> !#[trigger] tile_marked(after, other)
            &&& tile_label(AppView::Settings, tile) == match sleep_after(after.device.sleep as int) {
                Some(ms) => if ms <= 60_000 {
                    "Sleep: "@ + decimal((ms / 1000) as nat) + " sec"@
                } else {
                    "Sleep: "@ + decimal((ms / 60_000) as nat) + " min"@
                },
                None => "Sleep: Never"@,
            }
        }),
{
    reveal_strlit("Sleep: ");
    reveal_strlit(" sec");
    reveal_strlit(" min");
    reveal_strlit("Sleep: 30 sec");
    reveal_strlit("Sleep: 60 sec");
    reveal_strlit("Sleep: 2 min");
    reveal_strlit("Sleep: 5 min");
    reveal_with_fuel(decimal, 3);
    assert((u.device.y - 40) / 180 * 2 + u.device.x / 240 == tile);
    assert("Sleep: 30 sec"@ =~= "Sleep: "@ + decimal(30) + " sec"@);
    assert("Sleep: 60 sec"@ =~= "Sleep: "@ + decimal(60) + " sec"@);
    assert("Sleep: 2 min"@ =~= "Sleep: "@ + decimal(2) + " min"@);
    assert("Sleep: 5 min"@ =~= "Sleep: "@ + decimal(5) + " min"@);
}

/// The sound menu marks the modes that are set, and its first tile tells the shuffle mode
/// and asks for the other one.
pub proof fn sound_tiles_tell_the_modes(u: UiView, tile: int, now: u64, checks: Checks)
    requires
        u.nav.view == AppView::Sound,
        touches_tile(u, tile),
    ensures
        tile == 0 && tile_text(u, checks, 0) == "Shuffle: On"@ ==> u.play.modes.shuffle && touched(
            u,
            now,
        ).1 == EffectView::AskSetMode("SET_SHUFFLE OFF"@),
        tile == 0 && tile_text(u, checks, 0) == "Shuffle: Off"@ ==> !u.play.modes.shuffle && touched(
            u,
            now,
        ).1 == EffectView::AskSetMode("SET_SHUFFLE ON"@),
        tile_text(u, checks, 0) == "Shuffle: On"@ || tile_text(u, checks, 0) == "Shuffle: Off"@,
        1 <= tile <= 3 ==> touched(u, now).1 is AskSetMode,
        tile == 4 ==> touched(u, now).1 == EffectView::AskFirstPage && touched(
            u,
            now,
        ).0.nav.up_next_return == AppView::Sound && tile_text(u, checks, 4) == "Up Next"@,
        tile <= 4 ==> touched(u, now).0.play == u.play && touched(u, now).0.nav.view
            == AppView::Sound,
{
    reveal_strlit("Shuffle: On");
    reveal_strlit("Shuffle: Off");
    assert("Shuffle: On"@.len() == 11 && "Shuffle: Off"@.len() == 12);
    assert((u.device.y - 40) / 180 * 2 + u.device.x / 240 == tile);
}

/// Every part is on the screen: the background, what moves, the header, what the view
/// shows, the arrows, the tiles, the strip and the toolbar; while the device starts, the
/// start screen takes the place of all but the first three.
pub proof fn screen_shows_every_part(u: UiView, checks: Checks, now: u64, s: ShapeView)
    ensures
        ({
            let palette = crate::ui::palette::palette_of(u.device.theme);
            let all = screen(u, checks, now);
            &&& all.len() > 0
            &&& all[0] == rect(0, 0, 480, 720, palette.background)
            &&& header(u, palette).contains(s) ==> all.contains(s)
            &&& u.device.stage is None ==> {
                &&& content(u, palette).contains(s) ==> all.contains(s)
                &&& arrows(u, palette).contains(s) ==> all.contains(s)
                &&& tiles(u, checks, palette).contains(s) ==> all.contains(s)
                &&& toolbar(u, palette).contains(s) ==> all.contains(s)
                &&& u.nav.view != AppView::NowPlaying && strip(
                    u.now_playing,
                    u.play.position,
                    u.play.state,
                    palette,
                ).contains(s) ==> all.contains(s)
            }
            &&& u.device.stage is Some && now >= u.times.stage_start ==> {
                &&& start_screen(
                    u.device.stage->0,
                    ((now - u.times.stage_start) / 1_000_000_000) as nat,
                    u.times.retry is Some,
                    palette,
                ).contains(s) ==> all.contains(s)
            }
        }),
{
    let palette = crate::ui::palette::palette_of(u.device.theme);
    let first = seq![rect(0, 0, 480, 720, palette.background)];
    let moving = scenery(u.device.theme, palette, u.device.seed, u.device.frame);
    let head = header(u, palette);
    lemma_contains(first, moving, s);
    lemma_contains(first + moving, head, s);
    let back = first + moving + head;
    match u.device.stage {
        Some(stage) => {
            let shown = start_screen(
                stage,
                (crate::ui::tick::elapsed(now, u.times.stage_start) / 1_000_000_000) as nat,
                u.times.retry is Some,
                palette,
            );
            lemma_contains(back, shown, s);
        },
        None => {
            let a = content(u, palette);
            let b = arrows(u, palette);
            let c = tiles(u, checks, palette);
            let d = footer(u, palette);
            let e = toolbar(u, palette);
            let below = strip(u.now_playing, u.play.position, u.play.state, palette);
            lemma_contains(below, seq![rect(0, 640, 480, 20, palette.separator)], s);
            assert(below.push(rect(0, 640, 480, 20, palette.separator)) =~= below + seq![
                rect(0, 640, 480, 20, palette.separator),
            ]);
            lemma_contains(a, b, s);
            lemma_contains(a + b, c, s);
            lemma_contains(a + b + c, d, s);
            lemma_contains(a + b + c + d, e, s);
            lemma_contains(back, a + b + c + d + e, s);
        },
    }
}

proof fn lemma_contains(a: Seq<ShapeView>, b: Seq<ShapeView>, s: ShapeView)
    ensures
        a.contains(s) || b.contains(s) ==> (a + b).contains(s),
{
    if a.contains(s) {
        let k = choose|k: int| 0 <= k < a.len() && a[k] == s;
        assert((a + b)[k] == s);
    } else if b.contains(s) {
        let k = choose|k: int| 0 <= k < b.len() && b[k] == s;
        assert((a + b)[a.len() + k] == s);
    }
}

/// The header tells the view, the state of playback and the charge.
pub proof fn header_tells_the_state(u: UiView, palette: Palette)
    requires
        u.device.stage is None,
    ensures
        ({
            let shapes = header(u, palette);
            &&& shapes.len() == 4
            &&& shapes[1]->text == title_of(u)
            &&& shapes[2]->text == match u.play.state {
                PlaybackState::Unknown => "Connecting"@,
                PlaybackState::Stopped => "Stopped"@,
                PlaybackState::Loading => "Loading"@,
                PlaybackState::Playing => "Playing"@,
                PlaybackState::Paused => "Paused"@,
                PlaybackState::Error => "Error"@,
            }
            &&& u.device.battery matches Some(percent) ==> shapes[3]->text == decimal(percent as nat)
                + "%"@
        }),
{
}

/// The retry button of the start screen is drawn where it is touched, and asks to bring up
/// what is waited for; the note that it was asked for shows at once.
pub proof fn retry_button_is_where_it_is_drawn(u: UiView, now: u64, palette: Palette)
    requires
        !u.device.asleep,
        u.device.stage is Some,
        455 <= u.device.y < 515,
    ensures
        ({
            let (after, effect) = touched(u, now);
            let stage = u.device.stage->0;
            let shapes = start_screen(stage, 0, after.times.retry is Some, palette);
            &&& effect == EffectView::Recover(stage)
            &&& shapes[7] == rect(110, 455, 260, 60, palette.header)
            &&& shapes[8]->text == "Retry requested"@
            &&& after.device.stage == u.device.stage
            &&& after.times.stage_start == now
            &&& after.nav == u.nav
        }),
{
}

/// Where nothing is drawn to be touched, a touch does nothing but disarm the exit: between
/// and below the keys, beside the bar, on the free parts of the screen of the track, and on
/// the tiles of the diagnostics that only tell something.
pub proof fn free_parts_do_nothing(u: UiView, now: u64)
    requires
        is_awake(u),
        ({
            let (x, y) = (u.device.x, u.device.y);
            ||| u.nav.view == AppView::SearchInput && (40 <= y < 105 || 407 <= y < 420 || 540 <= y < 580)
            ||| u.nav.view != AppView::NowPlaying && 620 <= y < 640 && (x < 10 || x > 470)
            ||| u.nav.view == AppView::NowPlaying && (40 <= y < 275 || 350 <= y < 390 || 490 <= y < 520
                || 640 <= y < 660)
            ||| u.nav.view == AppView::NowPlaying && 275 <= y < 350 && (x < 20 || x > 460)
            ||| u.nav.view == AppView::Diagnostics && 40 <= y < 400
        }),
    ensures
        touched(u, now).1 == EffectView::Nothing,
        touched(u, now).0 == (UiView {
            nav: Nav { exit_armed: false, ..u.nav },
            device: Device { touching: false, ..u.device },
            times: Times { input: now, ..u.times },
            ..u
        }),
{
}

/// Every row is drawn alike: a text, and a line below it; a marked one in bold on a plate.
pub proof fn rows_are_drawn_alike(text: Seq<char>, row: int, palette: Palette)
    ensures
        row_shapes(text, row, false, palette) == seq![
            label(text, 10, 62 + row * 60, Font::Plain, palette.text),
            rect(0, 99 + row * 60, 480, 1, palette.border),
        ],
        row_shapes(text, row, true, palette) == seq![
            rect(0, 40 + row * 60, 480, 60, palette.selected_row),
            label("> "@ + text, 10, 62 + row * 60, Font::Bold, palette.selected_text),
            rect(0, 99 + row * 60, 480, 1, palette.border),
        ],
{
    assert(row_shapes(text, row, false, palette) =~= seq![
        label(text, 10, 62 + row * 60, Font::Plain, palette.text),
        rect(0, 99 + row * 60, 480, 1, palette.border),
    ]);
    assert(row_shapes(text, row, true, palette) =~= seq![
        rect(0, 40 + row * 60, 480, 60, palette.selected_row),
        label("> "@ + text, 10, 62 + row * 60, Font::Bold, palette.selected_text),
        rect(0, 99 + row * 60, 480, 1, palette.border),
    ]);
}

/// Every view has a title of its own.
pub proof fn titles_name_the_views(u: UiView)
    requires
        u.device.stage is None,
    ensures
        u.nav.view == AppView::Library ==> title_of(u) == "Liked Songs"@,
        u.nav.view == AppView::Playlists ==> title_of(u) == "Playlists"@,
        u.nav.view == AppView::PlaylistTracks ==> title_of(u) == "Playlist"@,
        u.nav.view == AppView::SearchInput ==> title_of(u) == "Search"@,
        u.nav.view == AppView::SearchResults ==> title_of(u) == "Search Results"@,
        u.nav.view == AppView::SearchHistory ==> title_of(u) == "Recent Searches"@,
        u.nav.view == AppView::Menu ==> title_of(u) == "More"@,
        u.nav.view == AppView::Sound ==> title_of(u) == "Sound"@,
        u.nav.view == AppView::UpNext ==> title_of(u) == "Up Next"@,
        u.nav.view == AppView::NowPlaying ==> title_of(u) == "Now Playing"@,
        u.nav.view == AppView::Appearance ==> title_of(u) == "Appearance"@,
        u.nav.view == AppView::Special ==> title_of(u) == "Appearance 2"@,
        u.nav.view == AppView::Diagnostics ==> title_of(u) == "Diagnostics"@,
        u.nav.view == AppView::Settings ==> title_of(u) == "Settings"@,
{
}

/// The diagnostics tell what was looked up: the network, the daemon as the header tells it,
/// the sound, the jack whose port is selected, and where the queue comes from.
pub proof fn diagnostics_tell_what_is_known(u: UiView, checks: Checks)
    requires
        u.nav.view == AppView::Diagnostics,
        u.device.stage is None,
    ensures
        tile_text(u, checks, 0) == if checks.wifi {
            "Wi-Fi: Connected"@
        } else {
            "Wi-Fi: Offline"@
        },
        u.play.state != PlaybackState::Unknown ==> tile_text(u, checks, 1) == "Spotify: "@ + status_of(
            u,
        ),
        u.play.state == PlaybackState::Unknown ==> tile_text(u, checks, 1) == "Spotify: Reconnecting"@,
        u.play.state == PlaybackState::Unknown || u.play.state == PlaybackState::Error ==> tile_text(
            u,
            checks,
            2,
        ) == "Audio: Offline"@,
        u.play.state == PlaybackState::Playing && !checks.player ==> tile_text(u, checks, 2)
            == "Audio: Starting"@,
        u.play.state == PlaybackState::Playing && checks.player ==> tile_text(u, checks, 2)
            == "Audio: Ready"@,
        plugged_port(checks.balance, checks.headset) == Some(3u8) ==> tile_text(u, checks, 3)
            == "Output: 4.4 mm"@,
        plugged_port(checks.balance, checks.headset) == Some(2u8) ==> tile_text(u, checks, 3)
            == "Output: 3.5 mm"@,
        plugged_port(checks.balance, checks.headset) is None ==> tile_text(u, checks, 3)
            == "Output: No jack"@,
        tile_text(u, checks, 4) == match u.queue_status {
            None => "Queue: None"@,
            Some(status) => match status.source {
                SourceView::Liked => "Queue: Liked Songs"@,
                SourceView::Playlist(_) => "Queue: Playlist"@,
                SourceView::Search => "Queue: Search"@,
            },
        },
        tile_text(u, checks, 5) == if u.times.diagnostics is Some {
            "Status Refreshed"@
        } else {
            "Refresh Status"@
        },
{
    reveal_strlit("Spotify: ");
    reveal_strlit("Stopped");
    reveal_strlit("Loading");
    reveal_strlit("Playing");
    reveal_strlit("Paused");
    reveal_strlit("Error");
    reveal_strlit("Spotify: Stopped");
    reveal_strlit("Spotify: Loading");
    reveal_strlit("Spotify: Playing");
    reveal_strlit("Spotify: Paused");
    reveal_strlit("Spotify: Error");
    if u.play.state != PlaybackState::Unknown {
        assert(tile_text(u, checks, 1) =~= "Spotify: "@ + status_of(u));
    }
}

/// A tile carries its text, and a menu has all six of them.
pub proof fn menus_show_all_tiles(u: UiView, checks: Checks, palette: Palette, tile: int)
    requires
        0 <= tile < 6,
        u.nav.view == AppView::Menu || u.nav.view == AppView::Sound || u.nav.view
            == AppView::Appearance || u.nav.view == AppView::Special || u.nav.view
            == AppView::Diagnostics || u.nav.view == AppView::Settings,
    ensures
        tile_shapes(u, checks, palette)(tile)[3] is Label,
        tile_shapes(u, checks, palette)(tile)[3]->text == tile_text(u, checks, tile),
        tiles(u, checks, palette).contains(tile_shapes(u, checks, palette)(tile)[0]),
        tiles(u, checks, palette).contains(tile_shapes(u, checks, palette)(tile)[3]),
        tile_marked(u, tile) && u.nav.view != AppView::Sound ==> tile_text(u, checks, tile) == "> "@
            + tile_label(u.nav.view, tile),
{
    let f = tile_shapes(u, checks, palette);
    let ground = seq![rect(0, 40, 480, 540, palette.background)];
    lemma_each_has(6, f, tile, 0);
    lemma_each_has(6, f, tile, 3);
    lemma_contains(ground, each(6, f), f(tile)[0]);
    lemma_contains(ground, each(6, f), f(tile)[3]);
}

/// The search screen has all the keys, each where it is touched and with its letter on it.
pub proof fn search_screen_shows_all_keys(u: UiView, palette: Palette, row: int, column: int)
    requires
        u.nav.view == AppView::SearchInput,
        0 <= row < 3,
        0 <= column < key_row(row).len(),
    ensures
        content(u, palette).contains(
            rect(
                key_left(row) + column * 48 + 2,
                105 + row * 105,
                44,
                92,
                palette.now_playing,
            ),
        ),
        content(u, palette).contains(
            label(
                seq![key_row(row)[column]],
                key_left(row) + column * 48 + 20,
                141 + row * 105,
                Font::Bold,
                palette.text,
            ),
        ),
{
    let rows = key_row_shapes(palette);
    let keys = key_shapes(row, palette);
    let n = key_row(row).len();
    let all = search_input(u, palette);
    assert(rows(row) == each(n, keys));
    assert forall|j: int| 0 <= j < 2 implies all.contains(#[trigger] keys(column)[j]) by {
        lemma_each_has(n, keys, column, j);
        let k = choose|k: int| 0 <= k < each(n, keys).len() && #[trigger] each(n, keys)[k] == keys(
            column,
        )[j];
        lemma_each_has(3, rows, row, k);
        let m = choose|m: int| 0 <= m < each(3, rows).len() && #[trigger] each(3, rows)[m] == rows(
            row,
        )[k];
        assert(all[2 + m] == each(3, rows)[m]);
    }
    assert(keys(column)[0] == rect(
        key_left(row) + column * 48 + 2,
        105 + row * 105,
        44,
        92,
        palette.now_playing,
    ));
    assert(all.contains(keys(column)[0]));
    assert(all.contains(keys(column)[1]));
}

/// The screen of the track shows the track and all of its buttons.
pub proof fn track_screen_shows_its_parts(u: UiView, palette: Palette, s: ShapeView)
    requires
        u.nav.view == AppView::NowPlaying,
    ensures
        big_buttons(u.play.state, palette).contains(s) ==> content(u, palette).contains(s),
        u.now_playing is Some && big_track(u.now_playing->0, u.play.position, palette).contains(s)
            ==> content(u, palette).contains(s),
        u.now_playing is None ==> exists|k: int|
            0 <= k < content(u, palette).len() && #[trigger] content(u, palette)[k] is Label && content(
                u,
                palette,
            )[k]->text == silence_label(u.play.state),
{
    let ground = seq![rect(0, 40, 480, 620, palette.background)];
    let shown = match u.now_playing {
        Some(item) => big_track(item, u.play.position, palette),
        None => seq![
            label(
                silence_label(u.play.state),
                crate::ui::panels::centered(silence_label(u.play.state).len(), 10),
                190,
                Font::Large,
                palette.text,
            ),
        ],
    };
    let buttons = big_buttons(u.play.state, palette);
    lemma_contains(ground, shown, s);
    lemma_contains(ground + shown, buttons, s);
    assert(content(u, palette) == ground + shown + buttons);
    if u.now_playing is None {
        assert(content(u, palette)[1] == shown[0]);
    }
}

/// While the device starts, the screen tells what is waited for and for how many seconds,
/// with a bar that grows from stage to stage.
pub proof fn start_screen_tells_the_stage(stage: StartupStage, seconds: nat, palette: Palette)
    ensures
        ({
            let shapes = start_screen(stage, seconds, false, palette);
            &&& shapes[2]->text == match stage {
                StartupStage::Wifi => "Starting Wi-Fi"@,
                StartupStage::Spotify => "Connecting to Spotify"@,
                StartupStage::Library => "Loading Liked Songs"@,
            }
            &&& shapes[6]->text == "Waiting "@ + decimal(seconds) + "s"@
            &&& shapes[4]->Rect_w == 360
            &&& shapes[5]->Rect_w == match stage {
                StartupStage::Wifi => 120,
                StartupStage::Spotify => 240,
                StartupStage::Library => 360u32,
            }
            &&& shapes[8]->text == match stage {
                StartupStage::Wifi => "Retry Wi-Fi"@,
                StartupStage::Spotify => "Retry Spotify"@,
                StartupStage::Library => "Retry Library"@,
            }
        }),
{
}

/// In the play order a tap acts on the liked songs, as it would in the library.
pub proof fn up_next_tap_acts_on_the_liked_songs(u: UiView, row: int, now: u64)
    requires
        u.nav.view == AppView::UpNext,
        touches_row(u, row),
    ensures
        ({
            let library = UiView { nav: Nav { view: AppView::Library, ..u.nav }, ..u };
            let (there, effect) = touched(library, now);
            touched(u, now) == (
                UiView { nav: Nav { view: AppView::UpNext, ..there.nav }, ..there },
                effect,
            )
        }),
{
}

/// The bar of the strip is drawn where it is touched, and filled with what has played.
pub proof fn strip_bar_is_where_it_is_drawn(u: UiView, palette: Palette)
    requires
        u.now_playing is Some,
    ensures
        ({
            let duration = u.now_playing->0.duration_ms;
            let bar = filled(clipped(u.play.position, duration), duration, 460);
            let shapes = strip(u.now_playing, u.play.position, u.play.state, palette);
            &&& shapes[6] == rect(10, 633, 460, 4, palette.progress_track)
            &&& bar > 0 ==> shapes.len() == 8 && shapes[7] == rect(
                10,
                633,
                bar,
                4,
                palette.progress_fill,
            )
            &&& bar <= 0 ==> shapes.len() == 7
        }),
{
}

/// The same on the screen of the track.
pub proof fn big_bar_is_where_it_is_drawn(item: NowPlayingView, position: Option<u32>, palette: Palette)
    ensures
        ({
            let bar = filled(clipped(position, item.duration_ms), item.duration_ms, 440);
            let shapes = big_track(item, position, palette);
            &&& shapes[4] == rect(20, 300, 440, 10, palette.progress_track)
            &&& bar > 0 ==> shapes.len() == 6 && shapes[5] == rect(
                20,
                300,
                bar,
                10,
                palette.progress_fill,
            )
            &&& bar <= 0 ==> shapes.len() == 5
        }),
{
}

/// How far a track has come is what was told, never more than its length, and its start if
/// nothing was told.
pub proof fn shown_position_is_in_the_track(position: u32, duration: u32)
    ensures
        position <= duration ==> clipped(Some(position), duration) == position,
        position > duration ==> clipped(Some(position), duration) == duration,
        clipped(None, duration) == 0,
{
}

} // verus!
