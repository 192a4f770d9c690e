//! The whole screen.
use crate::daemon::modes::RepeatMode;
use crate::daemon::queue::{QueueSource, SourceView};
use crate::text::{append_number, chars, decimal, views};
use crate::ui::canvas::{each, label, rect, Canvas, Font, ShapeView};
use crate::ui::labels::{
    label_of, shortened, stage_detail, stage_label, stage_retry, stage_width, truncate_label,
    StartupStage,
};
use crate::ui::palette::{palette_of, Palette};
use crate::ui::panels::{
    big_view, centered, draw_now_playing_strip, draw_now_playing_view, draw_volume_popup, strip,
    text_width, volume_popup,
};
use crate::ui::replies::{
    ItemView, Listed, ListedView, PageView, PlaybackState, QueuePage, QueuePageItem, VISIBLE_ROWS,
};
use crate::ui::scenery::{draw_scenery, scenery};
use crate::ui::settings::{brightness_label, brightness_text};
use crate::ui::state::{AppView, Ui, UiView};
use crate::ui::tick::{elapsed, find_track, found_in, Frame};
use crate::ui::touch::{
    find_special_theme, find_theme, key_left, key_row, keys_of, special_theme_on, theme_on,
};
use vstd::prelude::*;
use vstd::string::*;

verus! {

/// What the diagnostics show of the system.
#[derive(Clone, Copy, Debug, PartialEq, Eq, Structural)]
pub struct Checks {
    /// The network has a route.
    pub wifi: bool,
    /// The process that plays the sound runs.
    pub player: bool,
    /// The balanced jack is plugged.
    pub balance: bool,
    /// The other jack is plugged.
    pub headset: bool,
}

/// The title in the header.
pub open spec fn title_of(u: UiView) -> Seq<char> {
    if u.device.stage is Some {
        "SpotUI"@
    } else {
        match u.nav.view {
            AppView::Library => "Liked Songs"@,
            AppView::Playlists => "Playlists"@,
            AppView::PlaylistTracks => "Playlist"@,
            AppView::SearchInput => "Search"@,
            AppView::SearchResults => "Search Results"@,
            AppView::SearchHistory => "Recent Searches"@,
            AppView::Menu => "More"@,
            AppView::Sound => "Sound"@,
            AppView::UpNext => "Up Next"@,
            AppView::NowPlaying => "Now Playing"@,
            AppView::Appearance => "Appearance"@,
            AppView::Special => "Appearance 2"@,
            AppView::Diagnostics => "Diagnostics"@,
            AppView::Settings => "Settings"@,
        }
    }
}

/// The state in the header.
pub open spec fn status_of(u: UiView) -> Seq<char> {
    if u.device.stage is Some {
        "Starting"@
    } else {
        match u.play.state {
            PlaybackState::Unknown => "Connecting"@,
            PlaybackState::Stopped => "Stopped"@,
            PlaybackState::Loading => "Loading"@,
            PlaybackState::Playing => "Playing"@,
            PlaybackState::Paused => "Paused"@,
            PlaybackState::Error => "Error"@,
        }
    }
}

/// The charge in the header.
pub open spec fn battery_text(battery: Option<u8>) -> Seq<char> {
    match battery {
        Some(percent) => decimal(percent as nat) + "%"@,
        None => "--%"@,
    }
}

/// The header.
pub open spec fn header(u: UiView, palette: Palette) -> Seq<ShapeView> {
    let battery = battery_text(u.device.battery);
    seq![
        rect(0, 0, 480, 40, palette.header),
        label(title_of(u), 6, 12, Font::Bold, palette.header_text),
        label(status_of(u), centered(status_of(u).len(), 9), 12, Font::Bold, palette.header_text),
        label(battery, 472 - battery.len() * 9, 12, Font::Bold, palette.header_text),
    ]
}

fn write_title(ui: &Ui) -> (r: &'static str)
    ensures
        r@ == title_of(ui@),
{
    if ui.device.stage.is_some() {
        return "SpotUI";
    }
    match ui.nav.view {
        AppView::Library => "Liked Songs",
        AppView::Playlists => "Playlists",
        AppView::PlaylistTracks => "Playlist",
        AppView::SearchInput => "Search",
        AppView::SearchResults => "Search Results",
        AppView::SearchHistory => "Recent Searches",
        AppView::Menu => "More",
        AppView::Sound => "Sound",
        AppView::UpNext => "Up Next",
        AppView::NowPlaying => "Now Playing",
        AppView::Appearance => "Appearance",
        AppView::Special => "Appearance 2",
        AppView::Diagnostics => "Diagnostics",
        AppView::Settings => "Settings",
    }
}

fn write_status(ui: &Ui) -> (r: &'static str)
    ensures
        r@ == status_of(ui@),
        r@.len() <= 10,
{
    proof {
        reveal_strlit("Starting");
        reveal_strlit("Connecting");
        reveal_strlit("Stopped");
        reveal_strlit("Loading");
        reveal_strlit("Playing");
        reveal_strlit("Paused");
        reveal_strlit("Error");
    }
    if ui.device.stage.is_some() {
        return "Starting";
    }
    match ui.play.state {
        PlaybackState::Unknown => "Connecting",
        PlaybackState::Stopped => "Stopped",
        PlaybackState::Loading => "Loading",
        PlaybackState::Playing => "Playing",
        PlaybackState::Paused => "Paused",
        PlaybackState::Error => "Error",
    }
}

fn draw_header(c: &mut Canvas, ui: &Ui, palette: &Palette)
    ensures
        final(c)@ == old(c)@ + header(ui@, *palette),
{
    c.rect(0, 0, 480, 40, palette.header);
    c.label(write_title(ui), 6, 12, Font::Bold, palette.header_text);
    let status = write_status(ui);
    let width: i32 = text_width(status, 9);
    c.label(status, (480 - width) / 2, 12, Font::Bold, palette.header_text);
    let battery = match ui.device.battery {
        Some(percent) => {
            let mut text = String::new();
            append_number(&mut text, percent as u64);
            text.append("%");
            assert(text@ =~= decimal(percent as nat) + "%"@);
            proof {
                crate::ui::panels::lemma_short_decimal(percent as nat);
            }
            text
        },
        None => "--%".to_owned(),
    };
    proof {
        reveal_strlit("%");
        reveal_strlit("--%");
    }
    let width: i32 = text_width(battery.as_str(), 9);
    c.label(battery.as_str(), 472 - width, 12, Font::Bold, palette.header_text);
    assert(c@ =~= old(c)@ + header(ui@, *palette));
}

pub open spec fn waiting_text(seconds: nat) -> Seq<char> {
    "Waiting "@ + decimal(seconds) + "s"@
}

/// A text in the middle of the screen.
pub open spec fn middle(text: Seq<char>, y: int, font: Font, color: u16) -> ShapeView {
    label(text, centered(text.len(), 9), y, font, color)
}

/// The screen while the device starts: what is waited for, for how long, and a button to
/// try again.
pub open spec fn start_screen(stage: StartupStage, seconds: nat, retrying: bool, palette: Palette) -> Seq<
    ShapeView,
> {
    seq![
        rect(0, 40, 480, 680, palette.background),
        middle("SpotUI"@, 190, Font::Bold, palette.text),
        middle(stage_label(stage), 275, Font::Bold, palette.text),
        middle(stage_detail(stage), 310, Font::Plain, palette.text),
        rect(60, 365, 360, 8, palette.progress_track),
        rect(60, 365, stage_width(stage) as int, 8, palette.progress_fill),
        middle(waiting_text(seconds), 405, Font::Plain, palette.text),
        rect(
            110,
            455,
            260,
            60,
            if retrying {
                palette.header
            } else {
                palette.selected_row
            },
        ),
        middle(
            if retrying {
                "Retry requested"@
            } else {
                stage_retry(stage)
            },
            477,
            Font::Bold,
            if retrying {
                palette.header_text
            } else {
                palette.selected_text
            },
        ),
    ]
}

fn draw_middle(c: &mut Canvas, text: &str, y: i32, font: Font, color: u16)
    requires
        text@.len() <= 53,
    ensures
        final(c)@ == old(c)@.push(middle(text@, y as int, font, color)),
{
    let width: i32 = text_width(text, 9);
    c.label(text, (480 - width) / 2, y, font, color);
}

/// A number of 64 bits has at most twenty digits.
proof fn lemma_decimal_len(n: nat)
    requires
        n <= u64::MAX,
    ensures
        decimal(n).len() <= 20,
{
    reveal_with_fuel(vstd::arithmetic::power::pow, 20);
    assert(vstd::arithmetic::power::pow(10, 19) == 10_000_000_000_000_000_000);
    lemma_decimal_len_step(n, 19);
}

proof fn lemma_decimal_len_step(n: nat, k: nat)
    requires
        n < 10 * vstd::arithmetic::power::pow(10, k),
    ensures
        decimal(n).len() <= k + 1,
    decreases k,
{
    reveal(vstd::arithmetic::power::pow);
    if k > 0 && n >= 10 {
        lemma_decimal_len_step(n / 10, (k - 1) as nat);
    }
}

fn draw_start_screen(c: &mut Canvas, stage: StartupStage, seconds: u64, retrying: bool, palette: &Palette)
    ensures
        final(c)@ == old(c)@ + start_screen(stage, seconds as nat, retrying, *palette),
{
    proof {
        reveal_strlit("SpotUI");
        reveal_strlit("Starting Wi-Fi");
        reveal_strlit("Connecting to Spotify");
        reveal_strlit("Loading Liked Songs");
        reveal_strlit("Preparing the network connection");
        reveal_strlit("Signing in and starting playback");
        reveal_strlit("Fetching your saved tracks");
        reveal_strlit("Retry requested");
        reveal_strlit("Retry Wi-Fi");
        reveal_strlit("Retry Spotify");
        reveal_strlit("Retry Library");
        reveal_strlit("Waiting ");
        reveal_strlit("s");
        lemma_decimal_len(seconds as nat);
    }
    c.rect(0, 40, 480, 680, palette.background);
    draw_middle(c, "SpotUI", 190, Font::Bold, palette.text);
    draw_middle(c, stage.label(), 275, Font::Bold, palette.text);
    draw_middle(c, stage.detail(), 310, Font::Plain, palette.text);
    c.rect(60, 365, 360, 8, palette.progress_track);
    c.rect(60, 365, stage.progress_width(), 8, palette.progress_fill);
    let mut waiting = "Waiting ".to_owned();
    append_number(&mut waiting, seconds);
    waiting.append("s");
    draw_middle(c, waiting.as_str(), 405, Font::Plain, palette.text);
    c.rect(110, 455, 260, 60, if retrying { palette.header } else { palette.selected_row });
    draw_middle(
        c,
        if retrying { "Retry requested" } else { stage.retry_label() },
        477,
        Font::Bold,
        if retrying { palette.header_text } else { palette.selected_text },
    );
    assert(c@ =~= old(c)@ + start_screen(stage, seconds as nat, retrying, *palette));
}

/// A row of a list with its line below it; a marked one has a plate and an arrow.
pub open spec fn row_shapes(text: Seq<char>, row: int, marked: bool, palette: Palette) -> Seq<ShapeView> {
    let y = 40 + row * 60;
    let line = rect(0, y + 59, 480, 1, palette.border);
    if marked {
        seq![
            rect(0, y, 480, 60, palette.selected_row),
            label("> "@ + text, 10, y + 22, Font::Bold, palette.selected_text),
            line,
        ]
    } else {
        seq![label(text, 10, y + 22, Font::Plain, palette.text), line]
    }
}

fn draw_row(c: &mut Canvas, text: &str, row: usize, marked: bool, palette: &Palette)
    requires
        row <= 10,
    ensures
        final(c)@ == old(c)@ + row_shapes(text@, row as int, marked, *palette),
{
    let y: i32 = 40 + row as i32 * 60;
    if marked {
        c.rect(0, y, 480, 60, palette.selected_row);
        let mut arrow = "> ".to_owned();
        arrow.append(text);
        c.label(arrow.as_str(), 10, y + 22, Font::Bold, palette.selected_text);
    } else {
        c.label(text, 10, y + 22, Font::Plain, palette.text);
    }
    c.rect(0, y + 59, 480, 1, palette.border);
    assert(c@ =~= old(c)@ + row_shapes(text@, row as int, marked, *palette));
}

/// How many rows of a list are visible.
pub open spec fn visible(len: nat, first: usize) -> nat {
    if first >= len {
        0
    } else if len - first < VISIBLE_ROWS {
        (len - first) as nat
    } else {
        VISIBLE_ROWS as nat
    }
}

/// A row of a list of tracks or playlists.
pub open spec fn list_row(list: Seq<ListedView>, first: usize, marked: Option<usize>, palette: Palette) -> spec_fn(
    int,
) -> Seq<ShapeView> {
    |row: int|
        {
            let index = first + row;
            let is_marked = marked == Some(index as usize);
            let chars: nat = if is_marked {
                50
            } else {
                52
            };
            row_shapes(shortened(label_of(list[index]), chars), row, is_marked, palette)
        }
}

/// The visible rows of a list.
pub open spec fn list_rows(list: Seq<ListedView>, first: usize, marked: Option<usize>, palette: Palette) -> Seq<
    ShapeView,
> {
    each(visible(list.len(), first), list_row(list, first, marked, palette))
}

fn draw_list_rows(
    c: &mut Canvas,
    list: &Vec<Listed>,
    first: usize,
    marked: Option<usize>,
    palette: &Palette,
)
    ensures
        final(c)@ == old(c)@ + list_rows(views(list@), first, marked, *palette),
{
    let ghost all = views(list@);
    let ghost f = list_row(all, first, marked, *palette);
    let ghost n = visible(all.len(), first);
    let mut row: usize = 0;
    assert(c@ =~= old(c)@ + each(0, f));
    while row < VISIBLE_ROWS && first < list.len() && row < list.len() - first
        invariant
            row <= VISIBLE_ROWS,
            row <= n,
            n == visible(all.len(), first),
            all == views(list@),
            f == list_row(all, first, marked, *palette),
            c@ == old(c)@ + each(row as nat, f),
        decreases VISIBLE_ROWS - row,
    {
        let index: usize = first + row;
        let is_marked = match marked {
            Some(marked) => marked == index,
            None => false,
        };
        assert(all[index as int] == list@[index as int]@);
        let full = list[index].label();
        let text = truncate_label(full.as_str(), if is_marked { 50 } else { 52 });
        draw_row(c, text.as_str(), row, is_marked, palette);
        assert(c@ =~= old(c)@ + (each(row as nat, f) + f(row as int)));
        row += 1;
    }
    assert(row == n);
}

/// A row of the recent searches.
pub open spec fn history_row(recent: Seq<Seq<char>>, palette: Palette) -> spec_fn(int) -> Seq<ShapeView> {
    |row: int| row_shapes(shortened(recent[row], 50), row, false, palette)
}

/// The recent searches, and a row that clears them.
pub open spec fn history_rows(recent: Seq<Seq<char>>, palette: Palette) -> Seq<ShapeView> {
    if recent.len() == 0 {
        seq![label("No recent searches"@, 10, 62, Font::Plain, palette.text)]
    } else {
        each(recent.len(), history_row(recent, palette)).push(
            label(
                "Clear History"@,
                10,
                62 + recent.len() as int * 60,
                Font::Bold,
                palette.selected_text,
            ),
        )
    }
}

fn draw_history_rows(c: &mut Canvas, recent: &Vec<String>, palette: &Palette)
    requires
        recent.len() <= 8,
    ensures
        final(c)@ == old(c)@ + history_rows(views(recent@), *palette),
{
    if recent.len() == 0 {
        c.label("No recent searches", 10, 62, Font::Plain, palette.text);
        assert(c@ =~= old(c)@ + history_rows(views(recent@), *palette));
        return;
    }
    let ghost f = history_row(views(recent@), *palette);
    let mut row: usize = 0;
    assert(c@ =~= old(c)@ + each(0, f));
    while row < recent.len()
        invariant
            row <= recent.len() <= 8,
            f == history_row(views(recent@), *palette),
            c@ == old(c)@ + each(row as nat, f),
        decreases recent.len() - row,
    {
        let text = truncate_label(recent[row].as_str(), 50);
        draw_row(c, text.as_str(), row, false, palette);
        assert(c@ =~= old(c)@ + (each(row as nat, f) + f(row as int)));
        row += 1;
    }
    c.label(
        "Clear History",
        10,
        62 + recent.len() as i32 * 60,
        Font::Bold,
        palette.selected_text,
    );
    assert(c@ =~= old(c)@ + history_rows(views(recent@), *palette));
}

/// The list that a queue comes from, as far as it is known here.
pub open spec fn source_list(u: UiView, source: SourceView) -> Seq<ListedView> {
    match source {
        SourceView::Liked => u.items,
        SourceView::Playlist(_) => u.playlist_tracks,
        SourceView::Search => u.search_results,
    }
}

/// A track of the play order: its label if the list has it, its id otherwise.
pub open spec fn queued_label(list: Seq<ListedView>, item: ItemView) -> Seq<char> {
    match found_in(list, item.source_index, item.track_id) {
        Some(index) => label_of(list[index as int]),
        None => item.track_id,
    }
}

/// A row of the play order.
pub open spec fn queue_row(list: Seq<ListedView>, page: PageView, palette: Palette) -> spec_fn(
    int,
) -> Seq<ShapeView> {
    |row: int|
        {
            let item = page.items[row];
            let text = decimal((item.position + 1) as nat) + ". "@ + queued_label(list, item);
            row_shapes(
                shortened(text, 48),
                row,
                item.position == page.current_position,
                palette,
            )
        }
}

/// A page of the play order.
pub open spec fn queue_rows(u: UiView, palette: Palette) -> Seq<ShapeView> {
    match u.page {
        Some(page) => each(
            page.items.len(),
            queue_row(source_list(u, page.source), page, palette),
        ),
        None => seq![label("No active queue"@, 10, 62, Font::Plain, palette.text)],
    }
}

fn write_queued_label(list: &Vec<Listed>, item: &QueuePageItem) -> (r: String)
    ensures
        r@ == queued_label(views(list@), item@),
{
    match find_track(list, item.source_index, item.track_id.as_str()) {
        Some(index) => {
            assert(views(list@)[index as int] == list@[index as int]@);
            list[index].label()
        },
        None => item.track_id.clone(),
    }
}

fn draw_queue_page(c: &mut Canvas, list: &Vec<Listed>, page: &QueuePage, palette: &Palette)
    requires
        page@.wf(),
    ensures
        final(c)@ == old(c)@ + each(
            page@.items.len(),
            queue_row(views(list@), page@, *palette),
        ),
{
    let ghost all = page@.items;
    let ghost f = queue_row(views(list@), page@, *palette);
    let mut row: usize = 0;
    assert(all.len() == page.items.len());
    assert(c@ =~= old(c)@ + each(0, f));
    while row < page.items.len()
        invariant
            row <= page.items.len() <= VISIBLE_ROWS,
            page@.wf(),
            all == page@.items,
            all.len() == page.items.len(),
            f == queue_row(views(list@), page@, *palette),
            c@ == old(c)@ + each(row as nat, f),
        decreases page.items.len() - row,
    {
        assert(all[row as int] == page.items@[row as int]@);
        assert(all[row as int].position < page.total);
        let item = &page.items[row];
        let mut text = String::new();
        append_number(&mut text, item.position as u64 + 1);
        text.append(". ");
        let name = write_queued_label(list, item);
        text.append(name.as_str());
        assert(text@ =~= decimal((item.position + 1) as nat) + ". "@ + name@);
        let short = truncate_label(text.as_str(), 48);
        draw_row(c, short.as_str(), row, item.position == page.current_position, palette);
        assert(c@ =~= old(c)@ + (each(row as nat, f) + f(row as int)));
        row += 1;
    }
}

fn draw_queue_rows(c: &mut Canvas, ui: &Ui, palette: &Palette)
    requires
        ui@.wf(),
    ensures
        final(c)@ == old(c)@ + queue_rows(ui@, *palette),
{
    match &ui.page {
        Some(page) => {
            let list = match &page.source {
                QueueSource::Liked => &ui.items,
                QueueSource::Playlist(_) => &ui.playlist_tracks,
                QueueSource::Search => &ui.search_results,
            };
            draw_queue_page(c, list, page, palette);
        },
        None => {
            c.label("No active queue", 10, 62, Font::Plain, palette.text);
            assert(c@ =~= old(c)@ + queue_rows(ui@, *palette));
        },
    }
}

/// The search as it is shown.
pub open spec fn query_text(u: UiView) -> Seq<char> {
    if u.nav.search_in_progress {
        "Searching..."@
    } else if u.query.len() == 0 {
        "Tap letters to search"@
    } else {
        shortened(u.query, 48)
    }
}

/// A key of a row of the keyboard.
pub open spec fn key_shapes(row: int, palette: Palette) -> spec_fn(int) -> Seq<ShapeView> {
    |column: int|
        {
            let x = key_left(row) + column * 48;
            let y = 105 + row * 105;
            seq![
                rect(x + 2, y, 44, 92, palette.now_playing),
                label(seq![key_row(row)[column]], x + 20, y + 36, Font::Bold, palette.text),
            ]
        }
}

/// A row of the keyboard.
pub open spec fn key_row_shapes(palette: Palette) -> spec_fn(int) -> Seq<ShapeView> {
    |row: int| each(key_row(row).len(), key_shapes(row, palette))
}

/// A button below the keyboard.
pub open spec fn search_button(x: int, text: Seq<char>, palette: Palette) -> Seq<ShapeView> {
    seq![
        rect(x, 420, 120, 120, palette.now_playing),
        label(text, x + 12, 468, Font::Bold, palette.text),
    ]
}

/// The search screen.
pub open spec fn search_input(u: UiView, palette: Palette) -> Seq<ShapeView> {
    seq![
        rect(0, 40, 480, 540, palette.background),
        label(query_text(u), 12, 62, Font::Bold, palette.text),
    ] + each(3, key_row_shapes(palette)) + search_button(
        0,
        if u.query.len() == 0 && u.recent.len() > 0 {
            "Recent"@
        } else {
            "Clear"@
        },
        palette,
    ) + search_button(120, "Space"@, palette) + search_button(240, "Delete"@, palette)
        + search_button(
        360,
        if u.nav.search_in_progress {
            "Wait"@
        } else {
            "Go"@
        },
        palette,
    )
}

fn draw_key_row(c: &mut Canvas, row: usize, palette: &Palette)
    requires
        row < 3,
    ensures
        final(c)@ == old(c)@ + key_row_shapes(*palette)(row as int),
{
    let keys = chars(keys_of(row));
    let left: i32 = (480 - keys.len() as i32 * 48) / 2;
    let y: i32 = 105 + row as i32 * 105;
    let ghost f = key_shapes(row as int, *palette);
    let mut column: usize = 0;
    assert(c@ =~= old(c)@ + each(0, f));
    while column < keys.len()
        invariant
            column <= keys.len() <= 10,
            row < 3,
            keys@ == key_row(row as int),
            left == key_left(row as int),
            0 <= left <= 480,
            y == 105 + row * 105,
            f == key_shapes(row as int, *palette),
            c@ == old(c)@ + each(column as nat, f),
        decreases keys.len() - column,
    {
        let x: i32 = left + column as i32 * 48;
        let mut text = String::new();
        text.push(keys[column]);
        assert(text@ =~= seq![key_row(row as int)[column as int]]);
        c.rect(x + 2, y, 44, 92, palette.now_playing);
        c.label(text.as_str(), x + 20, y + 36, Font::Bold, palette.text);
        assert(c@ =~= old(c)@ + (each(column as nat, f) + f(column as int)));
        column += 1;
    }
}

fn draw_search_button(c: &mut Canvas, x: i32, text: &str, palette: &Palette)
    requires
        0 <= x <= 480,
    ensures
        final(c)@ == old(c)@ + search_button(x as int, text@, *palette),
{
    c.rect(x, 420, 120, 120, palette.now_playing);
    c.label(text, x + 12, 468, Font::Bold, palette.text);
    assert(c@ =~= old(c)@ + search_button(x as int, text@, *palette));
}

fn draw_search_input(c: &mut Canvas, ui: &Ui, palette: &Palette)
    ensures
        final(c)@ == old(c)@ + search_input(ui@, *palette),
{
    let empty = ui.query.as_str().is_empty();
    c.rect(0, 40, 480, 540, palette.background);
    let shown = if ui.nav.search_in_progress {
        "Searching...".to_owned()
    } else if empty {
        "Tap letters to search".to_owned()
    } else {
        truncate_label(ui.query.as_str(), 48)
    };
    c.label(shown.as_str(), 12, 62, Font::Bold, palette.text);
    let ghost start = c@;
    let ghost f = key_row_shapes(*palette);
    let mut row: usize = 0;
    assert(c@ =~= start + each(0, f));
    while row < 3
        invariant
            row <= 3,
            f == key_row_shapes(*palette),
            c@ == start + each(row as nat, f),
        decreases 3 - row,
    {
        draw_key_row(c, row, palette);
        assert(c@ =~= start + (each(row as nat, f) + f(row as int)));
        row += 1;
    }
    draw_search_button(
        c,
        0,
        if empty && ui.recent.len() > 0 { "Recent" } else { "Clear" },
        palette,
    );
    draw_search_button(c, 120, "Space", palette);
    draw_search_button(c, 240, "Delete", palette);
    draw_search_button(c, 360, if ui.nav.search_in_progress { "Wait" } else { "Go" }, palette);
    assert(c@ =~= old(c)@ + search_input(ui@, *palette));
}

/// What is shown below the header in each view but the menus.
pub open spec fn content(u: UiView, palette: Palette) -> Seq<ShapeView> {
    match u.nav.view {
        AppView::Library => list_rows(u.items, u.nav.scroll, u.nav.selected, palette),
        AppView::Playlists => list_rows(
            u.playlists,
            u.nav.playlist_scroll,
            u.nav.playlist_selected,
            palette,
        ),
        AppView::PlaylistTracks => list_rows(
            u.playlist_tracks,
            u.nav.playlist_track_scroll,
            u.nav.playlist_track_selected,
            palette,
        ),
        AppView::SearchResults => list_rows(
            u.search_results,
            u.nav.search_scroll,
            u.nav.search_selected,
            palette,
        ),
        AppView::SearchHistory => history_rows(u.recent, palette),
        AppView::UpNext => queue_rows(u, palette),
        AppView::NowPlaying => big_view(u.now_playing, u.play.position, u.play.state, palette),
        AppView::SearchInput => search_input(u, palette),
        _ => seq![],
    }
}

fn draw_content(c: &mut Canvas, ui: &Ui, palette: &Palette)
    requires
        ui@.wf(),
    ensures
        final(c)@ == old(c)@ + content(ui@, *palette),
{
    match ui.nav.view {
        AppView::Library => {
            draw_list_rows(c, &ui.items, ui.nav.scroll, ui.nav.selected, palette);
        },
        AppView::Playlists => {
            draw_list_rows(
                c,
                &ui.playlists,
                ui.nav.playlist_scroll,
                ui.nav.playlist_selected,
                palette,
            );
        },
        AppView::PlaylistTracks => {
            draw_list_rows(
                c,
                &ui.playlist_tracks,
                ui.nav.playlist_track_scroll,
                ui.nav.playlist_track_selected,
                palette,
            );
        },
        AppView::SearchResults => {
            draw_list_rows(
                c,
                &ui.search_results,
                ui.nav.search_scroll,
                ui.nav.search_selected,
                palette,
            );
        },
        AppView::SearchHistory => {
            assert(ui@.recent.len() == ui.recent.len());
            draw_history_rows(c, &ui.recent, palette);
        },
        AppView::UpNext => {
            draw_queue_rows(c, ui, palette);
        },
        AppView::NowPlaying => {
            draw_now_playing_view(c, &ui.now_playing, ui.play.position, ui.play.state, palette);
        },
        AppView::SearchInput => {
            draw_search_input(c, ui, palette);
        },
        _ => {
            assert(c@ =~= old(c)@ + content(ui@, *palette));
        },
    }
}

/// Whether the list of a view goes on above and below what is visible.
pub open spec fn goes_on(u: UiView) -> (bool, bool) {
    match u.nav.view {
        AppView::Library => list_goes_on(u.items.len(), u.nav.scroll),
        AppView::Playlists => list_goes_on(u.playlists.len(), u.nav.playlist_scroll),
        AppView::PlaylistTracks => list_goes_on(
            u.playlist_tracks.len(),
            u.nav.playlist_track_scroll,
        ),
        AppView::SearchResults => list_goes_on(u.search_results.len(), u.nav.search_scroll),
        AppView::UpNext => match u.page {
            Some(page) => (page.start > 0, page.start + page.items.len() < page.total),
            None => (false, false),
        },
        _ => (false, false),
    }
}

pub open spec fn list_goes_on(len: nat, first: usize) -> (bool, bool) {
    (first > 0, first + VISIBLE_ROWS < len)
}

/// The arrows in the header.
pub open spec fn arrows(u: UiView, palette: Palette) -> Seq<ShapeView> {
    let (above, below) = goes_on(u);
    (if above {
        seq![label("^"@, 368, 12, Font::Bold, palette.header_text)]
    } else {
        seq![]
    }) + (if below {
        seq![label("v"@, 392, 12, Font::Bold, palette.header_text)]
    } else {
        seq![]
    })
}

fn find_list_goes_on(len: usize, first: usize) -> (r: (bool, bool))
    ensures
        r == list_goes_on(len as nat, first),
{
    (first > 0, len > VISIBLE_ROWS && first < len - VISIBLE_ROWS)
}

fn find_goes_on(ui: &Ui) -> (r: (bool, bool))
    requires
        ui@.wf(),
    ensures
        r == goes_on(ui@),
{
    match ui.nav.view {
        AppView::Library => find_list_goes_on(ui.items.len(), ui.nav.scroll),
        AppView::Playlists => find_list_goes_on(ui.playlists.len(), ui.nav.playlist_scroll),
        AppView::PlaylistTracks => find_list_goes_on(
            ui.playlist_tracks.len(),
            ui.nav.playlist_track_scroll,
        ),
        AppView::SearchResults => find_list_goes_on(ui.search_results.len(), ui.nav.search_scroll),
        AppView::UpNext => match &ui.page {
            Some(page) => {
                assert(page@.items.len() == page.items.len());
                (page.start > 0, page.items.len() < page.total - page.start)
            },
            None => (false, false),
        },
        _ => (false, false),
    }
}

fn draw_arrows(c: &mut Canvas, ui: &Ui, palette: &Palette)
    requires
        ui@.wf(),
    ensures
        final(c)@ == old(c)@ + arrows(ui@, *palette),
{
    let (above, below) = find_goes_on(ui);
    if above {
        c.label("^", 368, 12, Font::Bold, palette.header_text);
    }
    if below {
        c.label("v", 392, 12, Font::Bold, palette.header_text);
    }
    assert(c@ =~= old(c)@ + arrows(ui@, *palette));
}

/// The label on a tile of a menu.
pub open spec fn tile_label(view: AppView, tile: int) -> Seq<char> {
    match view {
        AppView::Menu => if tile == 0 {
            "Search"@
        } else if tile == 1 {
            "Sound"@
        } else if tile == 2 {
            "Library"@
        } else if tile == 3 {
            "Appearance"@
        } else if tile == 4 {
            "Device"@
        } else {
            "Diagnostics"@
        },
        AppView::Sound => if tile == 0 {
            "Shuffle"@
        } else if tile == 1 {
            "Repeat Off"@
        } else if tile == 2 {
            "Repeat All"@
        } else if tile == 3 {
            "Repeat One"@
        } else if tile == 4 {
            "Up Next"@
        } else {
            "Back"@
        },
        AppView::Appearance => if tile == 0 {
            "El Kay Kay"@
        } else if tile == 1 {
            "Tidepool"@
        } else if tile == 2 {
            "Citrus Grove"@
        } else if tile == 3 {
            "Monochrome"@
        } else if tile == 4 {
            "Paper Lantern"@
        } else {
            "Page 2"@
        },
        AppView::Special => if tile == 0 {
            "Durandal"@
        } else if tile == 1 {
            "Arcade Bloom"@
        } else if tile == 2 {
            "Desert Bloom"@
        } else if tile == 3 {
            "Al Noor"@
        } else if tile == 4 {
            "Night Market"@
        } else {
            "Back"@
        },
        AppView::Diagnostics => if tile == 0 {
            "Wi-Fi"@
        } else if tile == 1 {
            "Spotify"@
        } else if tile == 2 {
            "Audio"@
        } else if tile == 3 {
            "Output"@
        } else if tile == 4 {
            "Queue"@
        } else {
            "Refresh Status"@
        },
        _ => if tile == 0 {
            "Sleep: 30 sec"@
        } else if tile == 1 {
            "Sleep: 60 sec"@
        } else if tile == 2 {
            "Sleep: 2 min"@
        } else if tile == 3 {
            "Sleep: 5 min"@
        } else if tile == 4 {
            "Sleep: Never"@
        } else {
            "Back"@
        },
    }
}

fn write_menu_label(tile: usize) -> (r: &'static str)
    ensures
        r@ == tile_label(AppView::Menu, tile as int),
        r@.len() <= 14,
{
    proof {
        reveal_strlit("Search");
        reveal_strlit("Sound");
        reveal_strlit("Library");
        reveal_strlit("Appearance");
        reveal_strlit("Device");
        reveal_strlit("Diagnostics");
    }
    if tile == 0 {
        "Search"
    } else if tile == 1 {
        "Sound"
    } else if tile == 2 {
        "Library"
    } else if tile == 3 {
        "Appearance"
    } else if tile == 4 {
        "Device"
    } else {
        "Diagnostics"
    }
}

fn write_sound_label(tile: usize) -> (r: &'static str)
    ensures
        r@ == tile_label(AppView::Sound, tile as int),
        r@.len() <= 14,
{
    proof {
        reveal_strlit("Shuffle");
        reveal_strlit("Repeat Off");
        reveal_strlit("Repeat All");
        reveal_strlit("Repeat One");
        reveal_strlit("Up Next");
        reveal_strlit("Back");
    }
    if tile == 0 {
        "Shuffle"
    } else if tile == 1 {
        "Repeat Off"
    } else if tile == 2 {
        "Repeat All"
    } else if tile == 3 {
        "Repeat One"
    } else if tile == 4 {
        "Up Next"
    } else {
        "Back"
    }
}

fn write_appearance_label(tile: usize) -> (r: &'static str)
    ensures
        r@ == tile_label(AppView::Appearance, tile as int),
        r@.len() <= 14,
{
    proof {
        reveal_strlit("El Kay Kay");
        reveal_strlit("Tidepool");
        reveal_strlit("Citrus Grove");
        reveal_strlit("Monochrome");
        reveal_strlit("Paper Lantern");
        reveal_strlit("Page 2");
    }
    if tile == 0 {
        "El Kay Kay"
    } else if tile == 1 {
        "Tidepool"
    } else if tile == 2 {
        "Citrus Grove"
    } else if tile == 3 {
        "Monochrome"
    } else if tile == 4 {
        "Paper Lantern"
    } else {
        "Page 2"
    }
}

fn write_special_label(tile: usize) -> (r: &'static str)
    ensures
        r@ == tile_label(AppView::Special, tile as int),
        r@.len() <= 14,
{
    proof {
        reveal_strlit("Durandal");
        reveal_strlit("Arcade Bloom");
        reveal_strlit("Desert Bloom");
        reveal_strlit("Al Noor");
        reveal_strlit("Night Market");
        reveal_strlit("Back");
    }
    if tile == 0 {
        "Durandal"
    } else if tile == 1 {
        "Arcade Bloom"
    } else if tile == 2 {
        "Desert Bloom"
    } else if tile == 3 {
        "Al Noor"
    } else if tile == 4 {
        "Night Market"
    } else {
        "Back"
    }
}

fn write_diagnostics_label(tile: usize) -> (r: &'static str)
    ensures
        r@ == tile_label(AppView::Diagnostics, tile as int),
        r@.len() <= 14,
{
    proof {
        reveal_strlit("Wi-Fi");
        reveal_strlit("Spotify");
        reveal_strlit("Audio");
        reveal_strlit("Output");
        reveal_strlit("Queue");
        reveal_strlit("Refresh Status");
    }
    if tile == 0 {
        "Wi-Fi"
    } else if tile == 1 {
        "Spotify"
    } else if tile == 2 {
        "Audio"
    } else if tile == 3 {
        "Output"
    } else if tile == 4 {
        "Queue"
    } else {
        "Refresh Status"
    }
}

fn write_settings_label(tile: usize) -> (r: &'static str)
    ensures
        r@ == tile_label(AppView::Settings, tile as int),
        r@.len() <= 14,
{
    proof {
        reveal_strlit("Sleep: 30 sec");
        reveal_strlit("Sleep: 60 sec");
        reveal_strlit("Sleep: 2 min");
        reveal_strlit("Sleep: 5 min");
        reveal_strlit("Sleep: Never");
        reveal_strlit("Back");
    }
    if tile == 0 {
        "Sleep: 30 sec"
    } else if tile == 1 {
        "Sleep: 60 sec"
    } else if tile == 2 {
        "Sleep: 2 min"
    } else if tile == 3 {
        "Sleep: 5 min"
    } else if tile == 4 {
        "Sleep: Never"
    } else {
        "Back"
    }
}

/// The label on a tile of a menu.
fn write_tile_label(view: AppView, tile: usize) -> (r: &'static str)
    ensures
        r@ == tile_label(view, tile as int),
        r@.len() <= 14,
{
    match view {
        AppView::Menu => write_menu_label(tile),
        AppView::Sound => write_sound_label(tile),
        AppView::Appearance => write_appearance_label(tile),
        AppView::Special => write_special_label(tile),
        AppView::Diagnostics => write_diagnostics_label(tile),
        _ => write_settings_label(tile),
    }
}

/// Whether a tile stands for what is set.
pub open spec fn tile_marked(u: UiView, tile: int) -> bool {
    match u.nav.view {
        AppView::Appearance => tile < 5 && u.device.theme == theme_on(tile),
        AppView::Special => tile < 5 && u.device.theme == special_theme_on(tile),
        AppView::Sound => if tile == 0 {
            u.play.modes.shuffle
        } else if tile == 1 {
            u.play.modes.repeat == RepeatMode::Off
        } else if tile == 2 {
            u.play.modes.repeat == RepeatMode::All
        } else if tile == 3 {
            u.play.modes.repeat == RepeatMode::One
        } else {
            false
        },
        AppView::Settings => tile == u.device.sleep,
        _ => false,
    }
}

fn find_tile_marked(ui: &Ui, tile: usize) -> (r: bool)
    ensures
        r == tile_marked(ui@, tile as int),
{
    match ui.nav.view {
        AppView::Appearance => tile < 5 && ui.device.theme == find_theme(tile),
        AppView::Special => tile < 5 && ui.device.theme == find_special_theme(tile),
        AppView::Sound => {
            if tile == 0 {
                ui.play.modes.shuffle
            } else if tile == 1 {
                ui.play.modes.repeat == RepeatMode::Off
            } else if tile == 2 {
                ui.play.modes.repeat == RepeatMode::All
            } else if tile == 3 {
                ui.play.modes.repeat == RepeatMode::One
            } else {
                false
            }
        },
        AppView::Settings => tile == ui.device.sleep,
        _ => false,
    }
}

/// The state of the daemon in the diagnostics.
pub open spec fn daemon_text(state: PlaybackState) -> Seq<char> {
    match state {
        PlaybackState::Unknown => "Spotify: Reconnecting"@,
        PlaybackState::Stopped => "Spotify: Stopped"@,
        PlaybackState::Loading => "Spotify: Loading"@,
        PlaybackState::Playing => "Spotify: Playing"@,
        PlaybackState::Paused => "Spotify: Paused"@,
        PlaybackState::Error => "Spotify: Error"@,
    }
}

/// The state of the sound in the diagnostics. While a track plays, the process that
/// plays the sound should run.
pub open spec fn audio_text(state: PlaybackState, player: bool) -> Seq<char> {
    match state {
        PlaybackState::Unknown | PlaybackState::Error => "Audio: Offline"@,
        PlaybackState::Playing => if player {
            "Audio: Ready"@
        } else {
            "Audio: Starting"@
        },
        _ => "Audio: Ready"@,
    }
}

/// The jack in the diagnostics.
pub open spec fn output_text(balance: bool, headset: bool) -> Seq<char> {
    if balance {
        "Output: 4.4 mm"@
    } else if headset {
        "Output: 3.5 mm"@
    } else {
        "Output: No jack"@
    }
}

/// The queue in the diagnostics.
pub open spec fn queue_text(u: UiView) -> Seq<char> {
    match u.queue_status {
        Some(status) => match status.source {
            SourceView::Liked => "Queue: Liked Songs"@,
            SourceView::Playlist(_) => "Queue: Playlist"@,
            SourceView::Search => "Queue: Search"@,
        },
        None => "Queue: None"@,
    }
}

/// A tile of the diagnostics.
pub open spec fn diagnostics_text(u: UiView, checks: Checks, tile: int) -> Seq<char> {
    if tile == 0 {
        if checks.wifi {
            "Wi-Fi: Connected"@
        } else {
            "Wi-Fi: Offline"@
        }
    } else if tile == 1 {
        daemon_text(u.play.state)
    } else if tile == 2 {
        audio_text(u.play.state, checks.player)
    } else if tile == 3 {
        output_text(checks.balance, checks.headset)
    } else if tile == 4 {
        queue_text(u)
    } else if u.times.diagnostics is Some {
        "Status Refreshed"@
    } else {
        "Refresh Status"@
    }
}

fn write_daemon_text(state: PlaybackState) -> (r: &'static str)
    ensures
        r@ == daemon_text(state),
        r@.len() <= 21,
{
    proof {
        reveal_strlit("Spotify: Reconnecting");
        reveal_strlit("Spotify: Stopped");
        reveal_strlit("Spotify: Loading");
        reveal_strlit("Spotify: Playing");
        reveal_strlit("Spotify: Paused");
        reveal_strlit("Spotify: Error");
    }
    match state {
        PlaybackState::Unknown => "Spotify: Reconnecting",
        PlaybackState::Stopped => "Spotify: Stopped",
        PlaybackState::Loading => "Spotify: Loading",
        PlaybackState::Playing => "Spotify: Playing",
        PlaybackState::Paused => "Spotify: Paused",
        PlaybackState::Error => "Spotify: Error",
    }
}

fn write_audio_text(state: PlaybackState, player: bool) -> (r: &'static str)
    ensures
        r@ == audio_text(state, player),
        r@.len() <= 21,
{
    proof {
        reveal_strlit("Audio: Offline");
        reveal_strlit("Audio: Ready");
        reveal_strlit("Audio: Starting");
    }
    match state {
        PlaybackState::Unknown | PlaybackState::Error => "Audio: Offline",
        PlaybackState::Playing => {
            if player {
                "Audio: Ready"
            } else {
                "Audio: Starting"
            }
        },
        _ => "Audio: Ready",
    }
}

fn write_output_text(balance: bool, headset: bool) -> (r: &'static str)
    ensures
        r@ == output_text(balance, headset),
        r@.len() <= 21,
{
    proof {
        reveal_strlit("Output: 4.4 mm");
        reveal_strlit("Output: 3.5 mm");
        reveal_strlit("Output: No jack");
    }
    if balance {
        "Output: 4.4 mm"
    } else if headset {
        "Output: 3.5 mm"
    } else {
        "Output: No jack"
    }
}

fn write_queue_text(ui: &Ui) -> (r: &'static str)
    ensures
        r@ == queue_text(ui@),
        r@.len() <= 21,
{
    proof {
        reveal_strlit("Queue: Liked Songs");
        reveal_strlit("Queue: Playlist");
        reveal_strlit("Queue: Search");
        reveal_strlit("Queue: None");
    }
    match &ui.queue_status {
        Some(status) => match &status.source {
            QueueSource::Liked => "Queue: Liked Songs",
            QueueSource::Playlist(_) => "Queue: Playlist",
            QueueSource::Search => "Queue: Search",
        },
        None => "Queue: None",
    }
}

fn write_diagnostics_text(ui: &Ui, checks: &Checks, tile: usize) -> (r: &'static str)
    ensures
        r@ == diagnostics_text(ui@, *checks, tile as int),
        r@.len() <= 21,
{
    proof {
        reveal_strlit("Wi-Fi: Connected");
        reveal_strlit("Wi-Fi: Offline");
        reveal_strlit("Status Refreshed");
        reveal_strlit("Refresh Status");
    }
    if tile == 0 {
        if checks.wifi {
            "Wi-Fi: Connected"
        } else {
            "Wi-Fi: Offline"
        }
    } else if tile == 1 {
        write_daemon_text(ui.play.state)
    } else if tile == 2 {
        write_audio_text(ui.play.state, checks.player)
    } else if tile == 3 {
        write_output_text(checks.balance, checks.headset)
    } else if tile == 4 {
        write_queue_text(ui)
    } else if ui.times.diagnostics.is_some() {
        "Status Refreshed"
    } else {
        "Refresh Status"
    }
}

/// What stands on a tile.
pub open spec fn tile_text(u: UiView, checks: Checks, tile: int) -> Seq<char> {
    if u.nav.view == AppView::Sound && tile == 0 {
        if u.play.modes.shuffle {
            "Shuffle: On"@
        } else {
            "Shuffle: Off"@
        }
    } else if u.nav.view == AppView::Diagnostics {
        diagnostics_text(u, checks, tile)
    } else if tile_marked(u, tile) {
        "> "@ + tile_label(u.nav.view, tile)
    } else {
        tile_label(u.nav.view, tile)
    }
}

fn write_tile_text(ui: &Ui, checks: &Checks, tile: usize) -> (r: String)
    ensures
        r@ == tile_text(ui@, *checks, tile as int),
        r@.len() <= 21,
{
    proof {
        reveal_strlit("Shuffle: On");
        reveal_strlit("Shuffle: Off");
        reveal_strlit("> ");
    }
    if ui.nav.view == AppView::Sound && tile == 0 {
        if ui.play.modes.shuffle {
            "Shuffle: On".to_owned()
        } else {
            "Shuffle: Off".to_owned()
        }
    } else if ui.nav.view == AppView::Diagnostics {
        write_diagnostics_text(ui, checks, tile).to_owned()
    } else if find_tile_marked(ui, tile) {
        let mut text = "> ".to_owned();
        text.append(write_tile_label(ui.nav.view, tile));
        text
    } else {
        write_tile_label(ui.nav.view, tile).to_owned()
    }
}

/// A tile of a menu: a plate with two edges and a text in the middle.
pub open spec fn tile_shapes(u: UiView, checks: Checks, palette: Palette) -> spec_fn(int) -> Seq<ShapeView> {
    |tile: int|
        {
            let x = tile % 2 * 240;
            let y = 40 + tile / 2 * 180;
            let text = tile_text(u, checks, tile);
            seq![
                rect(x, y, 240, 180, palette.now_playing),
                rect(x + 239, y, 1, 180, palette.border),
                rect(x, y + 179, 240, 1, palette.border),
                label(text, x + (240 - text.len() * 9) / 2, y + 82, Font::Bold, palette.text),
            ]
        }
}

/// Whether a view is a menu.
pub open spec fn is_menu(view: AppView) -> bool {
    match view {
        AppView::Menu | AppView::Sound | AppView::Appearance | AppView::Special
        | AppView::Diagnostics | AppView::Settings => true,
        _ => false,
    }
}

/// The six tiles of a menu.
pub open spec fn tiles(u: UiView, checks: Checks, palette: Palette) -> Seq<ShapeView> {
    if is_menu(u.nav.view) {
        seq![rect(0, 40, 480, 540, palette.background)] + each(6, tile_shapes(u, checks, palette))
    } else {
        seq![]
    }
}

fn draw_tile(c: &mut Canvas, ui: &Ui, checks: &Checks, palette: &Palette, tile: usize)
    requires
        tile < 6,
    ensures
        final(c)@ == old(c)@ + tile_shapes(ui@, *checks, *palette)(tile as int),
{
    let x: i32 = (tile % 2) as i32 * 240;
    let y: i32 = 40 + (tile / 2) as i32 * 180;
    c.rect(x, y, 240, 180, palette.now_playing);
    c.rect(x + 239, y, 1, 180, palette.border);
    c.rect(x, y + 179, 240, 1, palette.border);
    let text = write_tile_text(ui, checks, tile);
    let width: i32 = text_width(text.as_str(), 9);
    c.label(text.as_str(), x + (240 - width) / 2, y + 82, Font::Bold, palette.text);
    assert(c@ =~= old(c)@ + tile_shapes(ui@, *checks, *palette)(tile as int));
}

/// Whether a view is a menu.
pub fn view_is_menu(view: AppView) -> (r: bool)
    ensures
        r == is_menu(view),
{
    match view {
        AppView::Menu | AppView::Sound | AppView::Appearance | AppView::Special
        | AppView::Diagnostics | AppView::Settings => true,
        _ => false,
    }
}

fn draw_tiles(c: &mut Canvas, ui: &Ui, checks: &Checks, palette: &Palette)
    ensures
        final(c)@ == old(c)@ + tiles(ui@, *checks, *palette),
{
    if !view_is_menu(ui.nav.view) {
        assert(c@ =~= old(c)@ + tiles(ui@, *checks, *palette));
        return;
    }
    c.rect(0, 40, 480, 540, palette.background);
    let ghost start = c@;
    let ghost f = tile_shapes(ui@, *checks, *palette);
    let mut tile: usize = 0;
    assert(c@ =~= start + each(0, f));
    while tile < 6
        invariant
            tile <= 6,
            f == tile_shapes(ui@, *checks, *palette),
            c@ == start + each(tile as nat, f),
        decreases 6 - tile,
    {
        draw_tile(c, ui, checks, palette, tile);
        assert(c@ =~= start + (each(tile as nat, f) + f(tile as int)));
        tile += 1;
    }
    assert(c@ =~= old(c)@ + tiles(ui@, *checks, *palette));
}

/// The strip of the current track with the separator below it; its own screen has none.
pub open spec fn footer(u: UiView, palette: Palette) -> Seq<ShapeView> {
    if u.nav.view == AppView::NowPlaying {
        seq![]
    } else {
        strip(u.now_playing, u.play.position, u.play.state, palette).push(
            rect(0, 640, 480, 20, palette.separator),
        )
    }
}

/// The four buttons at the bottom: exit, brightness, pause, and to refresh the library or
/// to go back.
pub open spec fn toolbar(u: UiView, palette: Palette) -> Seq<ShapeView> {
    seq![
        rect(0, 660, 480, 60, palette.toolbar),
        rect(120, 660, 1, 60, palette.border),
        rect(240, 660, 1, 60, palette.border),
        rect(360, 660, 1, 60, palette.border),
        label(
            if u.nav.exit_armed {
                "Confirm"@
            } else {
                "Exit"@
            },
            40,
            682,
            Font::Bold,
            palette.text,
        ),
        label(
            "Bright "@ + brightness_text(u.device.brightness as int),
            128,
            682,
            Font::Bold,
            palette.text,
        ),
        label(
            if u.play.state == PlaybackState::Paused {
                "Resume"@
            } else {
                "Pause"@
            },
            270,
            682,
            Font::Bold,
            palette.text,
        ),
        if u.nav.view == AppView::Library {
            label("Refresh"@, 388, 682, Font::Bold, palette.text)
        } else {
            label("Back"@, 402, 682, Font::Bold, palette.text)
        },
    ]
}

fn draw_footer(c: &mut Canvas, ui: &Ui, palette: &Palette)
    ensures
        final(c)@ == old(c)@ + footer(ui@, *palette),
{
    if ui.nav.view != AppView::NowPlaying {
        draw_now_playing_strip(c, &ui.now_playing, ui.play.position, ui.play.state, palette);
        c.rect(0, 640, 480, 20, palette.separator);
    }
    assert(c@ =~= old(c)@ + footer(ui@, *palette));
}

fn draw_toolbar(c: &mut Canvas, ui: &Ui, palette: &Palette)
    requires
        ui@.wf(),
    ensures
        final(c)@ == old(c)@ + toolbar(ui@, *palette),
{
    c.rect(0, 660, 480, 60, palette.toolbar);
    c.rect(120, 660, 1, 60, palette.border);
    c.rect(240, 660, 1, 60, palette.border);
    c.rect(360, 660, 1, 60, palette.border);
    let mut bright = "Bright ".to_owned();
    bright.append(brightness_label(ui.device.brightness));
    c.label(
        if ui.nav.exit_armed { "Confirm" } else { "Exit" },
        40,
        682,
        Font::Bold,
        palette.text,
    );
    c.label(bright.as_str(), 128, 682, Font::Bold, palette.text);
    c.label(
        if ui.play.state.is_paused() { "Resume" } else { "Pause" },
        270,
        682,
        Font::Bold,
        palette.text,
    );
    if ui.nav.view == AppView::Library {
        c.label("Refresh", 388, 682, Font::Bold, palette.text);
    } else {
        c.label("Back", 402, 682, Font::Bold, palette.text);
    }
    assert(c@ =~= old(c)@ + toolbar(ui@, *palette));
}

/// The background of a screen, with the header.
pub open spec fn backdrop(u: UiView, palette: Palette) -> Seq<ShapeView> {
    seq![rect(0, 0, 480, 720, palette.background)] + scenery(
        u.device.theme,
        palette,
        u.device.seed,
        u.device.frame,
    ) + header(u, palette)
}

/// What stands on the background once the device has started.
pub open spec fn foreground(u: UiView, checks: Checks, palette: Palette) -> Seq<ShapeView> {
    content(u, palette) + arrows(u, palette) + tiles(u, checks, palette) + footer(u, palette)
        + toolbar(u, palette)
}

/// The whole screen.
pub open spec fn screen(u: UiView, checks: Checks, now: u64) -> Seq<ShapeView> {
    let palette = palette_of(u.device.theme);
    backdrop(u, palette) + match u.device.stage {
        Some(stage) => start_screen(
            stage,
            (elapsed(now, u.times.stage_start) / 1_000_000_000) as nat,
            u.times.retry is Some,
            palette,
        ),
        None => foreground(u, checks, palette),
    }
}

/// Layers one upon the other are one layer.
proof fn lemma_layers(
    start: Seq<ShapeView>,
    a: Seq<ShapeView>,
    b: Seq<ShapeView>,
    c: Seq<ShapeView>,
    d: Seq<ShapeView>,
    e: Seq<ShapeView>,
)
    ensures
        start + a + b + c + d + e == start + (a + b + c + d + e),
        start + a + b + c == start + (a + b + c),
        start + a + b == start + (a + b),
{
    assert(start + a + b + c + d + e =~= start + (a + b + c + d + e));
    assert(start + a + b + c =~= start + (a + b + c));
    assert(start + a + b =~= start + (a + b));
}

fn draw_backdrop(c: &mut Canvas, ui: &Ui, palette: &Palette)
    ensures
        final(c)@ == old(c)@ + backdrop(ui@, *palette),
{
    let ghost start = c@;
    let ghost first = seq![rect(0, 0, 480, 720, palette.background)];
    c.rect(0, 0, 480, 720, palette.background);
    assert(c@ =~= start + first);
    draw_scenery(c, ui.device.theme, palette, ui.device.seed, ui.device.frame);
    draw_header(c, ui, palette);
    proof {
        let moving = scenery(ui.device.theme, *palette, ui.device.seed, ui.device.frame);
        lemma_layers(start, first, moving, header(ui@, *palette), seq![], seq![]);
    }
}

fn draw_foreground(c: &mut Canvas, ui: &Ui, checks: &Checks, palette: &Palette)
    requires
        ui@.wf(),
    ensures
        final(c)@ == old(c)@ + foreground(ui@, *checks, *palette),
{
    let ghost start = c@;
    draw_content(c, ui, palette);
    draw_arrows(c, ui, palette);
    draw_tiles(c, ui, checks, palette);
    draw_footer(c, ui, palette);
    draw_toolbar(c, ui, palette);
    proof {
        lemma_layers(
            start,
            content(ui@, *palette),
            arrows(ui@, *palette),
            tiles(ui@, *checks, *palette),
            footer(ui@, *palette),
            toolbar(ui@, *palette),
        );
    }
}

/// Draws the whole screen.
pub fn draw_list(c: &mut Canvas, ui: &Ui, checks: &Checks, now: u64)
    requires
        ui@.wf(),
    ensures
        final(c)@ == old(c)@ + screen(ui@, *checks, now),
{
    let palette = ui.device.theme.palette();
    let ghost start = c@;
    draw_backdrop(c, ui, &palette);
    match ui.device.stage {
        Some(stage) => {
            let seconds: u64 = now.saturating_sub(ui.times.stage_start) / 1_000_000_000;
            let retrying = ui.times.retry.is_some();
            draw_start_screen(c, stage, seconds, retrying, &palette);
            proof {
                let shown = start_screen(stage, seconds as nat, retrying, palette);
                lemma_layers(start, backdrop(ui@, palette), shown, seq![], seq![], seq![]);
            }
        },
        None => {
            draw_foreground(c, ui, checks, &palette);
            proof {
                let shown = foreground(ui@, *checks, palette);
                lemma_layers(start, backdrop(ui@, palette), shown, seq![], seq![], seq![]);
            }
        },
    }
}

/// The volume indicator, where it is shown.
pub open spec fn popup(u: UiView) -> Seq<ShapeView> {
    match u.play.volume_popup {
        Some(popup) => volume_popup(popup.percent, palette_of(u.device.theme)),
        None => seq![],
    }
}

/// What is drawn over the last picture for a frame.
pub open spec fn frame_shapes(u: UiView, frame: Frame, checks: Checks, now: u64) -> Seq<ShapeView> {
    match frame {
        Frame::Full => screen(u, checks, now) + popup(u),
        Frame::Strip => strip(
            u.now_playing,
            u.play.position,
            u.play.state,
            palette_of(u.device.theme),
        ) + popup(u),
        _ => seq![],
    }
}

/// Draws a frame.
pub fn draw_frame(ui: &Ui, frame: Frame, checks: &Checks, now: u64) -> (r: Canvas)
    requires
        ui@.wf(),
    ensures
        r@ == frame_shapes(ui@, frame, *checks, now),
{
    let mut c = Canvas::new();
    let palette = ui.device.theme.palette();
    match frame {
        Frame::Full => {
            draw_list(&mut c, ui, checks, now);
        },
        Frame::Strip => {
            draw_now_playing_strip(
                &mut c,
                &ui.now_playing,
                ui.play.position,
                ui.play.state,
                &palette,
            );
        },
        _ => {
            return c;
        },
    }
    match ui.play.volume_popup {
        Some(popup) => {
            draw_volume_popup(&mut c, popup.percent, &palette);
        },
        None => {},
    }
    assert(c@ =~= frame_shapes(ui@, frame, *checks, now));
    c
}

} // verus!
