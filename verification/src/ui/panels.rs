//! The volume indicator, the strip of the current track, and its own screen.
use crate::daemon::state::{NowPlaying, NowPlayingView};
use crate::text::{append_number, decimal, view_opt};
use crate::ui::canvas::{label, rect, Canvas, Font, ShapeView};
use crate::ui::labels::{clock_text, format_playback_time, shortened, truncate_label};
use crate::ui::palette::Palette;
use crate::ui::replies::PlaybackState;
use vstd::prelude::*;
use vstd::string::*;

verus! {

/// Where a text of `len` characters starts that stands in the middle of the screen.
pub open spec fn centered(len: nat, char_width: int) -> int {
    (480 - len * char_width) / 2
}

/// How wide a text is.
pub fn text_width(text: &str, char_width: i32) -> (r: i32)
    requires
        text@.len() <= 1000,
        0 < char_width <= 20,
    ensures
        r == text@.len() * char_width,
        0 <= r <= 20000,
{
    proof {
        assert(0 <= text@.len() * char_width <= 20000) by (nonlinear_arith)
            requires
                0 <= text@.len() <= 1000,
                0 < char_width <= 20,
        ;
    }
    text.unicode_len() as i32 * char_width
}

/// A number below ten to the fifth has at most five digits.
pub proof fn lemma_short_decimal(n: nat)
    requires
        n < 100_000,
    ensures
        1 <= decimal(n).len() <= 5,
        n < 1000 ==> decimal(n).len() <= 3,
{
    reveal_with_fuel(decimal, 6);
}

/// A time has four to eight characters.
pub proof fn lemma_clock_len(ms: u32)
    ensures
        4 <= clock_text(ms as nat).len() <= 8,
{
    lemma_short_decimal((ms as nat / 1000) / 60);
}

pub open spec fn volume_label(percent: u8) -> Seq<char> {
    "Volume "@ + decimal(percent as nat) + "%"@
}

/// The volume indicator: a frame, a plate and the percentage.
pub open spec fn volume_popup(percent: u8, palette: Palette) -> Seq<ShapeView> {
    let text = volume_label(percent);
    seq![
        rect(118, 582, 244, 48, palette.border),
        rect(120, 584, 240, 44, palette.toolbar),
        label(text, centered(text.len(), 9), 598, Font::Bold, palette.text),
    ]
}

/// Draws a temporary volume indicator over the strip of the current track.
pub fn draw_volume_popup(c: &mut Canvas, volume_percent: u8, palette: &Palette)
    ensures
        final(c)@ == old(c)@ + volume_popup(volume_percent, *palette),
{
    c.rect(118, 582, 244, 48, palette.border);
    c.rect(120, 584, 240, 44, palette.toolbar);
    let mut text = "Volume ".to_owned();
    append_number(&mut text, volume_percent as u64);
    text.append("%");
    proof {
        reveal_strlit("Volume ");
        reveal_strlit("%");
        lemma_short_decimal(volume_percent as nat);
    }
    let width: i32 = text_width(text.as_str(), 9);
    c.label(text.as_str(), (480 - width) / 2, 598, Font::Bold, palette.text);
    assert(c@ =~= old(c)@ + volume_popup(volume_percent, *palette));
}

/// How far a track has played, at most to its end.
pub open spec fn clipped(position: Option<u32>, duration: u32) -> u32 {
    match position {
        Some(ms) => if ms < duration {
            ms
        } else {
            duration
        },
        None => 0,
    }
}

pub fn clip_position(position: Option<u32>, duration: u32) -> (r: u32)
    ensures
        r == clipped(position, duration),
        r <= duration,
{
    match position {
        Some(ms) => if ms < duration { ms } else { duration },
        None => 0,
    }
}

/// How much of a bar of a given width is filled. A track without a length fills none.
pub open spec fn filled(position: u32, duration: u32, width: int) -> int {
    if duration == 0 {
        0
    } else {
        position * width / duration as int
    }
}

fn fill_width(position: u32, duration: u32, width: u32) -> (r: u32)
    requires
        position <= duration,
        width <= 1000,
    ensures
        r == filled(position, duration, width as int),
        r <= width,
{
    if duration == 0 {
        return 0;
    }
    proof {
        assert(0 <= position * width <= 0xffff_ffff * 1000) by (nonlinear_arith)
            requires
                0 <= position <= 0xffff_ffff,
                0 <= width <= 1000,
        ;
        assert((position * width) / (duration as int) <= width) by (nonlinear_arith)
            requires
                0 <= position <= duration,
                0 < duration,
                0 <= width,
        ;
        assert((position * width) / (duration as int) >= 0) by (nonlinear_arith)
            requires
                0 <= position <= duration,
                0 < duration,
                0 <= width,
        ;
    }
    (position as u64 * width as u64 / duration as u64) as u32
}

pub open spec fn artist_or_unknown(artist: Seq<char>) -> Seq<char> {
    if artist.len() == 0 {
        "Unknown artist"@
    } else {
        artist
    }
}

fn known_artist<'a>(artist: &'a str) -> (r: &'a str)
    ensures
        r@ == artist_or_unknown(artist@),
{
    if artist.is_empty() {
        "Unknown artist"
    } else {
        artist
    }
}

/// What stands in place of a track that does not play.
pub open spec fn silence_label(state: PlaybackState) -> Seq<char> {
    match state {
        PlaybackState::Unknown => "Reconnecting..."@,
        PlaybackState::Error => "Playback error"@,
        _ => "Nothing playing"@,
    }
}

fn label_silence(state: PlaybackState) -> (r: &'static str)
    ensures
        r@ == silence_label(state),
        r@.len() <= 15,
{
    proof {
        reveal_strlit("Reconnecting...");
        reveal_strlit("Playback error");
        reveal_strlit("Nothing playing");
    }
    match state {
        PlaybackState::Unknown => "Reconnecting...",
        PlaybackState::Error => "Playback error",
        _ => "Nothing playing",
    }
}

/// The position and the length of a track.
pub open spec fn time_label(position: u32, duration: u32) -> Seq<char> {
    clock_text(position as nat) + " / "@ + clock_text(duration as nat)
}

/// The part of a progress bar that is filled, if any of it is.
pub open spec fn progress(x: int, y: int, w: int, h: int, color: u16) -> Seq<ShapeView> {
    if w > 0 {
        seq![rect(x, y, w, h, color)]
    } else {
        seq![]
    }
}

/// The current track in the strip.
pub open spec fn strip_track(item: NowPlayingView, position: Option<u32>, palette: Palette) -> Seq<
    ShapeView,
> {
    let at = clipped(position, item.duration_ms);
    let time = time_label(at, item.duration_ms);
    let artist_chars = (448 - time.len() * 9) / 9;
    seq![
        label("<|"@, 8, 583, Font::Bold, palette.text),
        label("|>"@, 452, 583, Font::Bold, palette.text),
        label(shortened(item.title, 43), 38, 583, Font::Bold, palette.text),
        label(
            shortened(artist_or_unknown(item.artist), artist_chars as nat),
            10,
            601,
            Font::Plain,
            palette.text,
        ),
        label(time, 470 - time.len() * 9, 601, Font::Plain, palette.text),
        rect(10, 633, 460, 4, palette.progress_track),
    ] + progress(10, 633, filled(at, item.duration_ms, 460), 4, palette.progress_fill)
}

/// The strip of the current track.
pub open spec fn strip(
    item: Option<NowPlayingView>,
    position: Option<u32>,
    state: PlaybackState,
    palette: Palette,
) -> Seq<ShapeView> {
    seq![rect(0, 580, 480, 60, palette.now_playing)] + match item {
        Some(item) => strip_track(item, position, palette),
        None => seq![label(silence_label(state), 10, 602, Font::Plain, palette.text)],
    }
}

/// Draws the 60-pixel strip of the current track.
pub fn draw_now_playing_strip(
    c: &mut Canvas,
    now_playing: &Option<NowPlaying>,
    playback_position: Option<u32>,
    playback_state: PlaybackState,
    palette: &Palette,
)
    ensures
        final(c)@ == old(c)@ + strip(
            view_opt(*now_playing),
            playback_position,
            playback_state,
            *palette,
        ),
{
    c.rect(0, 580, 480, 60, palette.now_playing);
    match now_playing {
        Some(item) => {
            let duration: u32 = item.duration_ms;
            let at: u32 = clip_position(playback_position, duration);
            let mut time = format_playback_time(at);
            time.append(" / ");
            time.append(format_playback_time(duration).as_str());
            proof {
                reveal_strlit(" / ");
                lemma_clock_len(at);
                lemma_clock_len(duration);
            }
            let time_width: i32 = text_width(time.as_str(), 9);
            let artist_chars: usize = ((448 - time_width) / 9) as usize;
            let title = truncate_label(item.title.as_str(), 43);
            let artist = truncate_label(known_artist(item.artist.as_str()), artist_chars);
            c.label("<|", 8, 583, Font::Bold, palette.text);
            c.label("|>", 452, 583, Font::Bold, palette.text);
            c.label(title.as_str(), 38, 583, Font::Bold, palette.text);
            c.label(artist.as_str(), 10, 601, Font::Plain, palette.text);
            c.label(time.as_str(), 470 - time_width, 601, Font::Plain, palette.text);
            c.rect(10, 633, 460, 4, palette.progress_track);
            let full: u32 = fill_width(at, duration, 460);
            if full > 0 {
                c.rect(10, 633, full, 4, palette.progress_fill);
            }
        },
        None => {
            c.label(label_silence(playback_state), 10, 602, Font::Plain, palette.text);
        },
    }
    assert(c@ =~= old(c)@ + strip(
        view_opt(*now_playing),
        playback_position,
        playback_state,
        *palette,
    ));
}

/// Where a centered text starts that must not touch the edge.
pub open spec fn inset(x: int) -> int {
    if x < 8 {
        8
    } else {
        x
    }
}

/// The current track on its own screen.
pub open spec fn big_track(item: NowPlayingView, position: Option<u32>, palette: Palette) -> Seq<
    ShapeView,
> {
    let title = shortened(item.title, 42);
    let artist = shortened(artist_or_unknown(item.artist), 48);
    let at = clipped(position, item.duration_ms);
    let remaining = "-"@ + clock_text((item.duration_ms - at) as nat);
    seq![
        label(title, inset(centered(title.len(), 10)), 145, Font::Large, palette.text),
        label(artist, inset(centered(artist.len(), 9)), 190, Font::Plain, palette.text),
        label(clock_text(at as nat), 20, 322, Font::Plain, palette.text),
        label(remaining, 460 - remaining.len() * 9, 322, Font::Plain, palette.text),
        rect(20, 300, 440, 10, palette.progress_track),
    ] + progress(20, 300, filled(at, item.duration_ms, 440), 10, palette.progress_fill)
}

/// The middle button.
pub open spec fn middle_label(state: PlaybackState) -> Seq<char> {
    if state == PlaybackState::Paused {
        "Play"@
    } else {
        "Pause"@
    }
}

/// A button's text around a column.
pub open spec fn button_text(text: Seq<char>, column: int, y: int, palette: Palette) -> ShapeView {
    label(text, column - text.len() * 9 / 2, y, Font::Bold, palette.text)
}

/// The buttons of the screen of the current track.
pub open spec fn big_buttons(state: PlaybackState, palette: Palette) -> Seq<ShapeView> {
    seq![
        rect(0, 390, 160, 100, palette.now_playing),
        rect(160, 390, 160, 100, palette.now_playing),
        rect(320, 390, 160, 100, palette.now_playing),
        rect(160, 390, 1, 100, palette.border),
        rect(320, 390, 1, 100, palette.border),
        button_text("Previous"@, 80, 432, palette),
        button_text(middle_label(state), 240, 432, palette),
        button_text("Next"@, 400, 432, palette),
        rect(40, 520, 400, 90, palette.now_playing),
        label("View Up Next"@, 186, 558, Font::Bold, palette.text),
    ]
}

/// The screen of the current track.
pub open spec fn big_view(
    item: Option<NowPlayingView>,
    position: Option<u32>,
    state: PlaybackState,
    palette: Palette,
) -> Seq<ShapeView> {
    seq![rect(0, 40, 480, 620, palette.background)] + (match item {
        Some(item) => big_track(item, position, palette),
        None => seq![
            label(
                silence_label(state),
                centered(silence_label(state).len(), 10),
                190,
                Font::Large,
                palette.text,
            ),
        ],
    }) + big_buttons(state, palette)
}

fn draw_big_track(c: &mut Canvas, item: &NowPlaying, position: Option<u32>, palette: &Palette)
    ensures
        final(c)@ == old(c)@ + big_track(item@, position, *palette),
{
    let title = truncate_label(item.title.as_str(), 42);
    let artist = truncate_label(known_artist(item.artist.as_str()), 48);
    let title_x: i32 = (480 - text_width(title.as_str(), 10)) / 2;
    let artist_x: i32 = (480 - text_width(artist.as_str(), 9)) / 2;
    c.label(
        title.as_str(),
        if title_x < 8 { 8 } else { title_x },
        145,
        Font::Large,
        palette.text,
    );
    c.label(
        artist.as_str(),
        if artist_x < 8 { 8 } else { artist_x },
        190,
        Font::Plain,
        palette.text,
    );
    let duration: u32 = item.duration_ms;
    let at: u32 = clip_position(position, duration);
    let elapsed = format_playback_time(at);
    let mut remaining = "-".to_owned();
    remaining.append(format_playback_time(duration - at).as_str());
    proof {
        reveal_strlit("-");
        lemma_clock_len((duration - at) as u32);
    }
    c.label(elapsed.as_str(), 20, 322, Font::Plain, palette.text);
    let width: i32 = text_width(remaining.as_str(), 9);
    c.label(remaining.as_str(), 460 - width, 322, Font::Plain, palette.text);
    c.rect(20, 300, 440, 10, palette.progress_track);
    let full: u32 = fill_width(at, duration, 440);
    if full > 0 {
        c.rect(20, 300, full, 10, palette.progress_fill);
    }
    assert(c@ =~= old(c)@ + big_track(item@, position, *palette));
}

fn draw_button_text(c: &mut Canvas, text: &str, column: i32, y: i32, palette: &Palette)
    requires
        text@.len() <= 100,
        0 <= column <= 480,
    ensures
        final(c)@ == old(c)@.push(button_text(text@, column as int, y as int, *palette)),
{
    let half: i32 = text_width(text, 9) / 2;
    c.label(text, column - half, y, Font::Bold, palette.text);
}

/// Draws the screen of the current track.
pub fn draw_now_playing_view(
    c: &mut Canvas,
    now_playing: &Option<NowPlaying>,
    playback_position: Option<u32>,
    playback_state: PlaybackState,
    palette: &Palette,
)
    ensures
        final(c)@ == old(c)@ + big_view(
            view_opt(*now_playing),
            playback_position,
            playback_state,
            *palette,
        ),
{
    c.rect(0, 40, 480, 620, palette.background);
    match now_playing {
        Some(item) => {
            draw_big_track(c, item, playback_position, palette);
        },
        None => {
            let text = label_silence(playback_state);
            let width: i32 = text_width(text, 10);
            c.label(text, (480 - width) / 2, 190, Font::Large, palette.text);
        },
    }
    let ghost before = c@;
    c.rect(0, 390, 160, 100, palette.now_playing);
    c.rect(160, 390, 160, 100, palette.now_playing);
    c.rect(320, 390, 160, 100, palette.now_playing);
    c.rect(160, 390, 1, 100, palette.border);
    c.rect(320, 390, 1, 100, palette.border);
    proof {
        reveal_strlit("Previous");
        reveal_strlit("Play");
        reveal_strlit("Pause");
        reveal_strlit("Next");
    }
    draw_button_text(c, "Previous", 80, 432, palette);
    draw_button_text(
        c,
        if playback_state.is_paused() { "Play" } else { "Pause" },
        240,
        432,
        palette,
    );
    draw_button_text(c, "Next", 400, 432, palette);
    c.rect(40, 520, 400, 90, palette.now_playing);
    c.label("View Up Next", 186, 558, Font::Bold, palette.text);
    assert(c@ =~= before + big_buttons(playback_state, *palette));
    assert(c@ =~= old(c)@ + big_view(
        view_opt(*now_playing),
        playback_position,
        playback_state,
        *palette,
    ));
}

/// A progress bar is filled in proportion to what has played.
pub proof fn bar_is_filled_in_proportion(position: u32, duration: u32, width: int)
    requires
        0 < duration,
        0 <= width,
    ensures
        filled(position, duration, width) * duration <= position * width < (filled(
            position,
            duration,
            width,
        ) + 1) * duration,
{
    let product = position * width;
    let bar = product / (duration as int);
    vstd::arithmetic::div_mod::lemma_fundamental_div_mod(product, duration as int);
    assert(bar * duration == duration * bar) by (nonlinear_arith);
    assert((bar + 1) * duration == bar * duration + duration) by (nonlinear_arith);
}

/// On the screen of the track, what has played and what is left make the whole track.
pub proof fn elapsed_and_remaining_make_the_track(
    item: NowPlayingView,
    position: u32,
    palette: Palette,
)
    requires
        position <= item.duration_ms,
    ensures
        ({
            let shapes = big_track(item, Some(position), palette);
            &&& shapes[2]->text == clock_text(position as nat)
            &&& shapes[3]->text == "-"@ + clock_text((item.duration_ms - position) as nat)
            &&& shapes[0]->text == shortened(item.title, 42)
            &&& item.artist.len() > 0 ==> shapes[1]->text == shortened(item.artist, 48)
        }),
{
}

} // verus!
