//! The moving backgrounds of the themes.
use crate::ui::canvas::{disc, dot, each, oval, rect, ring, wrapped, Canvas, ShapeView};
use crate::ui::palette::{black, rgb, rgb565, white, Palette};
use crate::ui::settings::Theme;
use vstd::prelude::*;

verus! {

/// How far something has come that starts at `start` and moves `speed` a frame, within
/// a range. The frame counter and the sum run over at 32 bits.
pub open spec fn drifted(start: int, frame: u32, speed: int, range: int) -> int {
    wrapped(start + frame * speed) % range
}

fn drift(start: u32, frame: u32, speed: u32, range: u32) -> (r: i32)
    requires
        speed <= 16,
        0 < range <= 0x7fff_ffff,
    ensures
        r == drifted(start as int, frame, speed as int, range as int),
        0 <= r < range,
{
    proof {
        assert(0 <= frame * speed <= 0xffff_ffff * 16) by (nonlinear_arith)
            requires
                0 <= frame <= 0xffff_ffff,
                0 <= speed <= 16,
        ;
    }
    let sum: u64 = start as u64 + frame as u64 * speed as u64;
    ((sum % 0x1_0000_0000) % (range as u64)) as i32
}

/// One step of a 32-bit xorshift generator.
pub open spec fn xorshift32(seed: u32) -> u32 {
    let a = seed ^ (seed << 13);
    let b = a ^ (a >> 17);
    b ^ (b << 5)
}

fn next_random32(seed: u32) -> (r: u32)
    ensures
        r == xorshift32(seed),
{
    let a: u32 = seed ^ (seed << 13);
    let b: u32 = a ^ (a >> 17);
    b ^ (b << 5)
}

/// The grey of a speck of snow.
pub open spec fn snow_level(random: u32) -> int {
    4 + (random >> 16) as int % 15
}

/// A speck of snow: the column from one random number, the row and the grey from the
/// next.
pub open spec fn speck(seed: u32) -> ShapeView {
    let first = xorshift32(seed);
    let second = xorshift32(first);
    let level = snow_level(second);
    dot(
        first as int % 480,
        40 + second as int % 540,
        rgb(level as u8, (level * 2) as u8, level as u8),
    )
}

/// `n` specks of snow.
pub open spec fn snow(n: nat, seed: u32) -> Seq<ShapeView>
    decreases n,
{
    if n == 0 {
        seq![]
    } else {
        seq![speck(seed)] + snow((n - 1) as nat, xorshift32(xorshift32(seed)))
    }
}

/// Draws snow.
pub fn draw_monochrome_static(c: &mut Canvas, seed: u32)
    ensures
        final(c)@ == old(c)@ + snow(180, seed),
{
    let mut seed: u32 = seed;
    let mut left: u32 = 180;
    let ghost all = old(c)@ + snow(180, seed);
    while left > 0
        invariant
            all =~= c@ + snow(left as nat, seed),
        decreases left,
    {
        let first: u32 = next_random32(seed);
        let second: u32 = next_random32(first);
        let level: u8 = 4 + ((second >> 16) % 15) as u8;
        let color: u16 = rgb565(level, level * 2, level);
        c.dot((first % 480) as i32, 40 + (second % 540) as i32, color);
        seed = second;
        left -= 1;
    }
}

/// One of the three moons: where it starts, and how fast it moves.
pub open spec fn moon(frame: u32, palette: Palette, x: int, y: int, speed: int) -> Seq<ShapeView> {
    let left = drifted(x, frame, speed, 440);
    let top = y + drifted(x, frame, 1, 24) - 12;
    seq![disc(left, top, 22, palette.progress_fill), disc(left + 7, top - 3, 22, palette.background)]
}

fn draw_moon(c: &mut Canvas, frame: u32, palette: &Palette, x: u32, y: u32, speed: u32)
    requires
        y <= 1000,
        speed <= 16,
    ensures
        final(c)@ == old(c)@ + moon(frame, *palette, x as int, y as int, speed as int),
{
    let left: i32 = drift(x, frame, speed, 440);
    let top: i32 = y as i32 + drift(x, frame, 1, 24) - 12;
    c.disc(left, top, 22, palette.progress_fill);
    c.disc(left + 7, top - 3, 22, palette.background);
    assert(c@ =~= old(c)@ + moon(frame, *palette, x as int, y as int, speed as int));
}

/// A star of the sky.
pub open spec fn star(frame: u32, palette: Palette) -> spec_fn(int) -> Seq<ShapeView> {
    |i: int| {
        let color = if wrapped(i + frame) % 4 == 0 {
            palette.progress_fill
        } else {
            palette.text
        };
        seq![
            dot(
                drifted(i * 83 + 19, frame, i % 3 + 1, 480),
                45 + drifted(i * 47, frame, i % 2 + 1, 525),
                color,
            ),
        ]
    }
}

/// Draws the stars.
fn draw_sky_stars(c: &mut Canvas, frame: u32, palette: &Palette)
    ensures
        final(c)@ == old(c)@ + each(28, star(frame, *palette)),
{
    let ghost f = star(frame, *palette);
    let mut i: u32 = 0;
    assert(c@ =~= old(c)@ + each(0, f));
    while i < 28
        invariant
            i <= 28,
            f == star(frame, *palette),
            c@ == old(c)@ + each(i as nat, f),
        decreases 28 - i,
    {
        let color: u16 = if drift(i, frame, 1, 4) == 0 { palette.progress_fill } else { palette.text };
        c.dot(
            drift(i * 83 + 19, frame, i % 3 + 1, 480),
            45 + drift(i * 47, frame, i % 2 + 1, 525),
            color,
        );
        assert(c@ =~= old(c)@ + (each(i as nat, f) + f(i as int)));
        i += 1;
    }
}

/// A mote of dust.
pub open spec fn mote(frame: u32, palette: Palette) -> spec_fn(int) -> Seq<ShapeView> {
    |i: int| {
        let color = if wrapped(i + frame) % 4 == 0 {
            palette.header
        } else {
            palette.progress_fill
        };
        seq![
            disc(
                drifted(i * 71, frame, i % 4 + 1, 480),
                48 + drifted(i * 43, frame, i % 3 + 1, 520),
                1 + i % 3,
                color,
            ),
        ]
    }
}

/// Draws motes of dust.
pub fn draw_el_kay_kay_motes(c: &mut Canvas, frame: u32, palette: &Palette)
    ensures
        final(c)@ == old(c)@ + each(14, mote(frame, *palette)),
{
    let ghost f = mote(frame, *palette);
    let mut i: u32 = 0;
    assert(c@ =~= old(c)@ + each(0, f));
    while i < 14
        invariant
            i <= 14,
            f == mote(frame, *palette),
            c@ == old(c)@ + each(i as nat, f),
        decreases 14 - i,
    {
        let color: u16 = if drift(i, frame, 1, 4) == 0 { palette.header } else { palette.progress_fill };
        c.disc(
            drift(i * 71, frame, i % 4 + 1, 480),
            48 + drift(i * 43, frame, i % 3 + 1, 520),
            1 + i % 3,
            color,
        );
        assert(c@ =~= old(c)@ + (each(i as nat, f) + f(i as int)));
        i += 1;
    }
}

/// A bubble that rises.
pub open spec fn bubble(frame: u32, palette: Palette) -> spec_fn(int) -> Seq<ShapeView> {
    |i: int| {
        let color = if i % 3 == 0 {
            palette.progress_fill
        } else {
            palette.border
        };
        seq![
            ring(
                drifted(i * 89, frame, i % 3 + 1, 480),
                570 - drifted(i * 67, frame, i % 4 + 2, 520),
                3 + (i % 4) * 2,
                1,
                color,
            ),
        ]
    }
}

/// Draws bubbles.
pub fn draw_tidepool_bubbles(c: &mut Canvas, frame: u32, palette: &Palette)
    ensures
        final(c)@ == old(c)@ + each(10, bubble(frame, *palette)),
{
    let ghost f = bubble(frame, *palette);
    let mut i: u32 = 0;
    assert(c@ =~= old(c)@ + each(0, f));
    while i < 10
        invariant
            i <= 10,
            f == bubble(frame, *palette),
            c@ == old(c)@ + each(i as nat, f),
        decreases 10 - i,
    {
        let color: u16 = if i % 3 == 0 { palette.progress_fill } else { palette.border };
        c.ring(
            drift(i * 89, frame, i % 3 + 1, 480),
            570 - drift(i * 67, frame, i % 4 + 2, 520),
            3 + (i % 4) * 2,
            1,
            color,
        );
        assert(c@ =~= old(c)@ + (each(i as nat, f) + f(i as int)));
        i += 1;
    }
}

/// A leaf that falls.
pub open spec fn leaf(frame: u32, palette: Palette) -> spec_fn(int) -> Seq<ShapeView> {
    |i: int| {
        let size = if i % 4 == 0 {
            7int
        } else {
            5
        };
        let color = if i % 3 == 0 {
            palette.header
        } else {
            palette.progress_fill
        };
        seq![
            rect(
                drifted(i * 97, frame, i % 5 + 1, 480),
                44 + drifted(i * 53, frame, i % 3 + 1, 530),
                size + 2,
                size,
                color,
            ),
        ]
    }
}

/// Draws leaves.
pub fn draw_citrus_grove_leaves(c: &mut Canvas, frame: u32, palette: &Palette)
    ensures
        final(c)@ == old(c)@ + each(12, leaf(frame, *palette)),
{
    let ghost f = leaf(frame, *palette);
    let mut i: u32 = 0;
    assert(c@ =~= old(c)@ + each(0, f));
    while i < 12
        invariant
            i <= 12,
            f == leaf(frame, *palette),
            c@ == old(c)@ + each(i as nat, f),
        decreases 12 - i,
    {
        let size: u32 = if i % 4 == 0 { 7 } else { 5 };
        let color: u16 = if i % 3 == 0 { palette.header } else { palette.progress_fill };
        c.rect(
            drift(i * 97, frame, i % 5 + 1, 480),
            44 + drift(i * 53, frame, i % 3 + 1, 530),
            size + 2,
            size,
            color,
        );
        assert(c@ =~= old(c)@ + (each(i as nat, f) + f(i as int)));
        i += 1;
    }
}

/// A lantern that rises, with its foot.
pub open spec fn lantern(frame: u32, palette: Palette) -> spec_fn(int) -> Seq<ShapeView> {
    |i: int| {
        let x = drifted(i * 113, frame, i % 2 + 1, 480);
        let y = 550 - drifted(i * 91, frame, i % 3 + 1, 500);
        let color = if i % 2 == 0 {
            palette.progress_fill
        } else {
            palette.header
        };
        seq![rect(x, y, 9, 12, color), rect(x + 2, y + 12, 5, 2, palette.border)]
    }
}

/// Draws lanterns.
pub fn draw_paper_lanterns(c: &mut Canvas, frame: u32, palette: &Palette)
    ensures
        final(c)@ == old(c)@ + each(6, lantern(frame, *palette)),
{
    let ghost f = lantern(frame, *palette);
    let mut i: u32 = 0;
    assert(c@ =~= old(c)@ + each(0, f));
    while i < 6
        invariant
            i <= 6,
            f == lantern(frame, *palette),
            c@ == old(c)@ + each(i as nat, f),
        decreases 6 - i,
    {
        let x: i32 = drift(i * 113, frame, i % 2 + 1, 480);
        let y: i32 = 550 - drift(i * 91, frame, i % 3 + 1, 500);
        let color: u16 = if i % 2 == 0 { palette.progress_fill } else { palette.header };
        c.rect(x, y, 9, 12, color);
        c.rect(x + 2, y + 12, 5, 2, palette.border);
        assert(c@ =~= old(c)@ + (each(i as nat, f) + f(i as int)));
        i += 1;
    }
}

/// A spark.
pub open spec fn spark(frame: u32, palette: Palette) -> spec_fn(int) -> Seq<ShapeView> {
    |i: int| {
        let color = if i % 3 == 0 {
            palette.progress_fill
        } else if i % 3 == 1 {
            palette.border
        } else {
            palette.header
        };
        seq![
            rect(
                drifted(i * 61, frame, i % 4 + 2, 480),
                45 + drifted(i * 79, frame, i % 3 + 1, 525),
                2,
                2,
                color,
            ),
        ]
    }
}

/// Draws sparks.
pub fn draw_arcade_sparks(c: &mut Canvas, frame: u32, palette: &Palette)
    ensures
        final(c)@ == old(c)@ + each(14, spark(frame, *palette)),
{
    let ghost f = spark(frame, *palette);
    let mut i: u32 = 0;
    assert(c@ =~= old(c)@ + each(0, f));
    while i < 14
        invariant
            i <= 14,
            f == spark(frame, *palette),
            c@ == old(c)@ + each(i as nat, f),
        decreases 14 - i,
    {
        let color: u16 = if i % 3 == 0 {
            palette.progress_fill
        } else if i % 3 == 1 {
            palette.border
        } else {
            palette.header
        };
        c.rect(
            drift(i * 61, frame, i % 4 + 2, 480),
            45 + drift(i * 79, frame, i % 3 + 1, 525),
            2,
            2,
            color,
        );
        assert(c@ =~= old(c)@ + (each(i as nat, f) + f(i as int)));
        i += 1;
    }
}

/// A grain of dust that the wind carries.
pub open spec fn grain(frame: u32, palette: Palette) -> spec_fn(int) -> Seq<ShapeView> {
    |i: int| {
        let color = if i % 4 == 0 {
            palette.border
        } else {
            palette.progress_fill
        };
        seq![
            rect(
                drifted(i * 101, frame, i % 5 + 2, 480),
                70 + (i * 47) % 480,
                2 + i % 4,
                1,
                color,
            ),
        ]
    }
}

/// Draws dust.
pub fn draw_desert_dust(c: &mut Canvas, frame: u32, palette: &Palette)
    ensures
        final(c)@ == old(c)@ + each(11, grain(frame, *palette)),
{
    let ghost f = grain(frame, *palette);
    let mut i: u32 = 0;
    assert(c@ =~= old(c)@ + each(0, f));
    while i < 11
        invariant
            i <= 11,
            f == grain(frame, *palette),
            c@ == old(c)@ + each(i as nat, f),
        decreases 11 - i,
    {
        let color: u16 = if i % 4 == 0 { palette.border } else { palette.progress_fill };
        c.rect(
            drift(i * 101, frame, i % 5 + 2, 480),
            70 + ((i * 47) % 480) as i32,
            2 + i % 4,
            1,
            color,
        );
        assert(c@ =~= old(c)@ + (each(i as nat, f) + f(i as int)));
        i += 1;
    }
}

/// A light that is lit three frames of four, with its bulb.
pub open spec fn light(frame: u32, palette: Palette) -> spec_fn(int) -> Seq<ShapeView> {
    |i: int| {
        let x = drifted(i * 109, frame, i % 3 + 1, 480);
        let y = 58 + drifted(i * 73, frame, i % 2 + 1, 500);
        let color = if wrapped(i + frame) % 4 != 0 {
            palette.progress_fill
        } else {
            palette.header
        };
        seq![rect(x, y, 4, 6, color), dot(x + 1, y + 7, palette.border)]
    }
}

/// Draws lights.
pub fn draw_night_market_lights(c: &mut Canvas, frame: u32, palette: &Palette)
    ensures
        final(c)@ == old(c)@ + each(7, light(frame, *palette)),
{
    let ghost f = light(frame, *palette);
    let mut i: u32 = 0;
    assert(c@ =~= old(c)@ + each(0, f));
    while i < 7
        invariant
            i <= 7,
            f == light(frame, *palette),
            c@ == old(c)@ + each(i as nat, f),
        decreases 7 - i,
    {
        let x: i32 = drift(i * 109, frame, i % 3 + 1, 480);
        let y: i32 = 58 + drift(i * 73, frame, i % 2 + 1, 500);
        let color: u16 = if drift(i, frame, 1, 4) != 0 { palette.progress_fill } else { palette.header };
        c.rect(x, y, 4, 6, color);
        c.dot(x + 1, y + 7, palette.border);
        assert(c@ =~= old(c)@ + (each(i as nat, f) + f(i as int)));
        i += 1;
    }
}

/// The moons and the stars.
pub open spec fn sky(frame: u32, palette: Palette) -> Seq<ShapeView> {
    moon(frame, palette, 28, 92, 1) + moon(frame, palette, 250, 238, 2) + moon(
        frame,
        palette,
        118,
        410,
        3,
    ) + each(28, star(frame, palette))
}

/// Draws the moons and the stars.
pub fn draw_al_noor_sky(c: &mut Canvas, frame: u32, palette: &Palette)
    ensures
        final(c)@ == old(c)@ + sky(frame, *palette),
{
    draw_moon(c, frame, palette, 28, 92, 1);
    draw_moon(c, frame, palette, 250, 238, 2);
    draw_moon(c, frame, palette, 118, 410, 3);
    draw_sky_stars(c, frame, palette);
    assert(c@ =~= old(c)@ + sky(frame, *palette));
}

/// An eye of the puppy, with its two highlights.
pub open spec fn eye(x: int, y: int) -> Seq<ShapeView> {
    let white = rgb(31, 63, 31);
    seq![
        oval(x, y + 24, 21, 29, rgb(0, 0, 0)),
        oval(x + 5, y + 28, 8, 11, white),
        disc(x + 4, y + 43, 4, white),
    ]
}

/// The puppy in the corner. It bobs every other frame and its ears every third.
pub open spec fn puppy(frame: u32) -> Seq<ShapeView> {
    let x = 389int;
    let y = 478 + frame as int % 2;
    let drop = frame as int % 3;
    let white = rgb(31, 63, 31);
    let black = rgb(0, 0, 0);
    let pink = rgb(31, 30, 23);
    seq![
        disc(x - 13, y + 9 + drop, 34, black),
        disc(x + 60, y + 9 + drop, 34, black),
        oval(x + 3, y + 4, 76, 72, white),
        disc(x + 5, y - 2, 29, black),
        disc(x + 48, y - 2, 29, black),
    ] + eye(x + 15, y) + eye(x + 49, y) + seq![
        disc(x + 27, y + 45, 28, white),
        oval(x + 36, y + 49, 10, 8, black),
        rect(x + 40, y + 56, 2, 6, black),
        ring(x + 31, y + 57, 11, 2, black),
        ring(x + 41, y + 57, 11, 2, black),
        disc(x + 8, y + 51, 8, pink),
        disc(x + 66, y + 51, 8, pink),
    ]
}

fn draw_eye(c: &mut Canvas, x: i32, y: i32)
    requires
        0 <= x <= 1000,
        0 <= y <= 1000,
    ensures
        final(c)@ == old(c)@ + eye(x as int, y as int),
{
    let white: u16 = white();
    c.oval(x, y + 24, 21, 29, black());
    c.oval(x + 5, y + 28, 8, 11, white);
    c.disc(x + 4, y + 43, 4, white);
    assert(c@ =~= old(c)@ + eye(x as int, y as int));
}

/// Draws the puppy.
pub fn draw_el_kay_kay_puppy(c: &mut Canvas, frame: u32)
    ensures
        final(c)@ == old(c)@ + puppy(frame),
{
    let x: i32 = 389;
    let y: i32 = 478 + (frame % 2) as i32;
    let drop: i32 = (frame % 3) as i32;
    let white: u16 = white();
    let black: u16 = black();
    let pink: u16 = rgb565(31, 30, 23);
    // Symmetrical floppy ears frame a large, front-facing white head.
    c.disc(x - 13, y + 9 + drop, 34, black);
    c.disc(x + 60, y + 9 + drop, 34, black);
    c.oval(x + 3, y + 4, 76, 72, white);
    // Soft black crown patches.
    c.disc(x + 5, y - 2, 29, black);
    c.disc(x + 48, y - 2, 29, black);
    // Tall oval eyes with large highlights.
    draw_eye(c, x + 15, y);
    draw_eye(c, x + 49, y);
    // Rounded muzzle, nose, small smile and pink cheeks.
    c.disc(x + 27, y + 45, 28, white);
    c.oval(x + 36, y + 49, 10, 8, black);
    c.rect(x + 40, y + 56, 2, 6, black);
    c.ring(x + 31, y + 57, 11, 2, black);
    c.ring(x + 41, y + 57, 11, 2, black);
    c.disc(x + 8, y + 51, 8, pink);
    c.disc(x + 66, y + 51, 8, pink);
    assert(c@ =~= old(c)@ + puppy(frame));
}

/// What moves behind the lists of a theme. `seed` starts the snow, `frame` counts the
/// frames of everything else.
pub open spec fn scenery(theme: Theme, palette: Palette, seed: u32, frame: u32) -> Seq<ShapeView> {
    match theme {
        Theme::ElKayKay => each(14, mote(frame, palette)) + puppy(frame),
        Theme::Tidepool => each(10, bubble(frame, palette)),
        Theme::CitrusGrove => each(12, leaf(frame, palette)),
        Theme::MonochromeStatic => snow(180, seed),
        Theme::PaperLantern => each(6, lantern(frame, palette)),
        Theme::DurandalTerminal => seq![],
        Theme::ArcadeBloom => each(14, spark(frame, palette)),
        Theme::DesertBloom => each(11, grain(frame, palette)),
        Theme::AlNoor => sky(frame, palette),
        Theme::NightMarket => each(7, light(frame, palette)),
    }
}

/// Draws what moves behind the lists.
pub fn draw_scenery(c: &mut Canvas, theme: Theme, palette: &Palette, seed: u32, frame: u32)
    ensures
        final(c)@ == old(c)@ + scenery(theme, *palette, seed, frame),
{
    match theme {
        Theme::ElKayKay => {
            draw_el_kay_kay_motes(c, frame, palette);
            draw_el_kay_kay_puppy(c, frame);
        },
        Theme::Tidepool => draw_tidepool_bubbles(c, frame, palette),
        Theme::CitrusGrove => draw_citrus_grove_leaves(c, frame, palette),
        Theme::MonochromeStatic => draw_monochrome_static(c, seed),
        Theme::PaperLantern => draw_paper_lanterns(c, frame, palette),
        Theme::DurandalTerminal => {},
        Theme::ArcadeBloom => draw_arcade_sparks(c, frame, palette),
        Theme::DesertBloom => draw_desert_dust(c, frame, palette),
        Theme::AlNoor => draw_al_noor_sky(c, frame, palette),
        Theme::NightMarket => draw_night_market_lights(c, frame, palette),
    }
    assert(c@ =~= old(c)@ + scenery(theme, *palette, seed, frame));
}

/// What drifts moves by its speed each frame and comes back at the other side of its range.
pub proof fn drifting_moves_by_its_speed(start: int, frame: u32, speed: int, range: int)
    requires
        0 <= start,
        0 <= speed <= 16,
        0 < range,
        frame < u32::MAX,
        start + (frame + 1) * speed < 0x1_0000_0000,
    ensures
        0 <= drifted(start, frame, speed, range) < range,
        drifted(start, (frame + 1) as u32, speed, range) == (drifted(start, frame, speed, range)
            + speed) % range,
{
    let at = start + frame * speed;
    assert((frame + 1) * speed == frame * speed + speed) by (nonlinear_arith);
    assert(0 <= frame * speed) by (nonlinear_arith)
        requires
            0 <= frame,
            0 <= speed,
    ;
    vstd::arithmetic::div_mod::lemma_add_mod_noop(at, speed, range);
    vstd::arithmetic::div_mod::lemma_mod_twice(at, range);
    vstd::arithmetic::div_mod::lemma_add_mod_noop(at % range, speed, range);
}

/// The puppy's ears, crown, eyes and cheeks stand in pairs, the two of a pair at one height
/// and of one size.
pub proof fn puppy_is_paired(frame: u32)
    ensures
        ({
            let p = puppy(frame);
            &&& p.len() == 18
            &&& p[0]->Disc_y == p[1]->Disc_y && p[0]->Disc_d == p[1]->Disc_d
            &&& p[3]->Disc_y == p[4]->Disc_y && p[3]->Disc_d == p[4]->Disc_d
            &&& p[5]->Oval_y == p[8]->Oval_y && p[5]->Oval_w == p[8]->Oval_w
            &&& p[16]->Disc_y == p[17]->Disc_y && p[16]->Disc_d == p[17]->Disc_d
        }),
{
}

/// Where a shape is.
pub open spec fn corner(s: ShapeView) -> (int, int) {
    match s {
        ShapeView::Rect { x, y, .. } => (x as int, y as int),
        ShapeView::Disc { x, y, .. } => (x as int, y as int),
        ShapeView::Ring { x, y, .. } => (x as int, y as int),
        ShapeView::Oval { x, y, .. } => (x as int, y as int),
        ShapeView::Dot { x, y, .. } => (x as int, y as int),
        ShapeView::Label { x, y, .. } => (x as int, y as int),
    }
}

/// Whether a shape stands in the area of the lists, below the header and above the strip.
pub open spec fn in_the_lists(s: ShapeView) -> bool {
    0 <= corner(s).0 < 480 && 40 <= corner(s).1 < 580
}

/// What moves stays in the area of the lists.
pub proof fn scenery_stays_in_the_lists(frame: u32, seed: u32, palette: Palette, i: int)
    ensures
        0 <= i < 14 ==> in_the_lists(mote(frame, palette)(i)[0]),
        0 <= i < 10 ==> in_the_lists(bubble(frame, palette)(i)[0]),
        0 <= i < 12 ==> in_the_lists(leaf(frame, palette)(i)[0]),
        0 <= i < 6 ==> in_the_lists(lantern(frame, palette)(i)[0]),
        0 <= i < 14 ==> in_the_lists(spark(frame, palette)(i)[0]),
        0 <= i < 11 ==> in_the_lists(grain(frame, palette)(i)[0]),
        0 <= i < 28 ==> in_the_lists(star(frame, palette)(i)[0]),
        0 <= i < 7 ==> in_the_lists(light(frame, palette)(i)[0]),
        in_the_lists(speck(seed)),
{
}

/// Whether something has moved to the right and down (or up, if `dy` is negative) within the
/// width of the screen and `rows` rows from row `top` on, and come back at the other side.
pub open spec fn has_moved(
    before: ShapeView,
    after: ShapeView,
    dx: int,
    dy: int,
    top: int,
    rows: int,
) -> bool {
    &&& corner(after).0 == (corner(before).0 + dx) % 480
    &&& corner(after).1 - top == (corner(before).1 - top + dy) % rows
}

/// Each frame moves what a theme shows: bubbles and lanterns up, dust along, the rest down.
/// The one with the next number starts elsewhere and has its own speed.
pub proof fn scenery_moves_by_the_frame(frame: u32, palette: Palette, i: int)
    requires
        frame < 100_000_000,
        0 <= i < 28,
    ensures
        ({
            let next = (frame + 1) as u32;
            &&& has_moved(
                mote(frame, palette)(i)[0],
                mote(next, palette)(i)[0],
                i % 4 + 1,
                i % 3 + 1,
                48,
                520,
            )
            &&& has_moved(
                bubble(frame, palette)(i)[0],
                bubble(next, palette)(i)[0],
                i % 3 + 1,
                -(i % 4 + 2),
                51,
                520,
            )
            &&& has_moved(
                leaf(frame, palette)(i)[0],
                leaf(next, palette)(i)[0],
                i % 5 + 1,
                i % 3 + 1,
                44,
                530,
            )
            &&& has_moved(
                lantern(frame, palette)(i)[0],
                lantern(next, palette)(i)[0],
                i % 2 + 1,
                -(i % 3 + 1),
                51,
                500,
            )
        }),
{
    lemma_mote_moves(frame, palette, i);
    lemma_bubble_moves(frame, palette, i);
    lemma_leaf_moves(frame, palette, i);
    lemma_lantern_moves(frame, palette, i);
}

/// Sparks, lights and stars move down, dust along.
pub proof fn lights_move_by_the_frame(frame: u32, palette: Palette, i: int)
    requires
        frame < 100_000_000,
        0 <= i < 28,
    ensures
        ({
            let next = (frame + 1) as u32;
            &&& has_moved(
                spark(frame, palette)(i)[0],
                spark(next, palette)(i)[0],
                i % 4 + 2,
                i % 3 + 1,
                45,
                525,
            )
            &&& has_moved(
                light(frame, palette)(i)[0],
                light(next, palette)(i)[0],
                i % 3 + 1,
                i % 2 + 1,
                58,
                500,
            )
            &&& has_moved(
                star(frame, palette)(i)[0],
                star(next, palette)(i)[0],
                i % 3 + 1,
                i % 2 + 1,
                45,
                525,
            )
            &&& has_moved(
                grain(frame, palette)(i)[0],
                grain(next, palette)(i)[0],
                i % 5 + 2,
                0,
                70,
                480,
            )
        }),
{
    lemma_spark_moves(frame, palette, i);
    lemma_light_moves(frame, palette, i);
    lemma_star_moves(frame, palette, i);
    lemma_grain_moves(frame, palette, i);
}

proof fn lemma_mote_moves(frame: u32, palette: Palette, i: int)
    requires
        frame < 100_000_000,
        0 <= i < 28,
    ensures
        has_moved(
            mote(frame, palette)(i)[0],
            mote((frame + 1) as u32, palette)(i)[0],
            i % 4 + 1,
            i % 3 + 1,
            48,
            520,
        ),
{
    lemma_drift_step(i * 71, frame, i % 4 + 1, 480);
    lemma_drift_step(i * 43, frame, i % 3 + 1, 520);
}

proof fn lemma_bubble_moves(frame: u32, palette: Palette, i: int)
    requires
        frame < 100_000_000,
        0 <= i < 28,
    ensures
        has_moved(
            bubble(frame, palette)(i)[0],
            bubble((frame + 1) as u32, palette)(i)[0],
            i % 3 + 1,
            -(i % 4 + 2),
            51,
            520,
        ),
{
    lemma_drift_step(i * 89, frame, i % 3 + 1, 480);
    lemma_drift_step(i * 67, frame, i % 4 + 2, 520);
}

proof fn lemma_leaf_moves(frame: u32, palette: Palette, i: int)
    requires
        frame < 100_000_000,
        0 <= i < 28,
    ensures
        has_moved(
            leaf(frame, palette)(i)[0],
            leaf((frame + 1) as u32, palette)(i)[0],
            i % 5 + 1,
            i % 3 + 1,
            44,
            530,
        ),
{
    lemma_drift_step(i * 97, frame, i % 5 + 1, 480);
    lemma_drift_step(i * 53, frame, i % 3 + 1, 530);
}

proof fn lemma_lantern_moves(frame: u32, palette: Palette, i: int)
    requires
        frame < 100_000_000,
        0 <= i < 28,
    ensures
        has_moved(
            lantern(frame, palette)(i)[0],
            lantern((frame + 1) as u32, palette)(i)[0],
            i % 2 + 1,
            -(i % 3 + 1),
            51,
            500,
        ),
{
    lemma_drift_step(i * 113, frame, i % 2 + 1, 480);
    lemma_drift_step(i * 91, frame, i % 3 + 1, 500);
}

proof fn lemma_spark_moves(frame: u32, palette: Palette, i: int)
    requires
        frame < 100_000_000,
        0 <= i < 28,
    ensures
        has_moved(
            spark(frame, palette)(i)[0],
            spark((frame + 1) as u32, palette)(i)[0],
            i % 4 + 2,
            i % 3 + 1,
            45,
            525,
        ),
{
    lemma_drift_step(i * 61, frame, i % 4 + 2, 480);
    lemma_drift_step(i * 79, frame, i % 3 + 1, 525);
}

proof fn lemma_light_moves(frame: u32, palette: Palette, i: int)
    requires
        frame < 100_000_000,
        0 <= i < 28,
    ensures
        has_moved(
            light(frame, palette)(i)[0],
            light((frame + 1) as u32, palette)(i)[0],
            i % 3 + 1,
            i % 2 + 1,
            58,
            500,
        ),
{
    lemma_drift_step(i * 109, frame, i % 3 + 1, 480);
    lemma_drift_step(i * 73, frame, i % 2 + 1, 500);
}

proof fn lemma_star_moves(frame: u32, palette: Palette, i: int)
    requires
        frame < 100_000_000,
        0 <= i < 28,
    ensures
        has_moved(
            star(frame, palette)(i)[0],
            star((frame + 1) as u32, palette)(i)[0],
            i % 3 + 1,
            i % 2 + 1,
            45,
            525,
        ),
{
    lemma_drift_step(i * 83 + 19, frame, i % 3 + 1, 480);
    lemma_drift_step(i * 47, frame, i % 2 + 1, 525);
}

proof fn lemma_grain_moves(frame: u32, palette: Palette, i: int)
    requires
        frame < 100_000_000,
        0 <= i < 28,
    ensures
        has_moved(
            grain(frame, palette)(i)[0],
            grain((frame + 1) as u32, palette)(i)[0],
            i % 5 + 2,
            0,
            70,
            480,
        ),
{
    lemma_drift_step(i * 101, frame, i % 5 + 2, 480);
}

proof fn lemma_drift_step(start: int, frame: u32, speed: int, range: int)
    requires
        0 <= start < 10_000,
        0 < speed <= 6,
        0 < range,
        frame < 100_000_000,
    ensures
        0 <= drifted(start, frame, speed, range) < range,
        drifted(start, (frame + 1) as u32, speed, range) == (drifted(start, frame, speed, range)
            + speed) % range,
{
    assert((frame + 1) * speed <= 100_000_000 * 6) by (nonlinear_arith)
        requires
            0 <= frame < 100_000_000,
            0 < speed <= 6,
    ;
    drifting_moves_by_its_speed(start, frame, speed, range);
}

/// A moon is a crescent: a disc, and over it one of the same size in the colour of the
/// background, a little to the right and up. Each frame moves it to the right.
pub proof fn moon_is_a_crescent(frame: u32, palette: Palette, x: int, y: int, speed: int)
    requires
        frame < 100_000_000,
        0 <= x < 480,
        12 <= y < 560,
        0 < speed <= 3,
    ensures
        ({
            let m = moon(frame, palette, x, y, speed);
            &&& m.len() == 2
            &&& m[0]->Disc_color == palette.progress_fill
            &&& m[1]->Disc_color == palette.background
            &&& m[0]->Disc_d == m[1]->Disc_d
            &&& corner(m[1]).0 == corner(m[0]).0 + 7
            &&& corner(m[1]).1 == corner(m[0]).1 - 3
            &&& -12 <= corner(m[0]).1 - y < 12
            &&& corner(moon((frame + 1) as u32, palette, x, y, speed)[0]).0 == (corner(m[0]).0
                + speed) % 440
        }),
{
    lemma_drift_step(x, frame, speed, 440);
    lemma_drift_step(x, frame, 1, 24);
}

/// A grey of the screen, which has twice as many levels of green.
pub open spec fn grey(level: u8) -> u16 {
    rgb(level, (2 * level) as u8, level)
}

/// Snow is grey, and what falls next is drawn from the number that the last speck left.
pub proof fn snow_is_grey(n: nat, seed: u32)
    ensures
        exists|level: u8|
            4 <= level <= 18 && speck(seed)->Dot_color == #[trigger] grey(level),
        snow(n, seed).len() == n,
        n > 0 ==> snow(n, seed)[0] == speck(seed),
        n > 0 ==> snow(n, seed).skip(1) == snow((n - 1) as nat, xorshift32(xorshift32(seed))),
    decreases n,
{
    let level = snow_level(xorshift32(xorshift32(seed))) as u8;
    assert(4 <= level <= 18);
    assert(speck(seed)->Dot_color == grey(level));
    if n > 0 {
        let rest = snow((n - 1) as nat, xorshift32(xorshift32(seed)));
        snow_is_grey((n - 1) as nat, xorshift32(xorshift32(seed)));
        assert(snow(n, seed).skip(1) =~= rest);
    }
}

/// A step of the generator keeps different numbers different, so a number other than zero
/// never becomes zero.
pub proof fn snow_never_stops(seed: u32, other: u32)
    ensures
        seed != other ==> xorshift32(seed) != xorshift32(other),
        xorshift32(seed) == 0 <==> seed == 0,
        xorshift32(1) == 270_369,
{
    assert(seed != other ==> ({
        let a = seed ^ (seed << 13);
        let b = a ^ (a >> 17);
        let c = other ^ (other << 13);
        let d = c ^ (c >> 17);
        b ^ (b << 5) != d ^ (d << 5)
    })) by (bit_vector);
    assert(({
        let a = seed ^ (seed << 13);
        let b = a ^ (a >> 17);
        b ^ (b << 5)
    }) == 0 <==> seed == 0) by (bit_vector);
    assert(({
        let a = 1u32 ^ (1u32 << 13);
        let b = a ^ (a >> 17);
        b ^ (b << 5)
    }) == 270_369) by (bit_vector);
}

proof fn lemma_each_of_one(n: nat, f: spec_fn(int) -> Seq<ShapeView>)
    requires
        forall|i: int| (#[trigger] f(i)).len() == 1,
    ensures
        each(n, f).len() == n,
        forall|i: int| 0 <= i < n ==> #[trigger] each(n, f)[i] == f(i)[0],
    decreases n,
{
    if n > 0 {
        lemma_each_of_one((n - 1) as nat, f);
    }
}

proof fn lemma_each_of_two(n: nat, f: spec_fn(int) -> Seq<ShapeView>)
    requires
        forall|i: int| (#[trigger] f(i)).len() == 2,
    ensures
        each(n, f).len() == 2 * n,
        forall|i: int| 0 <= i < n ==> each(n, f)[2 * i] == #[trigger] f(i)[0],
    decreases n,
{
    if n > 0 {
        lemma_each_of_two((n - 1) as nat, f);
    }
}

/// Each theme shows its own things, as many as it has, behind one another; the terminal
/// shows none.
pub proof fn theme_shows_its_own_scenery(palette: Palette, seed: u32, frame: u32, i: int)
    ensures
        ({
            let s = scenery(Theme::Tidepool, palette, seed, frame);
            s.len() == 10 && (0 <= i < 10 ==> s[i] == bubble(frame, palette)(i)[0])
        }),
        ({
            let s = scenery(Theme::CitrusGrove, palette, seed, frame);
            s.len() == 12 && (0 <= i < 12 ==> s[i] == leaf(frame, palette)(i)[0])
        }),
        ({
            let s = scenery(Theme::PaperLantern, palette, seed, frame);
            s.len() == 12 && (0 <= i < 6 ==> s[2 * i] == lantern(frame, palette)(i)[0])
        }),
        ({
            let s = scenery(Theme::ArcadeBloom, palette, seed, frame);
            s.len() == 14 && (0 <= i < 14 ==> s[i] == spark(frame, palette)(i)[0])
        }),
        ({
            let s = scenery(Theme::DesertBloom, palette, seed, frame);
            s.len() == 11 && (0 <= i < 11 ==> s[i] == grain(frame, palette)(i)[0])
        }),
        ({
            let s = scenery(Theme::NightMarket, palette, seed, frame);
            s.len() == 14 && (0 <= i < 7 ==> s[2 * i] == light(frame, palette)(i)[0])
        }),
        ({
            let s = scenery(Theme::ElKayKay, palette, seed, frame);
            &&& s.len() == 14 + 18
            &&& 0 <= i < 14 ==> s[i] == mote(frame, palette)(i)[0]
            &&& 0 <= i < 18 ==> s[14 + i] == puppy(frame)[i]
        }),
        ({
            let s = scenery(Theme::AlNoor, palette, seed, frame);
            &&& s.len() == 6 + 28
            &&& 0 <= i < 28 ==> s[6 + i] == star(frame, palette)(i)[0]
            &&& s[0]->Disc_color == palette.progress_fill
            &&& s[2]->Disc_color == palette.progress_fill
            &&& s[4]->Disc_color == palette.progress_fill
        }),
        scenery(Theme::MonochromeStatic, palette, seed, frame).len() == 180,
        scenery(Theme::DurandalTerminal, palette, seed, frame).len() == 0,
{
    lemma_each_of_one(10, bubble(frame, palette));
    lemma_each_of_one(12, leaf(frame, palette));
    lemma_each_of_two(6, lantern(frame, palette));
    lemma_each_of_one(14, spark(frame, palette));
    lemma_each_of_one(11, grain(frame, palette));
    lemma_each_of_two(7, light(frame, palette));
    lemma_each_of_one(14, mote(frame, palette));
    lemma_each_of_one(28, star(frame, palette));
    snow_is_grey(180, seed);
}

} // verus!
