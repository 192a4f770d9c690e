//! Colours and themes.
use crate::ui::settings::Theme;
use vstd::prelude::*;

verus! {

/// A colour of 5, 6 and 5 bits in one number. Bits of a channel that are too many are
/// dropped.
pub open spec fn rgb(r: u8, g: u8, b: u8) -> u16 {
    (((r & 31) as u16) << 11) | (((g & 63) as u16) << 5) | ((b & 31) as u16)
}

/// `Rgb565::new` and `IntoStorage::into_storage`. Claimed: red stands in the five high
/// bits, green in the six behind them and blue in the five low ones, each channel cut to
/// its bits.
#[verifier::external_body]
pub(crate) fn rgb565(r: u8, g: u8, b: u8) -> (raw: u16)
    ensures
        raw == rgb(r, g, b),
{
    embedded_graphics::prelude::IntoStorage::into_storage(
        embedded_graphics::pixelcolor::Rgb565::new(r, g, b),
    )
}

/// `Rgb565::BLACK`. Claimed: all channels are zero.
#[verifier::external_body]
pub(crate) fn black() -> (raw: u16)
    ensures
        raw == rgb(0, 0, 0),
{
    embedded_graphics::prelude::IntoStorage::into_storage(
        <embedded_graphics::pixelcolor::Rgb565 as embedded_graphics::prelude::RgbColor>::BLACK,
    )
}

/// `Rgb565::WHITE`. Claimed: all channels are full.
#[verifier::external_body]
pub(crate) fn white() -> (raw: u16)
    ensures
        raw == rgb(31, 63, 31),
{
    embedded_graphics::prelude::IntoStorage::into_storage(
        <embedded_graphics::pixelcolor::Rgb565 as embedded_graphics::prelude::RgbColor>::WHITE,
    )
}

/// `Rgb565::CSS_DARK_GRAY`. Claimed: two thirds of each channel, as 169 of 255 rounds to.
#[verifier::external_body]
pub(crate) fn dark_gray() -> (raw: u16)
    ensures
        raw == rgb(21, 42, 21),
{
    embedded_graphics::prelude::IntoStorage::into_storage(
        <embedded_graphics::pixelcolor::Rgb565 as embedded_graphics::prelude::WebColors>::CSS_DARK_GRAY,
    )
}

/// Colours used by the interface.
#[derive(Clone, Copy, Debug, PartialEq, Eq, Structural)]
pub struct Palette {
    pub background: u16,
    pub header: u16,
    pub header_text: u16,
    pub text: u16,
    pub selected_row: u16,
    pub selected_text: u16,
    pub now_playing: u16,
    pub progress_track: u16,
    pub progress_fill: u16,
    pub separator: u16,
    pub toolbar: u16,
    pub border: u16,
}

/// The colours of a theme.
pub open spec fn palette_of(theme: Theme) -> Palette {
    match theme {
        // Navy, taupe, dark-grey, purple, and pink palette.
        Theme::ElKayKay => Palette {
            background: rgb(1, 4, 10),
            header: rgb(20, 36, 17),
            header_text: rgb(1, 4, 10),
            text: rgb(30, 54, 27),
            selected_row: rgb(18, 8, 16),
            selected_text: rgb(31, 50, 27),
            now_playing: rgb(7, 7, 12),
            progress_track: rgb(10, 17, 12),
            progress_fill: rgb(31, 30, 23),
            separator: rgb(13, 7, 12),
            toolbar: rgb(18, 18, 17),
            border: rgb(25, 18, 18),
        },
        // Petrol blue, seafoam, coral, sand, and deep-ink palette.
        Theme::Tidepool => Palette {
            background: rgb(1, 8, 11),
            header: rgb(30, 30, 18),
            header_text: rgb(1, 8, 11),
            text: rgb(29, 55, 24),
            selected_row: rgb(2, 35, 26),
            selected_text: rgb(31, 60, 26),
            now_playing: rgb(1, 16, 19),
            progress_track: rgb(3, 24, 22),
            progress_fill: rgb(12, 55, 24),
            separator: rgb(18, 16, 13),
            toolbar: rgb(2, 25, 24),
            border: rgb(24, 26, 16),
        },
        // Olive, chartreuse, tangerine, cream, and espresso palette.
        Theme::CitrusGrove => Palette {
            background: rgb(4, 4, 1),
            header: rgb(31, 30, 2),
            header_text: rgb(4, 4, 1),
            text: rgb(31, 58, 23),
            selected_row: rgb(15, 28, 2),
            selected_text: rgb(31, 61, 22),
            now_playing: rgb(3, 12, 2),
            progress_track: rgb(10, 20, 2),
            progress_fill: rgb(22, 60, 3),
            separator: rgb(12, 13, 1),
            toolbar: rgb(10, 22, 2),
            border: rgb(25, 25, 2),
        },
        // High-contrast monochrome palette with an animated snow texture.
        Theme::MonochromeStatic => Palette {
            background: rgb(2, 4, 2),
            header: rgb(26, 52, 26),
            header_text: rgb(0, 0, 0),
            text: rgb(29, 58, 29),
            selected_row: rgb(18, 36, 18),
            selected_text: rgb(31, 63, 31),
            now_playing: rgb(5, 10, 5),
            progress_track: rgb(11, 22, 11),
            progress_fill: rgb(31, 63, 31),
            separator: rgb(9, 18, 9),
            toolbar: rgb(13, 26, 13),
            border: rgb(22, 44, 22),
        },
        // Indigo, persimmon, jade, parchment, and charcoal palette.
        Theme::PaperLantern => Palette {
            background: rgb(3, 4, 11),
            header: rgb(29, 54, 23),
            header_text: rgb(3, 4, 11),
            text: rgb(30, 57, 25),
            selected_row: rgb(4, 31, 17),
            selected_text: rgb(30, 57, 25),
            now_playing: rgb(5, 8, 10),
            progress_track: rgb(12, 17, 13),
            progress_fill: rgb(31, 24, 6),
            separator: rgb(10, 8, 12),
            toolbar: rgb(3, 20, 14),
            border: rgb(25, 25, 9),
        },
        // Terminal and industrial palette inspired by the classic Marathon era.
        Theme::DurandalTerminal => Palette {
            background: rgb(1, 3, 5),
            header: rgb(13, 20, 8),
            header_text: rgb(8, 63, 8),
            text: rgb(28, 58, 27),
            selected_row: rgb(12, 7, 17),
            selected_text: rgb(8, 63, 8),
            now_playing: rgb(3, 7, 10),
            progress_track: rgb(21, 42, 21),
            progress_fill: rgb(8, 63, 8),
            separator: rgb(7, 13, 5),
            toolbar: rgb(22, 5, 4),
            border: rgb(14, 28, 14),
        },
        // Cobalt, acid-green, hot-coral, lavender, and near-black palette.
        Theme::ArcadeBloom => Palette {
            background: rgb(2, 1, 6),
            header: rgb(3, 13, 31),
            header_text: rgb(28, 63, 5),
            text: rgb(25, 48, 31),
            selected_row: rgb(20, 60, 3),
            selected_text: rgb(2, 1, 6),
            now_playing: rgb(8, 3, 13),
            progress_track: rgb(12, 10, 18),
            progress_fill: rgb(31, 18, 12),
            separator: rgb(13, 4, 20),
            toolbar: rgb(4, 10, 24),
            border: rgb(20, 60, 3),
        },
        // Terracotta, turquoise, saffron, plum, and bone palette.
        Theme::DesertBloom => Palette {
            background: rgb(8, 3, 9),
            header: rgb(31, 44, 5),
            header_text: rgb(8, 3, 9),
            text: rgb(31, 57, 24),
            selected_row: rgb(2, 40, 25),
            selected_text: rgb(31, 60, 26),
            now_playing: rgb(14, 7, 7),
            progress_track: rgb(19, 13, 9),
            progress_fill: rgb(31, 44, 5),
            separator: rgb(18, 8, 8),
            toolbar: rgb(22, 12, 8),
            border: rgb(2, 40, 25),
        },
        // Pastel cherry, yellow, lilac, and mint palette.
        Theme::AlNoor => Palette {
            background: rgb(5, 2, 8),
            header: rgb(25, 45, 27),
            header_text: rgb(5, 2, 8),
            text: rgb(21, 58, 25),
            selected_row: rgb(26, 12, 11),
            selected_text: rgb(31, 57, 12),
            now_playing: rgb(9, 4, 12),
            progress_track: rgb(21, 42, 21),
            progress_fill: rgb(31, 54, 10),
            separator: rgb(14, 15, 20),
            toolbar: rgb(18, 6, 10),
            border: rgb(19, 40, 24),
        },
        // Lacquer-red, jade, gold, midnight-blue, and charcoal palette.
        Theme::NightMarket => Palette {
            background: rgb(1, 3, 8),
            header: rgb(26, 5, 4),
            header_text: rgb(31, 48, 5),
            text: rgb(30, 56, 23),
            selected_row: rgb(3, 31, 16),
            selected_text: rgb(31, 58, 24),
            now_playing: rgb(4, 7, 8),
            progress_track: rgb(11, 13, 10),
            progress_fill: rgb(31, 48, 5),
            separator: rgb(14, 5, 6),
            toolbar: rgb(18, 4, 5),
            border: rgb(24, 35, 5),
        },
    }
}

impl Palette {
    /// Navy, taupe, dark-grey, purple, and pink palette.
    pub fn el_kay_kay() -> (r: Palette)
        ensures
            r == palette_of(Theme::ElKayKay),
    {
        Palette {
            background: rgb565(1, 4, 10),
            header: rgb565(20, 36, 17),
            header_text: rgb565(1, 4, 10),
            text: rgb565(30, 54, 27),
            selected_row: rgb565(18, 8, 16),
            selected_text: rgb565(31, 50, 27),
            now_playing: rgb565(7, 7, 12),
            progress_track: rgb565(10, 17, 12),
            progress_fill: rgb565(31, 30, 23),
            separator: rgb565(13, 7, 12),
            toolbar: rgb565(18, 18, 17),
            border: rgb565(25, 18, 18),
        }
    }

    /// Petrol blue, seafoam, coral, sand, and deep-ink palette.
    pub fn tidepool() -> (r: Palette)
        ensures
            r == palette_of(Theme::Tidepool),
    {
        Palette {
            background: rgb565(1, 8, 11),
            header: rgb565(30, 30, 18),
            header_text: rgb565(1, 8, 11),
            text: rgb565(29, 55, 24),
            selected_row: rgb565(2, 35, 26),
            selected_text: rgb565(31, 60, 26),
            now_playing: rgb565(1, 16, 19),
            progress_track: rgb565(3, 24, 22),
            progress_fill: rgb565(12, 55, 24),
            separator: rgb565(18, 16, 13),
            toolbar: rgb565(2, 25, 24),
            border: rgb565(24, 26, 16),
        }
    }

    /// Olive, chartreuse, tangerine, cream, and espresso palette.
    pub fn citrus_grove() -> (r: Palette)
        ensures
            r == palette_of(Theme::CitrusGrove),
    {
        Palette {
            background: rgb565(4, 4, 1),
            header: rgb565(31, 30, 2),
            header_text: rgb565(4, 4, 1),
            text: rgb565(31, 58, 23),
            selected_row: rgb565(15, 28, 2),
            selected_text: rgb565(31, 61, 22),
            now_playing: rgb565(3, 12, 2),
            progress_track: rgb565(10, 20, 2),
            progress_fill: rgb565(22, 60, 3),
            separator: rgb565(12, 13, 1),
            toolbar: rgb565(10, 22, 2),
            border: rgb565(25, 25, 2),
        }
    }

    /// High-contrast monochrome palette with an animated snow texture.
    pub fn monochrome_static() -> (r: Palette)
        ensures
            r == palette_of(Theme::MonochromeStatic),
    {
        Palette {
            background: rgb565(2, 4, 2),
            header: rgb565(26, 52, 26),
            header_text: black(),
            text: rgb565(29, 58, 29),
            selected_row: rgb565(18, 36, 18),
            selected_text: white(),
            now_playing: rgb565(5, 10, 5),
            progress_track: rgb565(11, 22, 11),
            progress_fill: white(),
            separator: rgb565(9, 18, 9),
            toolbar: rgb565(13, 26, 13),
            border: rgb565(22, 44, 22),
        }
    }

    /// Indigo, persimmon, jade, parchment, and charcoal palette.
    pub fn paper_lantern() -> (r: Palette)
        ensures
            r == palette_of(Theme::PaperLantern),
    {
        Palette {
            background: rgb565(3, 4, 11),
            header: rgb565(29, 54, 23),
            header_text: rgb565(3, 4, 11),
            text: rgb565(30, 57, 25),
            selected_row: rgb565(4, 31, 17),
            selected_text: rgb565(30, 57, 25),
            now_playing: rgb565(5, 8, 10),
            progress_track: rgb565(12, 17, 13),
            progress_fill: rgb565(31, 24, 6),
            separator: rgb565(10, 8, 12),
            toolbar: rgb565(3, 20, 14),
            border: rgb565(25, 25, 9),
        }
    }

    /// Terminal and industrial palette inspired by the classic Marathon era.
    pub fn durandal_terminal() -> (r: Palette)
        ensures
            r == palette_of(Theme::DurandalTerminal),
    {
        Palette {
            background: rgb565(1, 3, 5),
            header: rgb565(13, 20, 8),
            header_text: rgb565(8, 63, 8),
            text: rgb565(28, 58, 27),
            selected_row: rgb565(12, 7, 17),
            selected_text: rgb565(8, 63, 8),
            now_playing: rgb565(3, 7, 10),
            progress_track: dark_gray(),
            progress_fill: rgb565(8, 63, 8),
            separator: rgb565(7, 13, 5),
            toolbar: rgb565(22, 5, 4),
            border: rgb565(14, 28, 14),
        }
    }

    /// Cobalt, acid-green, hot-coral, lavender, and near-black palette.
    pub fn arcade_bloom() -> (r: Palette)
        ensures
            r == palette_of(Theme::ArcadeBloom),
    {
        Palette {
            background: rgb565(2, 1, 6),
            header: rgb565(3, 13, 31),
            header_text: rgb565(28, 63, 5),
            text: rgb565(25, 48, 31),
            selected_row: rgb565(20, 60, 3),
            selected_text: rgb565(2, 1, 6),
            now_playing: rgb565(8, 3, 13),
            progress_track: rgb565(12, 10, 18),
            progress_fill: rgb565(31, 18, 12),
            separator: rgb565(13, 4, 20),
            toolbar: rgb565(4, 10, 24),
            border: rgb565(20, 60, 3),
        }
    }

    /// Terracotta, turquoise, saffron, plum, and bone palette.
    pub fn desert_bloom() -> (r: Palette)
        ensures
            r == palette_of(Theme::DesertBloom),
    {
        Palette {
            background: rgb565(8, 3, 9),
            header: rgb565(31, 44, 5),
            header_text: rgb565(8, 3, 9),
            text: rgb565(31, 57, 24),
            selected_row: rgb565(2, 40, 25),
            selected_text: rgb565(31, 60, 26),
            now_playing: rgb565(14, 7, 7),
            progress_track: rgb565(19, 13, 9),
            progress_fill: rgb565(31, 44, 5),
            separator: rgb565(18, 8, 8),
            toolbar: rgb565(22, 12, 8),
            border: rgb565(2, 40, 25),
        }
    }

    /// Pastel cherry, yellow, lilac, and mint palette.
    pub fn al_noor() -> (r: Palette)
        ensures
            r == palette_of(Theme::AlNoor),
    {
        Palette {
            background: rgb565(5, 2, 8),
            header: rgb565(25, 45, 27),
            header_text: rgb565(5, 2, 8),
            text: rgb565(21, 58, 25),
            selected_row: rgb565(26, 12, 11),
            selected_text: rgb565(31, 57, 12),
            now_playing: rgb565(9, 4, 12),
            progress_track: dark_gray(),
            progress_fill: rgb565(31, 54, 10),
            separator: rgb565(14, 15, 20),
            toolbar: rgb565(18, 6, 10),
            border: rgb565(19, 40, 24),
        }
    }

    /// Lacquer-red, jade, gold, midnight-blue, and charcoal palette.
    pub fn night_market() -> (r: Palette)
        ensures
            r == palette_of(Theme::NightMarket),
    {
        Palette {
            background: rgb565(1, 3, 8),
            header: rgb565(26, 5, 4),
            header_text: rgb565(31, 48, 5),
            text: rgb565(30, 56, 23),
            selected_row: rgb565(3, 31, 16),
            selected_text: rgb565(31, 58, 24),
            now_playing: rgb565(4, 7, 8),
            progress_track: rgb565(11, 13, 10),
            progress_fill: rgb565(31, 48, 5),
            separator: rgb565(14, 5, 6),
            toolbar: rgb565(18, 4, 5),
            border: rgb565(24, 35, 5),
        }
    }
}

impl Theme {
    /// The colours of the theme.
    pub fn palette(self) -> (r: Palette)
        ensures
            r == palette_of(self),
    {
        match self {
            Theme::ElKayKay => Palette::el_kay_kay(),
            Theme::Tidepool => Palette::tidepool(),
            Theme::CitrusGrove => Palette::citrus_grove(),
            Theme::MonochromeStatic => Palette::monochrome_static(),
            Theme::PaperLantern => Palette::paper_lantern(),
            Theme::DurandalTerminal => Palette::durandal_terminal(),
            Theme::ArcadeBloom => Palette::arcade_bloom(),
            Theme::DesertBloom => Palette::desert_bloom(),
            Theme::AlNoor => Palette::al_noor(),
            Theme::NightMarket => Palette::night_market(),
        }
    }
}

/// Two colours are the same only if all their channels are.
pub proof fn colours_are_told_apart(r: u8, g: u8, b: u8, r2: u8, g2: u8, b2: u8)
    requires
        r < 32,
        g < 64,
        b < 32,
        r2 < 32,
        g2 < 64,
        b2 < 32,
        rgb(r, g, b) == rgb(r2, g2, b2),
    ensures
        r == r2,
        g == g2,
        b == b2,
{
    assert(r < 32 && g < 64 && b < 32 && r2 < 32 && g2 < 64 && b2 < 32 && ((((r & 31) as u16) << 11)
        | (((g & 63) as u16) << 5) | ((b & 31) as u16)) == ((((r2 & 31) as u16) << 11) | (((g2 & 63)
        as u16) << 5) | ((b2 & 31) as u16)) ==> r == r2 && g == g2 && b == b2) by (bit_vector);
}

/// In every theme what is written can be told from what it is written on, and the filled
/// part of a progress bar from the rest.
pub proof fn texts_are_legible(theme: Theme)
    ensures
        ({
            let p = palette_of(theme);
            &&& p.text != p.background
            &&& p.text != p.now_playing
            &&& p.text != p.toolbar
            &&& p.header_text != p.header
            &&& p.selected_text != p.selected_row
            &&& p.progress_fill != p.progress_track
        }),
{
    assert forall|r: u8, g: u8, b: u8, r2: u8, g2: u8, b2: u8|
        r < 32 && g < 64 && b < 32 && r2 < 32 && g2 < 64 && b2 < 32 && (r != r2 || g != g2 || b
            != b2) implies #[trigger] rgb(r, g, b) != #[trigger] rgb(r2, g2, b2) by {
        if rgb(r, g, b) == rgb(r2, g2, b2) {
            colours_are_told_apart(r, g, b, r2, g2, b2);
        }
    }
}

} // verus!
