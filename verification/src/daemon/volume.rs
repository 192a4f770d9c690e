//! Volume levels of the software mixer.
use vstd::prelude::*;

verus! {

/// The level that stands for full volume.
pub const FULL: u16 = 65535;

/// How far one press of a volume button moves the level: six percent of the range.
pub const STEP: u16 = 3932;

/// The level at which the daemon starts: eighty percent of the range.
pub const START: u16 = 52428;

/// The share of full volume in whole percent.
pub open spec fn percent(level: int) -> int {
    level * 100 / (FULL as int)
}

/// The level that a share of full volume asks for.
pub open spec fn level_of(pct: int) -> int {
    FULL as int * pct / 100
}

/// Convert a volume level to a 0..=100 percentage for replies.
pub fn vol_percent(v: u16) -> (r: u32)
    ensures
        r == percent(v as int),
        r <= 100,
{
    (v as u32 * 100) / FULL as u32
}

/// The level for a percentage.
pub fn vol_level(pct: u32) -> (r: u16)
    requires
        pct <= 100,
    ensures
        r == level_of(pct as int),
{
    assert(65535 * pct / 100 <= 65535 && 65535 * pct <= u32::MAX) by (nonlinear_arith)
        requires
            pct <= 100,
    ;
    (65535 * pct / 100) as u16
}

/// The level one step louder, at most full volume.
pub fn louder(v: u16) -> (r: u16)
    ensures
        r == if v + STEP > FULL {
            FULL as int
        } else {
            v + STEP
        },
{
    v.saturating_add(STEP)
}

/// The level one step quieter, at least silence.
pub fn quieter(v: u16) -> (r: u16)
    ensures
        r == if v < STEP {
            0
        } else {
            v - STEP
        },
{
    v.saturating_sub(STEP)
}

/// A percentage that is set reads back as itself or as one less, since both
/// conversions round down; full and silent volume read back exactly.
pub proof fn set_volume_reads_back(pct: int)
    requires
        0 <= pct <= 100,
    ensures
        0 <= level_of(pct) <= FULL,
        pct - 1 <= percent(level_of(pct)) <= pct,
        percent(level_of(0)) == 0,
        percent(level_of(100)) == 100,
{
}

/// A louder level never reads as a smaller percentage.
pub proof fn percent_is_monotone(a: int, b: int)
    requires
        0 <= a <= b <= FULL,
    ensures
        percent(a) <= percent(b),
{
}

} // verus!
