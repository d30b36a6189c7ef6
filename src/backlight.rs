use crate::ui::LEVEL_SCALE;
use vstd::prelude::*;

verus! {

/// Smallest change of a level, scaled by `LEVEL_SCALE`, worth passing on: one hundredth.
pub const LEVEL_EPSILON: u32 = 100;

/// Levels `a` and `b` differ by more than `LEVEL_EPSILON`.
pub open spec fn differs(a: int, b: int) -> bool {
    a - b > LEVEL_EPSILON || b - a > LEVEL_EPSILON
}

pub fn levels_differ(a: u32, b: u32) -> (r: bool)
    ensures
        r == differs(a as int, b as int),
{
    if a >= b {
        a - b > LEVEL_EPSILON
    } else {
        b - a > LEVEL_EPSILON
    }
}

/// The panel backlight, driven through an external brightness utility.
pub struct Backlight {}

impl Backlight {
    /// A new level is written out only when nothing has been written yet or it differs
    /// from the last level written by more than `LEVEL_EPSILON`.
    pub fn push_due(new_level: u32, last_written: Option<u32>) -> (r: bool)
        ensures
            r == match last_written {
                Some(l) => differs(new_level as int, l as int),
                None => true,
            },
    {
        match last_written {
            Some(l) => levels_differ(new_level, l),
            None => true,
        }
    }

    /// The level of a backlight at raw brightness `current` out of `max`; a backlight
    /// without range reads as dark. Saturates at `u32::MAX`.
    pub fn level_of(current: u64, max: u64) -> (r: u32)
        ensures
            max == 0 ==> r == 0,
            max > 0 ==> r == (if current * (LEVEL_SCALE as int) / (max as int) > u32::MAX {
                u32::MAX as int
            } else {
                current * (LEVEL_SCALE as int) / (max as int)
            }),
    {
        if max == 0 {
            return 0;
        }
        assert(current * 10000 <= 0xffff_ffff_ffff_ffff * 10000) by (nonlinear_arith)
            requires
                current <= 0xffff_ffff_ffff_ffff,
        ;
        let v: u128 = current as u128 * LEVEL_SCALE as u128 / max as u128;
        if v > u32::MAX as u128 {
            u32::MAX
        } else {
            v as u32
        }
    }

    /// A level as a whole percentage, rounded half up.
    pub fn percent_of(level: u32) -> (r: u32)
        ensures
            r == (level as int + 50) / 100,
    {
        ((level as u64 + 50) / 100) as u32
    }
}

} // verus!
