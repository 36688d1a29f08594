//! Dimming through the gamma ramp of a display: every colour value is scaled
//! down by the same factor.

use vstd::prelude::*;
use crate::brightness::{lemma_div_bounds, round_div};

verus! {

/// Entries of a gamma ramp for each of the three colour channels.
pub const RAMP_CHANNEL_LEN: usize = 256;

/// The part of full brightness, in hundredths, that a dimming level leaves:
/// level 0 leaves all of it, level -100 and below nothing, and a level above
/// zero counts as zero.
pub open spec fn ramp_scale(level: i32) -> int {
    if level <= -100 {
        0
    } else if level >= 0 {
        100
    } else {
        level + 100
    }
}

/// The ramp entry for colour value `i` at a dimming level: `i` scaled down
/// and rounded to the nearest integer, then spread from 8 to 16 bits.
pub open spec fn ramp_value(level: i32, i: int) -> int {
    round_div(i * ramp_scale(level), 100) * 257
}

/// Whether `ramp` is the gamma ramp for a dimming level: red, green and blue
/// one after the other, each with the same 256 entries.
pub open spec fn is_ramp(ramp: Seq<u16>, level: i32) -> bool {
    &&& ramp.len() == 3 * RAMP_CHANNEL_LEN
    &&& forall|i: int|
        0 <= i < RAMP_CHANNEL_LEN ==> #[trigger] ramp[i] == ramp_value(level, i) && ramp[i
            + RAMP_CHANNEL_LEN] == ramp_value(level, i) && ramp[i + 2 * RAMP_CHANNEL_LEN]
            == ramp_value(level, i)
}

/// The gamma ramp that dims a display to `level`, between -100 (black) and 0
/// (unchanged).
pub fn dim_brightness(level: i32) -> (ramp: Vec<u16>)
    ensures
        is_ramp(ramp@, level),
{
    let scale: u32 = if level <= -100 {
        0
    } else if level >= 0 {
        100
    } else {
        (level + 100) as u32
    };
    let mut channel: Vec<u16> = Vec::new();
    let mut i: u32 = 0;
    while i < 256
        invariant
            i <= 256,
            scale <= 100,
            scale == ramp_scale(level),
            channel@.len() == i,
            forall|k: int| 0 <= k < i ==> #[trigger] channel@[k] == ramp_value(level, k),
        decreases 256 - i,
    {
        proof {
            assert(0 <= i * scale <= 255 * 100) by (nonlinear_arith)
                requires
                    0 <= i <= 255,
                    0 <= scale <= 100,
            ;
            lemma_div_bounds(2 * (i * scale) + 100, 200);
        }
        let rounded: u32 = (2 * (i * scale) + 100) / 200;
        channel.push((rounded * 257) as u16);
        i = i + 1;
    }
    let mut ramp: Vec<u16> = Vec::new();
    let mut k: usize = 0;
    while k < 768
        invariant
            k <= 768,
            channel@.len() == 256,
            ramp@.len() == k,
            forall|j: int| 0 <= j < k ==> #[trigger] ramp@[j] == channel@[j % 256],
        decreases 768 - k,
    {
        ramp.push(channel[k % 256]);
        k = k + 1;
    }
    assert forall|j: int| 0 <= j < 256 implies #[trigger] ramp@[j] == ramp_value(level, j)
        && ramp@[j + 256] == ramp_value(level, j) && ramp@[j + 512] == ramp_value(level, j) by {
        assert(ramp@[j] == channel@[j % 256]);
        assert(ramp@[j + 256] == channel@[(j + 256) % 256]);
        assert(ramp@[j + 512] == channel@[(j + 512) % 256]);
    }
    ramp
}

/// The gamma ramp that leaves a display as it is: every colour value stands
/// for itself.
pub fn reset_gamma() -> (ramp: Vec<u16>)
    ensures
        is_ramp(ramp@, 0),
        forall|i: int| 0 <= i < RAMP_CHANNEL_LEN ==> #[trigger] ramp@[i] == 257 * i,
{
    let ramp = dim_brightness(0);
    assert forall|i: int| 0 <= i < RAMP_CHANNEL_LEN implies #[trigger] ramp@[i] == 257 * i by {
        lemma_div_bounds(2 * (i * 100) + 100, 200);
    }
    ramp
}

} // verus!
