//! Value domains of the two brightness backends: the raw range of a DDC/CI
//! monitor and the discrete levels of a firmware-driven panel.

use vstd::prelude::*;
use vstd::arithmetic::div_mod::{lemma_fundamental_div_mod, lemma_mod_bound};

verus! {

/// Policy byte of a firmware brightness record: the panel runs on mains power.
pub const DISPLAYPOLICY_AC: u8 = 1;

/// Policy byte of a firmware brightness record: the panel runs on battery.
pub const DISPLAYPOLICY_DC: u8 = 2;

/// Policy byte that addresses the mains and the battery level together.
pub const DISPLAYPOLICY_BOTH: u8 = 3;

/// The integer nearest to `num / den`; a value halfway between two integers
/// goes to the larger one.
pub open spec fn round_div(num: int, den: int) -> int
    recommends
        num >= 0,
        den > 0,
{
    (2 * num + den) / (2 * den)
}

/// Distance between a supported level and a requested percentage.
pub open spec fn level_distance(level: u8, percentage: u32) -> int {
    if level as int >= percentage as int {
        level as int - percentage as int
    } else {
        percentage as int - level as int
    }
}

/// `best` is the level that a request for `percentage` is rounded to: it is one
/// of `levels`, none of them is closer to `percentage`, and of the levels that
/// are equally close it is the numerically smallest.
pub open spec fn is_nearest_level(levels: Seq<u8>, percentage: u32, best: u8) -> bool {
    &&& levels.contains(best)
    &&& forall|i: int|
        0 <= i < levels.len() ==> level_distance(best, percentage) <= level_distance(
            #[trigger] levels[i],
            percentage,
        )
    &&& forall|i: int|
        0 <= i < levels.len() && level_distance(#[trigger] levels[i], percentage)
            == level_distance(best, percentage) ==> best <= levels[i]
}

/// The level that a request for `percentage` is rounded to: 0 where no level is
/// supported, else the one level that `is_nearest_level` holds of.
pub open spec fn nearest_level(levels: Seq<u8>, percentage: u32) -> u8 {
    if levels.len() == 0 {
        0
    } else {
        choose|best: u8| is_nearest_level(levels, percentage, best)
    }
}

/// At most one level is the nearest one.
pub proof fn lemma_nearest_level_unique(levels: Seq<u8>, percentage: u32, a: u8, b: u8)
    requires
        is_nearest_level(levels, percentage, a),
        is_nearest_level(levels, percentage, b),
    ensures
        a == b,
{
    let i = choose|i: int| 0 <= i < levels.len() && levels[i] == a;
    let j = choose|j: int| 0 <= j < levels.len() && levels[j] == b;
    assert(level_distance(a, percentage) <= level_distance(levels[j], percentage));
    assert(level_distance(b, percentage) <= level_distance(levels[i], percentage));
}

/// The discrete brightness levels (each 0 to 100) that a panel's firmware accepts,
/// in the order in which the firmware reported them.
#[derive(Debug, PartialEq, Eq)]
pub struct IoctlSupportedBrightnessLevels(pub Vec<u8>);

impl View for IoctlSupportedBrightnessLevels {
    type V = Seq<u8>;

    open spec fn view(&self) -> Seq<u8> {
        self.0@
    }
}

/// One DDC/CI brightness reading, in the monitor's own raw units.
#[derive(Debug, Clone, Copy, PartialEq, Eq)]
pub struct DdcciBrightnessValues {
    pub min: u32,
    pub max: u32,
    pub current: u32,
}

/// The brightness record that the firmware interface exchanges
/// (one level for mains power, one for battery, and the policy byte).
#[derive(Debug, Clone, Copy, PartialEq, Eq)]
pub struct DisplayBrightness {
    pub policy: u8,
    pub ac: u8,
    pub dc: u8,
}

impl IoctlSupportedBrightnessLevels {
    /// Rounds `percentage` to the nearest supported level. Of two levels at the
    /// same distance the numerically smaller one is chosen, whatever their order
    /// in the list. With no level at all the answer is 0.
    pub fn get_nearest(&self, percentage: u32) -> (best: u8)
        ensures
            best == nearest_level(self@, percentage),
            self@.len() > 0 ==> is_nearest_level(self@, percentage, best),
    {
        if self.0.len() == 0 {
            return 0;
        }
        let mut best: u8 = self.0[0];
        let mut i: usize = 1;
        assert(self@.take(1)[0] == best);
        while i < self.0.len()
            invariant
                1 <= i <= self.0.len(),
                is_nearest_level(self@.take(i as int), percentage, best),
            decreases self.0.len() - i,
        {
            let level: u8 = self.0[i];
            let ghost before = self@.take(i as int);
            let ghost after = self@.take(i + 1);
            let ghost old_best = best;
            assert(before =~= after.take(i as int));
            assert(after[i as int] == level);
            let d_level: u32 = if level as u32 >= percentage {
                level as u32 - percentage
            } else {
                percentage - level as u32
            };
            let d_best: u32 = if best as u32 >= percentage {
                best as u32 - percentage
            } else {
                percentage - best as u32
            };
            if d_level < d_best || (d_level == d_best && level < best) {
                best = level;
            }
            proof {
                let j = choose|j: int| 0 <= j < before.len() && before[j] == old_best;
                assert(after[j] == old_best);
                assert forall|k: int| 0 <= k < after.len() implies level_distance(
                    best,
                    percentage,
                ) <= level_distance(#[trigger] after[k], percentage) by {
                    if k < i {
                        assert(before[k] == after[k]);
                    }
                }
                assert forall|k: int|
                    0 <= k < after.len() && level_distance(#[trigger] after[k], percentage)
                        == level_distance(best, percentage) implies best <= after[k] by {
                    if k < i {
                        assert(before[k] == after[k]);
                    }
                }
            }
            i = i + 1;
        }
        assert(self@.take(i as int) =~= self@);
        proof {
            lemma_nearest_level_unique(self@, percentage, best, nearest_level(self@, percentage));
        }
        best
    }
}

impl Default for DdcciBrightnessValues {
    /// The reading with every value at zero, which no percentage can be taken of.
    fn default() -> (values: Self)
        ensures
            values.min == 0,
            values.max == 0,
            values.current == 0,
    {
        DdcciBrightnessValues { min: 0, max: 0, current: 0 }
    }
}

impl DdcciBrightnessValues {
    /// A reading can be turned into a percentage: the range is not empty and
    /// the current value lies in it.
    pub open spec fn well_formed(&self) -> bool {
        self.min < self.max && self.min <= self.current <= self.max
    }

    /// The reading as a percentage of its range, rounded to the nearest integer.
    pub open spec fn percentage(&self) -> int
        recommends
            self.well_formed(),
    {
        round_div(100 * (self.current - self.min), self.max - self.min)
    }

    /// The raw value that stands at `percentage` of the range.
    pub open spec fn raw_at(&self, percentage: int) -> int
        recommends
            self.min < self.max,
    {
        self.min + round_div(percentage * (self.max - self.min), 100)
    }

    /// The current value as a percentage (0 to 100) of the range. A reading
    /// with an empty or inverted range, or with a current value outside the
    /// range, is unsupported and gives `None`.
    pub fn get_current_percentage(&self) -> (percentage: Option<u32>)
        ensures
            percentage.is_some() <==> self.well_formed(),
            percentage matches Some(p) ==> p == self.percentage() && p <= 100,
    {
        if self.min >= self.max || self.current < self.min || self.current > self.max {
            return None;
        }
        let span: u64 = (self.max - self.min) as u64;
        let offset: u64 = (self.current - self.min) as u64;
        let rounded: u64 = (200 * offset + span) / (2 * span);
        proof {
            lemma_div_bounds(2 * (100 * offset) + span, 2 * span);
            assert(rounded <= 100) by (nonlinear_arith)
                requires
                    (2 * span) * rounded <= 200 * offset + span,
                    offset <= span,
                    span > 0,
            ;
        }
        Some(rounded as u32)
    }

    /// The raw value for a target percentage, by linear interpolation over
    /// the range and rounded to the nearest unit. `None` where the range is
    /// empty or inverted, or where `percentage` is above 100.
    pub fn percentage_to_current(&self, percentage: u32) -> (raw: Option<u32>)
        ensures
            raw.is_some() <==> self.min < self.max && percentage <= 100,
            raw matches Some(r) ==> r == self.raw_at(percentage as int) && self.min <= r
                <= self.max,
    {
        if self.min >= self.max || percentage > 100 {
            return None;
        }
        let span: u64 = (self.max - self.min) as u64;
        proof {
            lemma_div_bounds(2 * (percentage * span) + 100, 200);
            assert(percentage * span <= 100 * span) by (nonlinear_arith)
                requires
                    percentage <= 100,
                    span >= 0,
            ;
            assert(0 <= percentage * span) by (nonlinear_arith)
                requires
                    percentage >= 0,
                    span >= 0,
            ;
        }
        let rounded: u64 = (2 * (percentage as u64 * span) + 100) / 200;
        Some(self.min + rounded as u32)
    }
}

/// The brightness that a firmware record reports: the mains level under the
/// mains policy, the battery level under the battery policy. Any other policy
/// byte is not understood and gives `None`.
pub fn ioctl_query_display_brightness(reply: &DisplayBrightness) -> (level: Option<u32>)
    ensures
        level == if reply.policy == DISPLAYPOLICY_AC {
            Some(reply.ac as u32)
        } else if reply.policy == DISPLAYPOLICY_DC {
            Some(reply.dc as u32)
        } else {
            None
        },
{
    if reply.policy == DISPLAYPOLICY_AC {
        Some(reply.ac as u32)
    } else if reply.policy == DISPLAYPOLICY_DC {
        Some(reply.dc as u32)
    } else {
        None
    }
}

/// The record that sets a panel to `value`: the mains and the battery level
/// both carry it, and the policy byte addresses both.
pub fn ioctl_set_display_brightness(value: u8) -> (request: DisplayBrightness)
    ensures
        request.policy == DISPLAYPOLICY_BOTH,
        request.ac == value,
        request.dc == value,
{
    DisplayBrightness { policy: DISPLAYPOLICY_BOTH, ac: value, dc: value }
}

/// Integer division brackets its dividend.
pub proof fn lemma_div_bounds(n: int, d: int)
    requires
        d > 0,
    ensures
        d * (n / d) <= n < d * (n / d) + d,
{
    lemma_fundamental_div_mod(n, d);
    lemma_mod_bound(n, d);
}

/// Reading a percentage off a well-formed range and turning it back into a raw
/// value lands near the value read: two hundred times the error is at most the
/// width of the range plus one hundred.
pub proof fn lemma_round_trip_error(v: DdcciBrightnessValues)
    requires
        v.well_formed(),
    ensures
        0 <= v.percentage() <= 100,
        200 * (v.raw_at(v.percentage()) - v.current) <= (v.max - v.min) + 100,
        200 * (v.current - v.raw_at(v.percentage())) <= (v.max - v.min) + 100,
{
    let a: int = v.current - v.min;
    let b: int = v.max - v.min;
    let p: int = v.percentage();
    lemma_div_bounds(2 * (100 * a) + b, 2 * b);
    assert(2 * b * p <= 200 * a + b < 2 * b * p + 2 * b);
    assert(0 <= p <= 100) by (nonlinear_arith)
        requires
            2 * b * p <= 200 * a + b < 2 * b * p + 2 * b,
            0 <= a <= b,
            b > 0,
    ;
    let q: int = round_div(p * b, 100);
    lemma_div_bounds(2 * (p * b) + 100, 200);
    assert(200 * q <= 2 * (p * b) + 100 < 200 * q + 200);
    assert(2 * b * p == 2 * (p * b)) by (nonlinear_arith);
    assert(v.raw_at(p) - v.current == q - a);
}

/// How far the percentage of a reading, taken back to raw units, lies from
/// the value read, in hundredths of a raw unit and before rounding.
pub open spec fn round_trip_margin(v: DdcciBrightnessValues) -> int {
    v.percentage() * (v.max - v.min) - 100 * (v.current - v.min)
}

/// Reading a percentage and turning it back gives the value read, or one of
/// its two neighbours, exactly where the margin of the round trip is at least
/// -150 and below 150.
pub proof fn lemma_round_trip_within_one(v: DdcciBrightnessValues)
    requires
        v.well_formed(),
    ensures
        (v.current - 1 <= v.raw_at(v.percentage()) <= v.current + 1) <==> (-150
            <= round_trip_margin(v) < 150),
{
    let p: int = v.percentage();
    let b: int = v.max - v.min;
    lemma_div_bounds(2 * (p * b) + 100, 200);
}

/// On a range of at most 300 raw units, reading a percentage and turning it
/// back always gives the value read, or one of its two neighbours.
pub proof fn lemma_round_trip_narrow_range(v: DdcciBrightnessValues)
    requires
        v.well_formed(),
        v.max - v.min <= 300,
    ensures
        v.current - 1 <= v.raw_at(v.percentage()) <= v.current + 1,
{
    let a: int = v.current - v.min;
    let b: int = v.max - v.min;
    let p: int = v.percentage();
    lemma_div_bounds(2 * (100 * a) + b, 2 * b);
    assert((2 * b) * p == 2 * (p * b)) by (nonlinear_arith);
    if b == 300 {
        assert(p * b == 300 * p) by (nonlinear_arith)
            requires
                b == 300,
        ;
    }
    lemma_round_trip_within_one(v);
}

/// Where the percentage of a reading is exact, turning it back gives the value
/// read.
pub proof fn lemma_round_trip_exact(v: DdcciBrightnessValues)
    requires
        v.well_formed(),
        (100 * (v.current - v.min)) % (v.max - v.min) == 0,
    ensures
        v.raw_at(v.percentage()) == v.current,
{
    let a: int = v.current - v.min;
    let b: int = v.max - v.min;
    let p: int = v.percentage();
    let e: int = (100 * a) / b;
    lemma_fundamental_div_mod(100 * a, b);
    assert(100 * a == b * e);
    assert(p == e) by (nonlinear_arith)
        requires
            p == (2 * (b * e) + b) / (2 * b),
            b > 0,
    ;
    assert(p * b == 100 * a) by (nonlinear_arith)
        requires
            100 * a == b * e,
            p == e,
    ;
    lemma_div_bounds(2 * (100 * a) + 100, 200);
}

} // verus!
