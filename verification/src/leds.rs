//! Threshold mapping for the five-element LED bar graph.
//!
//! The graph is a coarse gauge of the latest humidity reading: each element
//! has a fixed threshold and lights whenever the reading is strictly above
//! it, so the lit elements always form a prefix of the bar. The mapping is
//! a pure function of one reading and holds no history; driving the pins is
//! the caller's business.

use vstd::prelude::*;

verus! {

/// Threshold of the second element, in micro-percent.
pub const YELLOW_THRESHOLD_MICROS: u64 = 20_000_000;

/// Threshold of the third element, in micro-percent.
pub const GREEN_THRESHOLD_MICROS: u64 = 40_000_000;

/// Threshold of the fourth element, in micro-percent.
pub const YELLOW2_THRESHOLD_MICROS: u64 = 60_000_000;

/// Threshold of the fifth element, in micro-percent.
pub const RED2_THRESHOLD_MICROS: u64 = 80_000_000;

/// The on/off state of the five bar elements, named after the LEDs they
/// drive, in threshold order.
#[derive(Clone, Copy, PartialEq, Eq, Structural, Debug)]
pub struct BarLevels {
    pub red: bool,
    pub yellow: bool,
    pub green: bool,
    pub yellow2: bool,
    pub red2: bool,
}

/// The bar state a humidity value maps to: each element lights exactly when
/// the value is strictly above its threshold.
pub open spec fn spec_levels(hum_micros: u64) -> BarLevels {
    BarLevels {
        red: hum_micros > 0,
        yellow: hum_micros > YELLOW_THRESHOLD_MICROS,
        green: hum_micros > GREEN_THRESHOLD_MICROS,
        yellow2: hum_micros > YELLOW2_THRESHOLD_MICROS,
        red2: hum_micros > RED2_THRESHOLD_MICROS,
    }
}

/// How many elements of a bar state are lit.
pub open spec fn spec_count(l: BarLevels) -> int {
    (if l.red {
        1int
    } else {
        0int
    }) + (if l.yellow {
        1int
    } else {
        0int
    }) + (if l.green {
        1int
    } else {
        0int
    }) + (if l.yellow2 {
        1int
    } else {
        0int
    }) + (if l.red2 {
        1int
    } else {
        0int
    })
}

/// How many elements a humidity value lights.
pub open spec fn spec_lit_count(hum_micros: u64) -> int {
    spec_count(spec_levels(hum_micros))
}

/// Map a humidity value to the bar state it lights.
pub fn levels_for(hum_micros: u64) -> (l: BarLevels)
    ensures
        l == spec_levels(hum_micros),
{
    BarLevels {
        red: hum_micros > 0,
        yellow: hum_micros > YELLOW_THRESHOLD_MICROS,
        green: hum_micros > GREEN_THRESHOLD_MICROS,
        yellow2: hum_micros > YELLOW2_THRESHOLD_MICROS,
        red2: hum_micros > RED2_THRESHOLD_MICROS,
    }
}

/// The cleared bar: every element off, as after a reset.
pub fn clear_levels() -> (l: BarLevels)
    ensures
        !l.red && !l.yellow && !l.green && !l.yellow2 && !l.red2,
        spec_count(l) == 0,
{
    BarLevels { red: false, yellow: false, green: false, yellow2: false, red2: false }
}

/// Count the lit elements of a bar state.
pub fn lit_count(l: &BarLevels) -> (n: u8)
    ensures
        n == spec_count(*l),
{
    let mut n: u8 = 0;
    if l.red {
        n = n + 1;
    }
    if l.yellow {
        n = n + 1;
    }
    if l.green {
        n = n + 1;
    }
    if l.yellow2 {
        n = n + 1;
    }
    if l.red2 {
        n = n + 1;
    }
    n
}

/// The lit elements always form a prefix of the bar: every lit element
/// implies the one below it, because the thresholds increase along the bar.
pub proof fn lemma_levels_cumulative(hum_micros: u64)
    ensures
        spec_levels(hum_micros).red2 ==> spec_levels(hum_micros).yellow2,
        spec_levels(hum_micros).yellow2 ==> spec_levels(hum_micros).green,
        spec_levels(hum_micros).green ==> spec_levels(hum_micros).yellow,
        spec_levels(hum_micros).yellow ==> spec_levels(hum_micros).red,
{
}

/// Threshold monotonicity: a higher humidity value never lights fewer
/// elements.
pub proof fn lemma_lit_count_monotone(h1: u64, h2: u64)
    requires
        h1 <= h2,
    ensures
        spec_lit_count(h1) <= spec_lit_count(h2),
{
}

/// No humidity lights nothing: at zero, every element is dark.
pub proof fn lemma_zero_all_dark()
    ensures
        spec_levels(0) == (BarLevels {
            red: false,
            yellow: false,
            green: false,
            yellow2: false,
            red2: false,
        }),
        spec_lit_count(0) == 0,
{
}

} // verus!
