//! The integer side of the level meter: the peak of a chunk of samples,
//! and how a level in decibels is drawn as a row of bars.

use vstd::prelude::*;

verus! {

/// The number of bars in the meter.
pub const BARS: u8 = 6;

/// The absolute value of a sample, with the one value that has none left as it is.
pub open spec fn magnitude(x: i16) -> i16 {
    if x == i16::MIN {
        i16::MIN
    } else if x < 0 {
        (-x) as i16
    } else {
        x
    }
}

/// `peak` is the largest magnitude among the samples, or zero where there are none.
pub open spec fn is_peak(samples: Seq<i16>, peak: i16) -> bool {
    if samples.len() == 0 {
        peak == 0
    } else {
        &&& exists|i: int| 0 <= i < samples.len() && magnitude(#[trigger] samples[i]) == peak
        &&& forall|i: int| 0 <= i < samples.len() ==> magnitude(#[trigger] samples[i]) <= peak
    }
}

/// The peak of a chunk of samples.
pub open spec fn spec_peak(samples: Seq<i16>) -> i16 {
    choose|peak: i16| is_peak(samples, peak)
}

/// How many bars are lit at a level of `level_db` decibels: none below
/// -60, and one more for every 10 decibels from there up to -10.
pub open spec fn spec_lit_bars(level_db: int) -> int {
    if level_db < -60 {
        0
    } else if level_db < -50 {
        1
    } else if level_db < -40 {
        2
    } else if level_db < -30 {
        3
    } else if level_db < -20 {
        4
    } else if level_db < -10 {
        5
    } else {
        6
    }
}

/// The shade of a bar.
#[derive(Debug, Clone, Copy, PartialEq, Eq, Structural)]
pub enum BarShade {
    /// The bar is not lit.
    Off,
    Green,
    Yellow,
    Red,
}

/// The shade of bar number `index` when `lit` bars are lit: the first
/// four are green, the fifth is yellow, what follows is red.
pub open spec fn spec_bar_shade(index: int, lit: int) -> BarShade {
    if index >= lit {
        BarShade::Off
    } else if index < 4 {
        BarShade::Green
    } else if index < 5 {
        BarShade::Yellow
    } else {
        BarShade::Red
    }
}

/// The level in decibels that is written under bar number `index`.
pub open spec fn spec_bar_label(index: int) -> int {
    10 * (index - BARS)
}

/// The absolute value of a sample, with the one value that has none left as it is.
pub fn sample_magnitude(x: i16) -> (r: i16)
    ensures
        r == magnitude(x),
{
    if x == i16::MIN {
        x
    } else if x < 0 {
        -x
    } else {
        x
    }
}

/// The largest magnitude among the samples of a chunk; zero for an empty chunk.
pub fn peak_level(samples: &Vec<i16>) -> (peak: i16)
    ensures
        is_peak(samples@, peak),
        peak == spec_peak(samples@),
{
    if samples.len() == 0 {
        return 0;
    }
    let n = samples.len();
    let mut peak = sample_magnitude(samples[0]);
    let mut i: usize = 1;
    while i < n
        invariant
            n == samples@.len(),
            1 <= i <= n,
            exists|k: int| 0 <= k < i && magnitude(#[trigger] samples@[k]) == peak,
            forall|k: int| 0 <= k < i ==> magnitude(#[trigger] samples@[k]) <= peak,
        decreases n - i,
    {
        let m = sample_magnitude(samples[i]);
        if m > peak {
            peak = m;
        }
        i += 1;
    }
    peak
}

/// How many bars are lit at a level of `level_db` decibels.
pub fn lit_bars(level_db: i32) -> (n: u8)
    ensures
        n == spec_lit_bars(level_db as int),
{
    if level_db < -60 {
        0
    } else if level_db < -50 {
        1
    } else if level_db < -40 {
        2
    } else if level_db < -30 {
        3
    } else if level_db < -20 {
        4
    } else if level_db < -10 {
        5
    } else {
        6
    }
}

/// The shade of bar number `index` when `lit` bars are lit.
pub fn bar_shade(index: u8, lit: u8) -> (shade: BarShade)
    ensures
        shade == spec_bar_shade(index as int, lit as int),
{
    if index >= lit {
        BarShade::Off
    } else if index < 4 {
        BarShade::Green
    } else if index < 5 {
        BarShade::Yellow
    } else {
        BarShade::Red
    }
}

/// The level in decibels that is written under bar number `index`.
pub fn bar_label(index: u8) -> (label: i32)
    ensures
        label == spec_bar_label(index as int),
{
    let i: i32 = index as i32;
    10 * (i - 6)
}

/// A louder level never lights fewer bars, and no level lights more bars than there are.
pub proof fn law_bars_grow_with_level(quiet: int, loud: int)
    requires
        quiet <= loud,
    ensures
        0 <= spec_lit_bars(quiet) <= spec_lit_bars(loud) <= BARS,
{
}

/// The lit bars are the first ones: a bar is lit exactly when its number
/// is below the count of lit bars.
pub proof fn law_lit_bars_come_first(index: int, lit: int)
    ensures
        spec_bar_shade(index, lit) != BarShade::Off <==> index < lit,
{
}

/// The label of a bar is the lowest level at which the bar after it is lit.
pub proof fn law_label_is_threshold(index: int, level_db: int)
    requires
        0 <= index < BARS,
    ensures
        spec_lit_bars(level_db) > index <==> level_db >= spec_bar_label(index),
{
}

/// A chunk has one peak only, so `spec_peak` names it.
pub proof fn law_peak_is_unique(samples: Seq<i16>, a: i16, b: i16)
    requires
        is_peak(samples, a),
        b == spec_peak(samples),
    ensures
        a == b,
        is_peak(samples, b),
{
}

/// The peak of a chunk of silence is zero.
pub proof fn law_silence_has_no_peak(samples: Seq<i16>)
    requires
        forall|i: int| 0 <= i < samples.len() ==> samples[i] == 0,
    ensures
        spec_peak(samples) == 0,
{
    if samples.len() > 0 {
        assert(magnitude(samples[0]) == 0);
    }
    law_peak_is_unique(samples, 0, spec_peak(samples));
}

} // verus!
