//! The data behind a time-series plot: the samples, their sliding average,
//! and the span of the vertical axis.

use crate::window::{latest, window_after, Mean, WindowAggregator};
use vstd::prelude::*;

verus! {

/// A plot of `N` series, with the names and colours of its parts.
pub struct AveragePlotProps<T, const N: usize> {
    pub y_data: [Vec<T>; N],
    pub x_name: String,
    pub y_name: String,
    pub main_series_name: String,
    pub main_series_color: (u8, u8, u8),
    pub avg_series_name: String,
    pub avg_series_color: (u8, u8, u8),
}

/// The span of a vertical axis: from `lowest - margin` to
/// `highest + margin`, where the margin is
/// `margin_numerator / margin_denominator`.
#[derive(Clone, Copy, Debug, PartialEq, Eq)]
pub struct YRange {
    pub lowest: i64,
    pub highest: i64,
    pub margin_numerator: u128,
    pub margin_denominator: usize,
}

/// `r` is the span of the axis for `series`.
pub open spec fn spans(series: Seq<i64>, r: YRange) -> bool {
    if series.len() == 0 {
        r == (YRange { lowest: 0, highest: 0, margin_numerator: 0, margin_denominator: 1 })
    } else {
        &&& series.contains(r.lowest)
        &&& series.contains(r.highest)
        &&& forall|i: int| 0 <= i < series.len() ==> r.lowest <= #[trigger] series[i] <= r.highest
        &&& r.margin_numerator == 10 * (r.highest - r.lowest)
        &&& r.margin_denominator == series.len()
    }
}

impl AveragePlotProps<i64, 1> {
    /// The series plotted.
    pub open spec fn series(&self) -> Seq<i64> {
        self.y_data[0]@
    }

    /// The mean of each sample with the up to `W - 1` samples before it.
    pub fn sliding_average<const W: usize>(&self) -> (r: Vec<Mean>)
        ensures
            r@.len() == self.series().len(),
            forall|i: int|
                0 <= i < r@.len() ==> #[trigger] r@[i] == Mean::of(
                    latest(W as nat, self.series().subrange(0, i + 1)),
                ),
    {
        let data = &self.y_data[0];
        let n = data.len();
        let mut window = WindowAggregator::new(W);
        let mut r: Vec<Mean> = Vec::new();
        let mut i: usize = 0;
        while i < n
            invariant
                n == data@.len(),
                data@ == self.series(),
                i <= n,
                window.cap() == W,
                window@ == window_after(W as nat, data@.subrange(0, i as int)),
                r@.len() == i,
                forall|k: int|
                    0 <= k < i ==> #[trigger] r@[k] == Mean::of(
                        latest(W as nat, data@.subrange(0, k + 1)),
                    ),
            decreases n - i,
        {
            window.push(data[i]);
            proof {
                let prefix = data@.subrange(0, i as int + 1);
                assert(prefix.drop_last() =~= data@.subrange(0, i as int));
                crate::window::lemma_window_keeps_latest(W as nat, prefix);
            }
            r.push(window.mean());
            i = i + 1;
        }
        r
    }

    /// The span of the vertical axis: the lowest and highest samples, with a
    /// margin of ten times their difference over the number of samples on
    /// each side. No samples give the empty span at 0.
    pub fn y_range(&self) -> (r: YRange)
        ensures
            spans(self.series(), r),
    {
        let data = &self.y_data[0];
        let n = data.len();
        if n == 0 {
            return YRange { lowest: 0, highest: 0, margin_numerator: 0, margin_denominator: 1 };
        }
        let mut lowest = data[0];
        let mut highest = data[0];
        let ghost mut lo_at: int = 0;
        let ghost mut hi_at: int = 0;
        let mut i: usize = 1;
        while i < n
            invariant
                n == data@.len(),
                data@ == self.series(),
                1 <= i <= n,
                0 <= lo_at < i,
                0 <= hi_at < i,
                data@[lo_at] == lowest,
                data@[hi_at] == highest,
                forall|k: int| 0 <= k < i ==> lowest <= #[trigger] data@[k] <= highest,
            decreases n - i,
        {
            let x = data[i];
            if x < lowest {
                lowest = x;
                proof {
                    lo_at = i as int;
                }
            }
            if x > highest {
                highest = x;
                proof {
                    hi_at = i as int;
                }
            }
            i = i + 1;
        }
        let spread = (highest as i128 - lowest as i128) as u128;
        YRange { lowest, highest, margin_numerator: 10 * spread, margin_denominator: n }
    }
}

} // verus!
