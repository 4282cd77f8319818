//! The chart model: a collection of bounded series, axis configuration,
//! and the effective axis-range computation.

use vstd::prelude::*;
use crate::series::{evicted_front, Sample, Series};

verus! {

/// Caller-misuse errors: always surfaced immediately, never silently
/// coerced, never retried.
#[derive(Clone, Copy, PartialEq, Eq, Structural, Debug)]
pub enum ChartError {
    /// A pushed row's length differs from the number of series.
    LengthMismatch,
    /// A series index is outside the chart's series.
    IndexOutOfRange,
}

/// User overrides for the axis ranges. Unset fields are computed from
/// the data at every render, never stored back. Limits always speak of
/// unscaled data.
#[derive(Clone, Copy, PartialEq, Eq, Structural, Debug)]
pub struct AxisLimits {
    pub x_min: Option<i64>,
    pub x_max: Option<i64>,
    pub y_min: Option<i64>,
    pub y_max: Option<i64>,
}

impl AxisLimits {
    /// Limits with every field unset: both axes fully automatic.
    pub fn empty() -> (limits: AxisLimits)
        ensures
            limits.x_min is None,
            limits.x_max is None,
            limits.y_min is None,
            limits.y_max is None,
    {
        AxisLimits { x_min: Option::None, x_max: Option::None, y_min: Option::None, y_max: Option::None }
    }
}

/// The samples a series holds once a data cap is enforced on it:
/// unchanged when no cap is set, else evicted from the front to the cap.
pub open spec fn capped(samples: Seq<Sample>, limit: Option<usize>) -> Seq<Sample> {
    match limit {
        Option::None => samples,
        Option::Some(l) => evicted_front(samples, l as int),
    }
}

/// `(i, j)` addresses sample `j` of series `i`.
pub open spec fn sample_in(data: Seq<Series>, i: int, j: int) -> bool {
    0 <= i < data.len() && 0 <= j < data[i].data@.len()
}

/// The x or y coordinate of sample `j` of series `i`.
pub open spec fn coord_at(data: Seq<Series>, i: int, j: int, is_x: bool) -> i64 {
    if is_x {
        data[i].data@[j].x
    } else {
        data[i].data@[j].y
    }
}

/// Some series holds at least one sample.
pub open spec fn has_samples(data: Seq<Series>) -> bool {
    exists|i: int, j: int| #[trigger] sample_in(data, i, j)
}

/// `v` is at or below every stored coordinate of the given axis.
pub open spec fn lower_bounds(data: Seq<Series>, v: i64, is_x: bool) -> bool {
    forall|i: int, j: int|
        sample_in(data, i, j) ==> v <= #[trigger] coord_at(data, i, j, is_x)
}

/// `v` is at or above every stored coordinate of the given axis.
pub open spec fn upper_bounds(data: Seq<Series>, v: i64, is_x: bool) -> bool {
    forall|i: int, j: int|
        sample_in(data, i, j) ==> v >= #[trigger] coord_at(data, i, j, is_x)
}

/// Some stored sample has `v` as its coordinate on the given axis.
pub open spec fn attained(data: Seq<Series>, v: i64, is_x: bool) -> bool {
    exists|i: int, j: int|
        sample_in(data, i, j) && v == #[trigger] coord_at(data, i, j, is_x)
}

/// Enforcing a set cap after a mutation leaves the series within the
/// cap, so every series of a chart with a data limit stays bounded.
pub proof fn lemma_capped_within_limit(samples: Seq<Sample>, limit: usize)
    ensures
        capped(samples, Option::Some(limit)).len() <= limit,
{
}

/// Whether a sample's y value may be drawn under the given y-axis mode:
/// on a logarithmic axis a y value at or below zero has no image, so it
/// is silently left out of the rendered line or points (it is no error);
/// on a linear axis every value is drawn.
pub fn log_plottable(y_log: bool, y: i64) -> (plottable: bool)
    ensures
        plottable == (!y_log || y > 0),
{
    !y_log || y > 0
}

/// The chart model: the ordered series (index order is legend and draw
/// order), the shared data cap, axis configuration and labels. Scale
/// factors and the logarithmic flag only steer the host's rendering;
/// they never mutate stored samples or configured limits.
pub struct Chart {
    pub data: Vec<Series>,
    pub data_limit: Option<usize>,
    pub title: String,
    pub x_label: String,
    pub y_label: String,
    pub y_log: bool,
    pub limits: AxisLimits,
}

impl Chart {
    /// Everything but the series data is unchanged.
    pub open spec fn same_config(self, other: Chart) -> bool {
        &&& self.data_limit == other.data_limit
        &&& self.title == other.title
        &&& self.x_label == other.x_label
        &&& self.y_label == other.y_label
        &&& self.y_log == other.y_log
        &&& self.limits == other.limits
    }

    /// The configured bounds of one axis.
    pub open spec fn cfg_min(self, is_x: bool) -> Option<i64> {
        if is_x {
            self.limits.x_min
        } else {
            self.limits.y_min
        }
    }

    /// The configured upper bound of one axis.
    pub open spec fn cfg_max(self, is_x: bool) -> Option<i64> {
        if is_x {
            self.limits.x_max
        } else {
            self.limits.y_max
        }
    }

    /// A chart over the given series with default configuration: no data
    /// cap, automatic limits on both axes, linear y axis.
    pub fn new(series: Vec<Series>) -> (chart: Chart)
        ensures
            chart.data@ == series@,
            chart.data_limit is None,
            chart.title@ == "Plot"@,
            chart.x_label@ == "X"@,
            chart.y_label@ == "Y"@,
            !chart.y_log,
            chart.limits.x_min is None,
            chart.limits.x_max is None,
            chart.limits.y_min is None,
            chart.limits.y_max is None,
    {
        Chart {
            data: series,
            data_limit: Option::None,
            title: String::from_str("Plot"),
            x_label: String::from_str("X"),
            y_label: String::from_str("Y"),
            y_log: false,
            limits: AxisLimits::empty(),
        }
    }

    /// Returns the number of series in the chart.
    pub fn num_series(&self) -> (n: usize)
        ensures
            n == self.data@.len(),
    {
        self.data.len()
    }

    /// Pushes a data row as one time-series entry: for each series in
    /// index order, appends `(t, y[i])` and then enforces the data cap,
    /// if one is set. A row whose length differs from the series count
    /// is rejected whole: every series is left unchanged.
    pub fn push_time_series(&mut self, t: i64, y: &[i64]) -> (result: Result<(), ChartError>)
        ensures
            match result {
                Result::Ok(()) => {
                    &&& y@.len() == old(self).data@.len()
                    &&& final(self).data@.len() == old(self).data@.len()
                    &&& forall|i: int|
                        0 <= i < final(self).data@.len() ==> (#[trigger] final(self).data@[i]).data@
                            == capped(
                            old(self).data@[i].data@.push(Sample { x: t, y: y@[i] }),
                            old(self).data_limit,
                        )
                    &&& forall|i: int|
                        0 <= i < final(self).data@.len() ==> (#[trigger] final(self).data@[i]).same_style(
                            old(self).data@[i],
                        )
                    &&& final(self).same_config(*old(self))
                },
                Result::Err(e) => {
                    &&& e == ChartError::LengthMismatch
                    &&& y@.len() != old(self).data@.len()
                    &&& *final(self) == *old(self)
                },
            },
    {
        if y.len() != self.data.len() {
            return Result::Err(ChartError::LengthMismatch);
        }
        let count = self.data.len();
        let mut i: usize = 0;
        while i < count
            invariant
                i <= count,
                count == old(self).data@.len(),
                self.data@.len() == count,
                y@.len() == count,
                self.same_config(*old(self)),
                self.data_limit == old(self).data_limit,
                forall|k: int|
                    0 <= k < i ==> (#[trigger] self.data@[k]).data@ == capped(
                        old(self).data@[k].data@.push(Sample { x: t, y: y@[k] }),
                        old(self).data_limit,
                    ),
                forall|k: int|
                    0 <= k < i ==> (#[trigger] self.data@[k]).same_style(old(self).data@[k]),
                forall|k: int| i <= k < count ==> self.data@[k] == old(self).data@[k],
            decreases count - i,
        {
            let sample = Sample { x: t, y: y[i] };
            let lim = self.data_limit;
            let ser = &mut self.data[i];
            ser.push(sample);
            match lim {
                Option::Some(l) => ser.drop_front(l),
                Option::None => {},
            }
            i = i + 1;
        }
        Result::Ok(())
    }

    /// Pushes one sample to the series at `index` and enforces the data
    /// cap on it, if one is set. An out-of-range index is rejected and
    /// leaves the chart unchanged.
    pub fn push_xy(&mut self, index: usize, xy: Sample) -> (result: Result<(), ChartError>)
        ensures
            match result {
                Result::Ok(()) => {
                    &&& index < old(self).data@.len()
                    &&& final(self).data@.len() == old(self).data@.len()
                    &&& final(self).data@[index as int].data@ == capped(
                        old(self).data@[index as int].data@.push(xy),
                        old(self).data_limit,
                    )
                    &&& final(self).data@[index as int].same_style(old(self).data@[index as int])
                    &&& forall|k: int|
                        0 <= k < old(self).data@.len() && k != index ==> final(self).data@[k] == old(
                            self,
                        ).data@[k]
                    &&& final(self).same_config(*old(self))
                },
                Result::Err(e) => {
                    &&& e == ChartError::IndexOutOfRange
                    &&& index >= old(self).data@.len()
                    &&& *final(self) == *old(self)
                },
            },
    {
        if index >= self.data.len() {
            return Result::Err(ChartError::IndexOutOfRange);
        }
        let lim = self.data_limit;
        let ser = &mut self.data[index];
        ser.push(xy);
        match lim {
            Option::Some(l) => ser.drop_front(l),
            Option::None => {},
        }
        Result::Ok(())
    }

    /// Replaces the whole contents of the series at `index` with the
    /// given samples, in their order; the data cap is not applied. An
    /// out-of-range index is rejected and leaves the chart unchanged.
    pub fn replace_series(&mut self, index: usize, samples: &[Sample]) -> (result: Result<
        (),
        ChartError,
    >)
        ensures
            match result {
                Result::Ok(()) => {
                    &&& index < old(self).data@.len()
                    &&& final(self).data@.len() == old(self).data@.len()
                    &&& final(self).data@[index as int].data@ == samples@
                    &&& final(self).data@[index as int].same_style(old(self).data@[index as int])
                    &&& forall|k: int|
                        0 <= k < old(self).data@.len() && k != index ==> final(self).data@[k] == old(
                            self,
                        ).data@[k]
                    &&& final(self).same_config(*old(self))
                },
                Result::Err(e) => {
                    &&& e == ChartError::IndexOutOfRange
                    &&& index >= old(self).data@.len()
                    &&& *final(self) == *old(self)
                },
            },
    {
        if index >= self.data.len() {
            return Result::Err(ChartError::IndexOutOfRange);
        }
        let ser = &mut self.data[index];
        ser.replace_all(samples);
        Result::Ok(())
    }

    /// Scans every sample of every series once and returns the least and
    /// greatest stored coordinate of one axis, or `None` when the chart
    /// holds no samples at all.
    fn scan_extremes(&self, is_x: bool) -> (extremes: (Option<i64>, Option<i64>))
        ensures
            extremes.0 is Some <==> has_samples(self.data@),
            extremes.1 is Some <==> has_samples(self.data@),
            extremes.0 matches Option::Some(lo) ==> lower_bounds(self.data@, lo, is_x)
                && attained(self.data@, lo, is_x),
            extremes.1 matches Option::Some(hi) ==> upper_bounds(self.data@, hi, is_x)
                && attained(self.data@, hi, is_x),
    {
        let ghost data = self.data@;
        let mut lo: Option<i64> = Option::None;
        let mut hi: Option<i64> = Option::None;
        let count = self.data.len();
        let mut i: usize = 0;
        while i < count
            invariant
                i <= count,
                count == data.len(),
                self.data@ == data,
                lo is Some <==> hi is Some,
                lo is None ==> forall|si: int, sj: int|
                    #[trigger] sample_in(data, si, sj) ==> si >= i,
                lo matches Option::Some(v) ==> attained(data, v, is_x) && forall|si: int, sj: int|
                    sample_in(data, si, sj) && si < i ==> v <= #[trigger] coord_at(
                        data,
                        si,
                        sj,
                        is_x,
                    ),
                hi matches Option::Some(v) ==> attained(data, v, is_x) && forall|si: int, sj: int|
                    sample_in(data, si, sj) && si < i ==> v >= #[trigger] coord_at(
                        data,
                        si,
                        sj,
                        is_x,
                    ),
            decreases count - i,
        {
            let series_len = self.data[i].len();
            let mut j: usize = 0;
            while j < series_len
                invariant
                    i < count,
                    j <= series_len,
                    count == data.len(),
                    self.data@ == data,
                    series_len == data[i as int].data@.len(),
                    lo is Some <==> hi is Some,
                    lo is None ==> j == 0 && forall|si: int, sj: int|
                        #[trigger] sample_in(data, si, sj) ==> si >= i,
                    lo matches Option::Some(v) ==> attained(data, v, is_x) && forall|
                        si: int,
                        sj: int,
                    |
                        sample_in(data, si, sj) && (si < i || (si == i && sj < j)) ==> v
                            <= #[trigger] coord_at(data, si, sj, is_x),
                    hi matches Option::Some(v) ==> attained(data, v, is_x) && forall|
                        si: int,
                        sj: int,
                    |
                        sample_in(data, si, sj) && (si < i || (si == i && sj < j)) ==> v
                            >= #[trigger] coord_at(data, si, sj, is_x),
                decreases series_len - j,
            {
                let sample = self.data[i].sample_at(j);
                let c = if is_x {
                    sample.x
                } else {
                    sample.y
                };
                proof {
                    assert(sample_in(data, i as int, j as int));
                    assert(coord_at(data, i as int, j as int, is_x) == c);
                }
                lo = match lo {
                    Option::None => Option::Some(c),
                    Option::Some(v) => if c < v {
                        Option::Some(c)
                    } else {
                        Option::Some(v)
                    },
                };
                hi = match hi {
                    Option::None => Option::Some(c),
                    Option::Some(v) => if c > v {
                        Option::Some(c)
                    } else {
                        Option::Some(v)
                    },
                };
                j = j + 1;
            }
            i = i + 1;
        }
        proof {
            match lo {
                Option::Some(v) => {
                    let (wi, wj) = choose|wi: int, wj: int|
                        sample_in(data, wi, wj) && v == #[trigger] coord_at(data, wi, wj, is_x);
                    assert(sample_in(data, wi, wj));
                    assert(has_samples(data));
                },
                Option::None => {},
            }
        }
        (lo, hi)
    }

    /// What the effective range of one axis must be: each configured
    /// endpoint verbatim; each unconfigured endpoint the scanned extreme
    /// of the stored data; and, when no sample exists, 0 for an unset
    /// lower and 1 for an unset upper endpoint, so an empty chart
    /// degenerates to the unit range rather than to sentinels.
    pub open spec fn range_ok(self, range: (i64, i64), is_x: bool) -> bool {
        &&& (self.cfg_min(is_x) matches Option::Some(m) ==> range.0 == m)
        &&& (self.cfg_max(is_x) matches Option::Some(m) ==> range.1 == m)
        &&& (self.cfg_min(is_x) is None && has_samples(self.data@) ==> lower_bounds(
            self.data@,
            range.0,
            is_x,
        ) && attained(self.data@, range.0, is_x))
        &&& (self.cfg_max(is_x) is None && has_samples(self.data@) ==> upper_bounds(
            self.data@,
            range.1,
            is_x,
        ) && attained(self.data@, range.1, is_x))
        &&& (self.cfg_min(is_x) is None && !has_samples(self.data@) ==> range.0 == 0)
        &&& (self.cfg_max(is_x) is None && !has_samples(self.data@) ==> range.1 == 1)
    }

    /// The effective range of one axis (`true` for x, `false` for y).
    ///
    /// Configured limits are used verbatim when both are set; otherwise
    /// the data is scanned once and each unset endpoint becomes the
    /// scanned extreme of that axis.
    pub fn calc_axis_range(&self, is_x: bool) -> (range: (i64, i64))
        ensures
            self.range_ok(range, is_x),
    {
        let (cfg_lo, cfg_hi) = if is_x {
            (self.limits.x_min, self.limits.x_max)
        } else {
            (self.limits.y_min, self.limits.y_max)
        };
        match (cfg_lo, cfg_hi) {
            (Option::Some(lo), Option::Some(hi)) => (lo, hi),
            _ => {
                let (scan_lo, scan_hi) = self.scan_extremes(is_x);
                let lo = match cfg_lo {
                    Option::Some(v) => v,
                    Option::None => match scan_lo {
                        Option::Some(v) => v,
                        Option::None => 0,
                    },
                };
                let hi = match cfg_hi {
                    Option::Some(v) => v,
                    Option::None => match scan_hi {
                        Option::Some(v) => v,
                        Option::None => 1,
                    },
                };
                (lo, hi)
            },
        }
    }

    /// The effective ranges of both axes, x first.
    pub fn calc_axis_ranges(&self) -> (ranges: ((i64, i64), (i64, i64)))
        ensures
            self.range_ok(ranges.0, true),
            self.range_ok(ranges.1, false),
    {
        (self.calc_axis_range(true), self.calc_axis_range(false))
    }
}

} // verus!
