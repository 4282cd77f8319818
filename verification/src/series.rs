//! Named, colored, bounded-length data series.

use vstd::prelude::*;
use vstd::math::min;
use std::collections::VecDeque;

verus! {

/// One color as a red, green, blue byte triple.
#[derive(Clone, Copy, PartialEq, Eq, Structural, Debug)]
pub struct Rgb(pub u8, pub u8, pub u8);

/// How a series is rendered: isolated points or a connected line.
/// Different types can be mixed in the same chart.
#[derive(Clone, Copy, PartialEq, Eq, Structural, Debug)]
pub enum SeriesType {
    Point,
    Line,
}

/// One (x, y) sample. Coordinates are fixed-point integers in the unit
/// the host loop picked; a sample has no identity beyond its position in
/// its series.
#[derive(Clone, Copy, PartialEq, Eq, Structural, Debug)]
pub struct Sample {
    pub x: i64,
    pub y: i64,
}

/// The samples left after evicting from the front (the oldest end) until
/// at most `target_len` remain.
pub open spec fn evicted_front(samples: Seq<Sample>, target_len: int) -> Seq<Sample> {
    if samples.len() <= target_len {
        samples
    } else {
        samples.subrange(samples.len() - target_len, samples.len() as int)
    }
}

/// The samples left after evicting from the back (the newest end) until
/// at most `target_len` remain.
pub open spec fn evicted_back(samples: Seq<Sample>, target_len: int) -> Seq<Sample> {
    if samples.len() <= target_len {
        samples
    } else {
        samples.subrange(0, target_len)
    }
}

/// A data series: a named, colored, typed double-ended sequence of
/// samples in chronological (insertion) order.
pub struct Series {
    pub name: String,
    pub color: Rgb,
    pub series_type: SeriesType,
    pub data: VecDeque<Sample>,
}

impl Series {
    /// The series' style (everything but the samples) is unchanged.
    pub open spec fn same_style(self, other: Series) -> bool {
        &&& self.name == other.name
        &&& self.color == other.color
        &&& self.series_type == other.series_type
    }

    fn new(name: &str, color: Rgb, series_type: SeriesType) -> (series: Series)
        ensures
            series.name@ == name@,
            series.color == color,
            series.series_type == series_type,
            series.data@ =~= Seq::<Sample>::empty(),
    {
        Series {
            name: String::from_str(name),
            color,
            series_type,
            data: VecDeque::new(),
        }
    }

    /// Creates an empty point series.
    pub fn point(name: &str, color: Rgb) -> (series: Series)
        ensures
            series.name@ == name@,
            series.color == color,
            series.series_type == SeriesType::Point,
            series.data@ =~= Seq::<Sample>::empty(),
    {
        Series::new(name, color, SeriesType::Point)
    }

    /// Creates an empty line series.
    pub fn line(name: &str, color: Rgb) -> (series: Series)
        ensures
            series.name@ == name@,
            series.color == color,
            series.series_type == SeriesType::Line,
            series.data@ =~= Seq::<Sample>::empty(),
    {
        Series::new(name, color, SeriesType::Line)
    }

    /// Pushes a sample to the back (end) of the series.
    pub fn push(&mut self, sample: Sample)
        ensures
            final(self).data@ == old(self).data@.push(sample),
            final(self).same_style(*old(self)),
    {
        self.data.push_back(sample);
    }

    /// Drops samples from the front of the series until it holds at most
    /// `targ_len` samples; with `targ_len` at or above the current length
    /// this is a no-op. The newest samples survive, in order.
    pub fn drop_front(&mut self, targ_len: usize)
        ensures
            final(self).data@ == evicted_front(old(self).data@, targ_len as int),
            final(self).same_style(*old(self)),
    {
        let ghost orig: Seq<Sample> = self.data@;
        while self.data.len() > targ_len
            invariant
                self.data@.len() <= orig.len(),
                self.data@.len() >= targ_len || self.data@.len() == orig.len(),
                forall|i: int|
                    0 <= i < self.data@.len() ==> #[trigger] self.data@[i] == orig[
                        orig.len() - self.data@.len() + i
                    ],
                self.same_style(*old(self)),
                old(self).data@ == orig,
            decreases self.data@.len(),
        {
            let _ = self.data.pop_front();
        }
        proof {
            assert(self.data@ =~= evicted_front(orig, targ_len as int));
        }
    }

    /// Drops samples from the back (end) of the series until it holds at
    /// most `targ_len` samples; with `targ_len` at or above the current
    /// length this is a no-op. The oldest samples survive, in order.
    pub fn drop_back(&mut self, targ_len: usize)
        ensures
            final(self).data@ == evicted_back(old(self).data@, targ_len as int),
            final(self).same_style(*old(self)),
    {
        let ghost orig: Seq<Sample> = self.data@;
        while self.data.len() > targ_len
            invariant
                self.data@.len() <= orig.len(),
                self.data@.len() >= targ_len || self.data@.len() == orig.len(),
                forall|i: int| 0 <= i < self.data@.len() ==> #[trigger] self.data@[i] == orig[i],
                self.same_style(*old(self)),
                old(self).data@ == orig,
            decreases self.data@.len(),
        {
            let _ = self.data.pop_back();
        }
        proof {
            assert(self.data@ =~= evicted_back(orig, targ_len as int));
        }
    }

    /// Clears the data of the series. Name and style are not affected.
    pub fn clear(&mut self)
        ensures
            final(self).data@ =~= Seq::<Sample>::empty(),
            final(self).same_style(*old(self)),
    {
        self.data.clear();
    }

    /// Replaces the series' whole contents: clears it, then pushes the
    /// given samples in order. Name and style are not affected.
    pub fn replace_all(&mut self, samples: &[Sample])
        ensures
            final(self).data@ == samples@,
            final(self).same_style(*old(self)),
    {
        self.data.clear();
        let mut i: usize = 0;
        while i < samples.len()
            invariant
                i <= samples@.len(),
                self.data@ == samples@.take(i as int),
                self.same_style(*old(self)),
            decreases samples@.len() - i,
        {
            self.data.push_back(samples[i]);
            proof {
                assert(self.data@ =~= samples@.take(i as int + 1));
            }
            i = i + 1;
        }
        proof {
            assert(self.data@ =~= samples@);
        }
    }

    /// How many samples the series holds.
    pub fn len(&self) -> (n: usize)
        ensures
            n == self.data@.len(),
    {
        self.data.len()
    }

    /// The sample at position `i`, oldest first.
    pub fn sample_at(&self, i: usize) -> (sample: Sample)
        requires
            i < self.data@.len(),
        ensures
            sample == self.data@[i as int],
    {
        self.data[i]
    }
}

/// After any run of pushes has produced the samples `samples`, evicting
/// from the front to a cap `k` leaves exactly `min(samples.len(), k)`
/// samples, and they are the last pushed ones, in their original order.
pub proof fn lemma_cap_keeps_recent(samples: Seq<Sample>, k: int)
    requires
        0 <= k,
    ensures
        evicted_front(samples, k).len() == min(samples.len() as int, k),
        forall|i: int|
            0 <= i < min(samples.len() as int, k) ==> evicted_front(samples, k)[i] == samples[
                samples.len() - min(samples.len() as int, k) + i
            ],
{
}

/// Replacing a series' contents and then clearing it always yields an
/// empty buffer with the original name and style, whatever the series
/// held at the start and whatever the replacement was.
pub proof fn lemma_replace_then_clear_is_empty(
    start: Series,
    replacement: Seq<Sample>,
    replaced: Series,
    cleared: Series,
)
    requires
        replaced.data@ == replacement,
        replaced.same_style(start),
        cleared.data@ == Seq::<Sample>::empty(),
        cleared.same_style(replaced),
    ensures
        cleared.data@.len() == 0,
        cleared.same_style(start),
{
}

} // verus!
