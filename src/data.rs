use vstd::prelude::*;
use crate::marshal::{lossy_string, lossy_text};

verus! {

/// The number of rows a fetch over `[start, end)` with `step` yields.
pub open spec fn spec_row_count(start: int, end: int, step: int) -> int {
    (end - start) / step
}

/// Whether a fetch window describes a grid: a positive step and an end not
/// before the start.
pub open spec fn window_ok(start: int, end: int, step: int) -> bool {
    step > 0 && start <= end
}

/// The number of samples in a grid of `count` series over a window.
pub open spec fn spec_grid_len(start: int, end: int, step: int, count: int) -> int {
    count * spec_row_count(start, end, step)
}

/// The number of rows of a fetch window; `None` when the step is zero or the
/// end precedes the start.
pub fn row_count(start: i64, end: i64, step: u64) -> (r: Option<u64>)
    ensures
        r is Some <==> window_ok(start as int, end as int, step as int),
        r matches Some(n) ==> n == spec_row_count(start as int, end as int, step as int),
{
    if step == 0 || end < start {
        return None;
    }
    let span = (end as i128 - start as i128) as u64;
    Some(span / step)
}

/// The number of samples the engine hands back for `count` series over a
/// window; `None` when the window is malformed or the number does not fit in
/// `usize`.
pub fn grid_len(start: i64, end: i64, step: u64, count: u64) -> (r: Option<usize>)
    ensures
        r is Some <==> window_ok(start as int, end as int, step as int) && spec_grid_len(
            start as int,
            end as int,
            step as int,
            count as int,
        ) <= usize::MAX,
        r matches Some(n) ==> n == spec_grid_len(start as int, end as int, step as int, count as int),
{
    match row_count(start, end, step) {
        None => None,
        Some(rows) => {
            match count.checked_mul(rows) {
                Some(total) => {
                    if total > usize::MAX as u64 {
                        None
                    } else {
                        Some(total as usize)
                    }
                },
                None => None,
            }
        },
    }
}

/// The abstract content of a fetch result.
pub ghost struct SeriesModel {
    pub start: int,
    pub end: int,
    pub step: int,
    pub names: Seq<Seq<char>>,
    pub samples: Seq<u64>,
}

/// The outcome of a successful fetch, owned by the caller.
///
/// Samples are kept as the bit patterns of the engine's 64-bit floating-point
/// values, row after row, one column per series; a missing value keeps the
/// engine's own marker unchanged.
#[derive(Debug, Clone, PartialEq)]
pub struct TimeSeriesResult {
    start: i64,
    end: i64,
    step: u64,
    names: Vec<String>,
    samples: Vec<u64>,
}

impl View for TimeSeriesResult {
    type V = SeriesModel;

    closed spec fn view(&self) -> SeriesModel {
        SeriesModel {
            start: self.start as int,
            end: self.end as int,
            step: self.step as int,
            names: Seq::new(self.names@.len(), |i: int| self.names@[i]@),
            samples: self.samples@,
        }
    }
}

/// Whether a model is a well-shaped grid: a valid window, and one sample per
/// series and row.
pub open spec fn model_wf(m: SeriesModel) -> bool {
    &&& window_ok(m.start, m.end, m.step)
    &&& m.samples.len() == spec_grid_len(m.start, m.end, m.step, m.names.len() as int)
}

impl TimeSeriesResult {
    /// The shape of the grid matches the window and the series.
    pub closed spec fn wf(&self) -> bool {
        &&& model_wf(self@)
        &&& self.start as int == self@.start && self.end as int == self@.end
        &&& self.step as int == self@.step
        &&& self.names@.len() == self@.names.len()
        &&& self.samples@ == self@.samples
    }

    /// Adopts the engine's output of a fetch: the adjusted window, the series
    /// count, the raw series names (their bytes up to the terminating null)
    /// and the sample grid. Names are read as text with replacement
    /// characters for bytes that are not valid UTF-8.
    ///
    /// `None` when the output is inconsistent: a malformed window, a name
    /// count other than `count`, or a grid whose length is not `count` times
    /// the number of rows.
    pub fn from_engine(
        start: i64,
        end: i64,
        step: u64,
        count: u64,
        raw_names: &Vec<Vec<u8>>,
        samples: Vec<u64>,
    ) -> (r: Option<TimeSeriesResult>)
        ensures
            r is Some <==> {
                &&& window_ok(start as int, end as int, step as int)
                &&& raw_names@.len() == count
                &&& samples@.len() == spec_grid_len(start as int, end as int, step as int, count as int)
            },
            r matches Some(t) ==> {
                &&& t.wf()
                &&& t@.start == start && t@.end == end && t@.step == step
                &&& t@.names == Seq::new(raw_names@.len(), |i: int| lossy_text(raw_names@[i]@))
                &&& t@.samples == samples@
            },
    {
        let sample_count = samples.len();
        if raw_names.len() as u64 != count {
            return None;
        }
        match grid_len(start, end, step, count) {
            None => {
                return None;
            },
            Some(n) => {
                if n != sample_count {
                    return None;
                }
            },
        }
        let mut names: Vec<String> = Vec::new();
        let mut i: usize = 0;
        while i < raw_names.len()
            invariant
                i <= raw_names@.len(),
                names@.len() == i,
                forall|j: int| 0 <= j < i ==> (#[trigger] names@[j])@ == lossy_text(raw_names@[j]@),
            decreases raw_names@.len() - i,
        {
            names.push(lossy_string(raw_names[i].as_slice()));
            i = i + 1;
        }
        let r = TimeSeriesResult { start, end, step, names, samples };
        assert(r.samples@.len() == spec_grid_len(start as int, end as int, step as int, r.names@.len() as int));
        assert(r@.names =~= Seq::new(raw_names@.len(), |i: int| lossy_text(raw_names@[i]@)));
        Some(r)
    }
}


impl TimeSeriesResult {
    /// The start of the window the engine answered for.
    pub fn start(&self) -> (r: i64)
        requires
            self.wf(),
        ensures
            r == self@.start,
    {
        self.start
    }

    /// The end of the window the engine answered for.
    pub fn end(&self) -> (r: i64)
        requires
            self.wf(),
        ensures
            r == self@.end,
    {
        self.end
    }

    /// The resolution the engine answered with, in seconds.
    pub fn step(&self) -> (r: u64)
        requires
            self.wf(),
        ensures
            r == self@.step,
    {
        self.step
    }

    /// The number of series.
    pub fn ds_count(&self) -> (r: usize)
        requires
            self.wf(),
        ensures
            r == self@.names.len(),
    {
        self.names.len()
    }

    /// The name of series `i`.
    pub fn ds_name(&self, i: usize) -> (r: &String)
        requires
            self.wf(),
            i < self@.names.len(),
        ensures
            r@ == self@.names[i as int],
    {
        &self.names[i]
    }

    /// The number of rows of the grid.
    pub fn rows(&self) -> (r: u64)
        requires
            self.wf(),
        ensures
            r == spec_row_count(self@.start, self@.end, self@.step),
    {
        (((self.end as i128) - (self.start as i128)) as u64) / self.step
    }

    /// The whole grid, row after row.
    pub fn samples(&self) -> (r: &Vec<u64>)
        requires
            self.wf(),
        ensures
            r@ == self@.samples,
    {
        &self.samples
    }

    /// The sample of series `ds` in row `row`; `None` outside the grid.
    pub fn sample(&self, row: u64, ds: usize) -> (r: Option<u64>)
        requires
            self.wf(),
        ensures
            r is Some <==> row < spec_row_count(self@.start, self@.end, self@.step) && ds
                < self@.names.len(),
            r matches Some(v) ==> v == self@.samples[row * self@.names.len() + ds],
    {
        let rows = self.rows();
        let count = self.names.len();
        let n = self.samples.len();
        if row >= rows || ds >= count {
            return None;
        }
        proof {
            assert(row * count + ds < rows * count) by (nonlinear_arith)
                requires
                    row < rows,
                    ds < count,
            ;
            assert(rows * count == count * rows) by (nonlinear_arith);
            assert(row <= row * count) by (nonlinear_arith)
                requires
                    count >= 1,
            ;
            assert(n == count * rows);
            assert(row * count + ds < n);
        }
        Some(self.samples[(row as usize) * count + ds])
    }
}

} // verus!
