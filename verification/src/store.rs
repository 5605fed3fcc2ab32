//! The bounded rolling history of snapshots and its windowed read
//! accessors.
//!
//! The store keeps at most `capacity` snapshots; appending to a full store
//! evicts the oldest entry first (strict FIFO). Windowed reads return the
//! up-to-`width` most recent entries, oldest first, as truncated
//! milliwatts; the combined total sums exactly the cpu, gpu, ane, dram,
//! ave and isp series, deliberately excluding p-cpu, e-cpu, gpu-sram and
//! pcie.

use std::collections::VecDeque;

use vstd::prelude::*;

use crate::power::{field_uw, Power};
use crate::record::Category;

verus! {

/// Minimum of two mathematical integers.
pub open spec fn spec_min(a: int, b: int) -> int {
    if a <= b {
        a
    } else {
        b
    }
}

/// Maximum of two mathematical integers.
pub open spec fn spec_max(a: int, b: int) -> int {
    if a >= b {
        a
    } else {
        b
    }
}

/// What one append does to the stored sequence: evict the oldest entry
/// when the store is full, then insert at the newest end.
pub open spec fn push_model(s: Seq<Power>, p: Power, cap: int) -> Seq<Power> {
    if s.len() >= cap {
        s.subrange(1, s.len() as int).push(p)
    } else {
        s.push(p)
    }
}

/// The store contents after a whole sequence of appends into an initially
/// empty store of capacity `cap`.
pub open spec fn history_after(cap: int, appends: Seq<Power>) -> Seq<Power>
    decreases appends.len(),
{
    if appends.len() == 0 {
        Seq::empty()
    } else {
        push_model(history_after(cap, appends.drop_last()), appends.last(), cap)
    }
}

/// The up-to-`width` most recent entries of `s`, oldest first.
pub open spec fn window_model(s: Seq<Power>, width: int) -> Seq<Power> {
    if s.len() > width {
        s.skip(s.len() - width)
    } else {
        s
    }
}

/// Truncated milliwatts of a microwatt value as reported to the renderer:
/// negative power reads as zero.
pub open spec fn spec_mw(uw: i64) -> u64 {
    if uw <= 0 {
        0
    } else {
        (uw as int / 1000) as u64
    }
}

/// Which series a windowed read reports: one category, or the combined
/// total.
#[derive(Clone, Copy, PartialEq, Eq, Structural, Debug)]
pub enum Series {
    Component(Category),
    Total,
}

/// The milliwatt value one snapshot contributes to a series. The total
/// sums exactly the cpu, gpu, ane, dram, ave and isp categories.
pub open spec fn series_mw(p: Power, s: Series) -> u64 {
    match s {
        Series::Component(c) => spec_mw(field_uw(p, c)),
        Series::Total => (spec_mw(p.cpu) + spec_mw(p.gpu) + spec_mw(p.ane) + spec_mw(p.dram)
            + spec_mw(p.ave) + spec_mw(p.isp)) as u64,
    }
}

/// A windowed read: the series values of the up-to-`width` most recent
/// snapshots, oldest first.
pub open spec fn series_window(s: Seq<Power>, width: int, series: Series) -> Seq<u64> {
    window_model(s, width).map_values(|p: Power| series_mw(p, series))
}

/// Truncated milliwatts of a microwatt value.
fn mw_of(uw: i64) -> (r: u64)
    ensures
        r == spec_mw(uw),
{
    if uw <= 0 {
        0
    } else {
        (uw as u64) / 1000
    }
}

/// The value one snapshot contributes to a series.
pub fn series_value(p: &Power, series: Series) -> (r: u64)
    ensures
        r == series_mw(*p, series),
{
    match series {
        Series::Component(c) => {
            let f: i64 = match c {
                Category::Cpu => p.cpu,
                Category::ECpu => p.ecpu,
                Category::PCpu => p.pcpu,
                Category::Isp => p.isp,
                Category::Gpu => p.gpu,
                Category::GpuSram => p.gpu_sram,
                Category::Ane => p.ane,
                Category::Ave => p.ave,
                Category::Dram => p.dram,
                Category::Pcie => p.pcie,
            };
            mw_of(f)
        },
        Series::Total => {
            mw_of(p.cpu) + mw_of(p.gpu) + mw_of(p.ane) + mw_of(p.dram) + mw_of(p.ave) + mw_of(
                p.isp,
            )
        },
    }
}

/// Capacity-bounded, oldest-evicted time series of snapshots.
pub struct PowerStore {
    pub capacity: usize,
    pub data: VecDeque<Power>,
}

impl PowerStore {
    /// Well-formed store: positive capacity, never more entries than the
    /// capacity.
    pub open spec fn wf(&self) -> bool {
        1 <= self.capacity && self.data@.len() <= self.capacity
    }

    /// An empty store of the given capacity.
    pub fn new(cap: usize) -> (r: PowerStore)
        requires
            1 <= cap,
        ensures
            r.wf(),
            r.capacity == cap,
            r.data@.len() == 0,
    {
        PowerStore { capacity: cap, data: VecDeque::new() }
    }

    /// Append one snapshot; when the store is full the oldest entry is
    /// evicted first. Always succeeds.
    pub fn push_back(&mut self, power: Power)
        requires
            old(self).wf(),
        ensures
            final(self).wf(),
            final(self).capacity == old(self).capacity,
            final(self).data@ == push_model(old(self).data@, power, old(self).capacity as int),
    {
        if self.data.len() >= self.capacity {
            self.data.pop_front();
        }
        self.data.push_back(power);
    }

    /// The series values of the up-to-`width` most recent snapshots,
    /// oldest first: `min(L, width)` elements for a store of `L` entries.
    pub fn get_power_data(&self, width: usize, series: Series) -> (r: Vec<u64>)
        ensures
            r@ == series_window(self.data@, width as int, series),
            r@.len() == spec_min(self.data@.len() as int, width as int),
            forall|k: int|
                0 <= k < r@.len() ==> r@[k] == series_mw(
                    self.data@[self.data@.len() - r@.len() + k],
                    series,
                ),
    {
        let len = self.data.len();
        let start: usize = if len > width {
            len - width
        } else {
            0
        };
        let mut out: Vec<u64> = Vec::new();
        let mut i: usize = start;
        while i < len
            invariant
                start <= i <= len,
                len == self.data@.len(),
                start == if len > width {
                    len - width
                } else {
                    0
                },
                out@.len() == i - start,
                forall|k: int|
                    0 <= k < out@.len() ==> out@[k] == series_mw(self.data@[start + k], series),
            decreases len - i,
        {
            let v = series_value(&self.data[i], series);
            out.push(v);
            i += 1;
        }
        proof {
            assert(out@ =~= series_window(self.data@, width as int, series));
        }
        out
    }

    /// Windowed cpu series.
    pub fn cpu(&self, width: usize) -> (r: Vec<u64>)
        ensures
            r@ == series_window(self.data@, width as int, Series::Component(Category::Cpu)),
    {
        self.get_power_data(width, Series::Component(Category::Cpu))
    }

    /// Windowed e-cpu series.
    pub fn e_cpu(&self, width: usize) -> (r: Vec<u64>)
        ensures
            r@ == series_window(self.data@, width as int, Series::Component(Category::ECpu)),
    {
        self.get_power_data(width, Series::Component(Category::ECpu))
    }

    /// Windowed p-cpu series.
    pub fn p_cpu(&self, width: usize) -> (r: Vec<u64>)
        ensures
            r@ == series_window(self.data@, width as int, Series::Component(Category::PCpu)),
    {
        self.get_power_data(width, Series::Component(Category::PCpu))
    }

    /// Windowed gpu series.
    pub fn gpu(&self, width: usize) -> (r: Vec<u64>)
        ensures
            r@ == series_window(self.data@, width as int, Series::Component(Category::Gpu)),
    {
        self.get_power_data(width, Series::Component(Category::Gpu))
    }

    /// Windowed gpu-sram series.
    pub fn gpu_sram(&self, width: usize) -> (r: Vec<u64>)
        ensures
            r@ == series_window(self.data@, width as int, Series::Component(Category::GpuSram)),
    {
        self.get_power_data(width, Series::Component(Category::GpuSram))
    }

    /// Windowed ane series.
    pub fn ane(&self, width: usize) -> (r: Vec<u64>)
        ensures
            r@ == series_window(self.data@, width as int, Series::Component(Category::Ane)),
    {
        self.get_power_data(width, Series::Component(Category::Ane))
    }

    /// Windowed ave series.
    pub fn ave(&self, width: usize) -> (r: Vec<u64>)
        ensures
            r@ == series_window(self.data@, width as int, Series::Component(Category::Ave)),
    {
        self.get_power_data(width, Series::Component(Category::Ave))
    }

    /// Windowed dram series.
    pub fn dram(&self, width: usize) -> (r: Vec<u64>)
        ensures
            r@ == series_window(self.data@, width as int, Series::Component(Category::Dram)),
    {
        self.get_power_data(width, Series::Component(Category::Dram))
    }

    /// Windowed pcie series.
    pub fn pcie(&self, width: usize) -> (r: Vec<u64>)
        ensures
            r@ == series_window(self.data@, width as int, Series::Component(Category::Pcie)),
    {
        self.get_power_data(width, Series::Component(Category::Pcie))
    }

    /// Windowed isp series.
    pub fn isp(&self, width: usize) -> (r: Vec<u64>)
        ensures
            r@ == series_window(self.data@, width as int, Series::Component(Category::Isp)),
    {
        self.get_power_data(width, Series::Component(Category::Isp))
    }

    /// Windowed combined total: per sample, the sum of exactly the cpu,
    /// gpu, ane, dram, ave and isp categories.
    pub fn total(&self, width: usize) -> (r: Vec<u64>)
        ensures
            r@ == series_window(self.data@, width as int, Series::Total),
    {
        self.get_power_data(width, Series::Total)
    }
}

/// Bounded history: after any sequence of appends into an empty store the
/// contents are exactly the most recent `min(N, C)` of them, in append
/// order — that is, the suffix of the append sequence that fits.
pub proof fn lemma_bounded_history(cap: int, appends: Seq<Power>)
    requires
        1 <= cap,
    ensures
        history_after(cap, appends).len() == spec_min(appends.len() as int, cap),
        history_after(cap, appends) == appends.skip(spec_max(appends.len() - cap, 0)),
    decreases appends.len(),
{
    if appends.len() == 0 {
        assert(history_after(cap, appends) =~= appends.skip(spec_max(appends.len() - cap, 0)));
    } else {
        let pre = appends.drop_last();
        lemma_bounded_history(cap, pre);
        assert(history_after(cap, appends) =~= appends.skip(spec_max(appends.len() - cap, 0)));
    }
}

/// Total composition: each element of the total window is the sum of the
/// corresponding elements of exactly the cpu, gpu, ane, dram, ave and isp
/// windows.
pub proof fn lemma_total_composition(s: Seq<Power>, width: int, i: int)
    requires
        0 <= i < series_window(s, width, Series::Total).len(),
    ensures
        series_window(s, width, Series::Total)[i] == series_window(
            s,
            width,
            Series::Component(Category::Cpu),
        )[i] + series_window(s, width, Series::Component(Category::Gpu))[i] + series_window(
            s,
            width,
            Series::Component(Category::Ane),
        )[i] + series_window(s, width, Series::Component(Category::Dram))[i] + series_window(
            s,
            width,
            Series::Component(Category::Ave),
        )[i] + series_window(s, width, Series::Component(Category::Isp))[i],
{
}

} // verus!
