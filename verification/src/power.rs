//! The per-tick snapshot and the aggregator that folds one tick's
//! classified, converted records into it.
//!
//! A snapshot holds one power value per category, in microwatts. The
//! aggregator starts from the all-zero snapshot and folds the tick's
//! records in order: noise names are skipped, overwrite categories keep
//! the last matching value, accumulate categories sum with saturation at
//! the i64 range. Any non-noise record with an unrecognized unit aborts
//! the whole tick: no partial snapshot is produced.

use vstd::prelude::*;

use crate::convert::{clip_i64, known_unit, spec_power_uw};
use crate::record::{classify, is_unnecessary_field, spec_classify, spec_is_noise, Category,
    IOReportChannel};
use crate::FatalError;

verus! {

/// One tick's fully classified, converted power reading: one field per
/// category, each in microwatts.
#[derive(Clone, Copy, PartialEq, Eq, Structural, Debug)]
pub struct Power {
    pub cpu: i64,
    pub ecpu: i64,
    pub pcpu: i64,
    pub isp: i64,
    pub gpu: i64,
    pub gpu_sram: i64,
    pub ane: i64,
    pub ave: i64,
    pub dram: i64,
    pub pcie: i64,
}

/// The all-zero snapshot every tick starts from.
pub open spec fn zero_power() -> Power {
    Power {
        cpu: 0,
        ecpu: 0,
        pcpu: 0,
        isp: 0,
        gpu: 0,
        gpu_sram: 0,
        ane: 0,
        ave: 0,
        dram: 0,
        pcie: 0,
    }
}

impl Default for Power {
    /// All categories default to zero power.
    fn default() -> (r: Power)
        ensures
            r == zero_power(),
    {
        Power {
            cpu: 0,
            ecpu: 0,
            pcpu: 0,
            isp: 0,
            gpu: 0,
            gpu_sram: 0,
            ane: 0,
            ave: 0,
            dram: 0,
            pcie: 0,
        }
    }
}

/// The field of `p` that belongs to category `c`, in microwatts.
pub open spec fn field_uw(p: Power, c: Category) -> i64 {
    match c {
        Category::Cpu => p.cpu,
        Category::ECpu => p.ecpu,
        Category::PCpu => p.pcpu,
        Category::Isp => p.isp,
        Category::Gpu => p.gpu,
        Category::GpuSram => p.gpu_sram,
        Category::Ane => p.ane,
        Category::Ave => p.ave,
        Category::Dram => p.dram,
        Category::Pcie => p.pcie,
    }
}

/// `p` with the field of category `c` replaced by `v`.
pub open spec fn with_field(p: Power, c: Category, v: i64) -> Power {
    match c {
        Category::Cpu => (Power { cpu: v, ..p }),
        Category::ECpu => (Power { ecpu: v, ..p }),
        Category::PCpu => (Power { pcpu: v, ..p }),
        Category::Isp => (Power { isp: v, ..p }),
        Category::Gpu => (Power { gpu: v, ..p }),
        Category::GpuSram => (Power { gpu_sram: v, ..p }),
        Category::Ane => (Power { ane: v, ..p }),
        Category::Ave => (Power { ave: v, ..p }),
        Category::Dram => (Power { dram: v, ..p }),
        Category::Pcie => (Power { pcie: v, ..p }),
    }
}

/// Fold one record into the accumulator: noise and unmatched names leave
/// it unchanged; an overwrite category replaces its field with the power
/// `p_uw`; an accumulate category adds `p_uw` with saturation.
pub open spec fn spec_apply(acc: Power, name: Seq<char>, p_uw: int) -> Power {
    if spec_is_noise(name) {
        acc
    } else {
        match spec_classify(name) {
            None => acc,
            Some((c, accumulate)) => {
                let v = if accumulate {
                    clip_i64(field_uw(acc, c) + p_uw)
                } else {
                    clip_i64(p_uw)
                };
                with_field(acc, c, v as i64)
            },
        }
    }
}

/// The snapshot one tick's record sequence folds to, left to right.
pub open spec fn spec_aggregate(rs: Seq<IOReportChannel>, interval_ms: int) -> Power
    decreases rs.len(),
{
    if rs.len() == 0 {
        zero_power()
    } else {
        spec_apply(
            spec_aggregate(rs.drop_last(), interval_ms),
            rs.last().name@,
            spec_power_uw(rs.last().value as int, rs.last().unit@, interval_ms),
        )
    }
}

/// Every record that survives the noise filter carries a supported unit.
pub open spec fn all_units_ok(rs: Seq<IOReportChannel>) -> bool {
    forall|i: int|
        0 <= i < rs.len() ==> spec_is_noise(#[trigger] rs[i].name@) || known_unit(rs[i].unit@)
}

/// Saturating addition in the i64 range.
fn sat_add_i64(a: i64, b: i64) -> (r: i64)
    ensures
        r as int == clip_i64(a + b),
{
    let s: i128 = a as i128 + b as i128;
    if s > i64::MAX as i128 {
        i64::MAX
    } else if s < i64::MIN as i128 {
        i64::MIN
    } else {
        s as i64
    }
}

/// Fold one already-converted, non-noise record into the accumulator.
fn fold_record(acc: Power, name: &str, p: i64) -> (r: Power)
    requires
        !spec_is_noise(name@),
    ensures
        r == spec_apply(acc, name@, p as int),
{
    match classify(name) {
        None => acc,
        Some((c, accumulate)) => {
            let v: i64 = if accumulate {
                let prev: i64 = match c {
                    Category::Cpu => acc.cpu,
                    Category::ECpu => acc.ecpu,
                    Category::PCpu => acc.pcpu,
                    Category::Isp => acc.isp,
                    Category::Gpu => acc.gpu,
                    Category::GpuSram => acc.gpu_sram,
                    Category::Ane => acc.ane,
                    Category::Ave => acc.ave,
                    Category::Dram => acc.dram,
                    Category::Pcie => acc.pcie,
                };
                sat_add_i64(prev, p)
            } else {
                p
            };
            match c {
                Category::Cpu => Power { cpu: v, ..acc },
                Category::ECpu => Power { ecpu: v, ..acc },
                Category::PCpu => Power { pcpu: v, ..acc },
                Category::Isp => Power { isp: v, ..acc },
                Category::Gpu => Power { gpu: v, ..acc },
                Category::GpuSram => Power { gpu_sram: v, ..acc },
                Category::Ane => Power { ane: v, ..acc },
                Category::Ave => Power { ave: v, ..acc },
                Category::Dram => Power { dram: v, ..acc },
                Category::Pcie => Power { pcie: v, ..acc },
            }
        },
    }
}

/// Fold one tick's records into a single snapshot. Succeeds with the
/// left-to-right fold exactly when every non-noise record carries a
/// supported unit; otherwise the tick fails fatally and no snapshot is
/// produced.
pub fn aggregate(records: &Vec<IOReportChannel>, interval_ms: u64) -> (r: Result<
    Power,
    FatalError,
>)
    requires
        1 <= interval_ms,
    ensures
        all_units_ok(records@) ==> r == Ok::<Power, FatalError>(
            spec_aggregate(records@, interval_ms as int),
        ),
        !all_units_ok(records@) ==> r == Err::<Power, FatalError>(FatalError::UnsupportedUnit),
{
    let mut acc = Power::default();
    let mut idx: usize = 0;
    while idx < records.len()
        invariant
            idx <= records@.len(),
            1 <= interval_ms,
            all_units_ok(records@.take(idx as int)),
            acc == spec_aggregate(records@.take(idx as int), interval_ms as int),
        decreases records@.len() - idx,
    {
        let rec = &records[idx];
        if !is_unnecessary_field(rec) {
            match rec.as_power(interval_ms) {
                Ok(p) => {
                    acc = fold_record(acc, rec.name.as_str(), p);
                },
                Err(_) => {
                    proof {
                        assert(!(spec_is_noise(records@[idx as int].name@) || known_unit(
                            records@[idx as int].unit@,
                        )));
                    }
                    return Err(FatalError::UnsupportedUnit);
                },
            }
        }
        proof {
            let s = records@;
            assert(s.take(idx + 1).drop_last() =~= s.take(idx as int));
            assert(s.take(idx + 1).last() == s[idx as int]);
            assert(forall|k: int|
                0 <= k < idx + 1 ==> #[trigger] s.take(idx + 1)[k] == s[k]);
        }
        idx += 1;
    }
    proof {
        assert(records@.take(records@.len() as int) =~= records@);
    }
    Ok(acc)
}

/// Whether one record contributes to category `c`: it survives the noise
/// filter and its name classifies to `c`.
pub open spec fn contributes(r: IOReportChannel, c: Category) -> bool {
    !spec_is_noise(r.name@) && match spec_classify(r.name@) {
        Some(t) => t.0 == c,
        None => false,
    }
}

/// The power one record converts to, in microwatts.
pub open spec fn record_power(r: IOReportChannel, interval_ms: int) -> int {
    spec_power_uw(r.value as int, r.unit@, interval_ms)
}

/// Overwrite policy: when the last record of a tick that contributes to a
/// category carries the overwrite flag, the aggregated field holds exactly
/// that record's power — earlier matches are replaced, never summed.
pub proof fn lemma_overwrite_keeps_last(
    rs: Seq<IOReportChannel>,
    interval_ms: int,
    j: int,
    c: Category,
)
    requires
        0 <= j < rs.len(),
        spec_classify(rs[j].name@) == Some((c, false)),
        !spec_is_noise(rs[j].name@),
        forall|k: int| j < k < rs.len() ==> !contributes(#[trigger] rs[k], c),
    ensures
        field_uw(spec_aggregate(rs, interval_ms), c) as int == record_power(rs[j], interval_ms),
    decreases rs.len(),
{
    let pre = rs.drop_last();
    if j == rs.len() - 1 {
        assert(spec_aggregate(rs, interval_ms) == spec_apply(
            spec_aggregate(pre, interval_ms),
            rs[j].name@,
            record_power(rs[j], interval_ms),
        ));
    } else {
        assert(forall|k: int| j < k < pre.len() ==> !contributes(#[trigger] pre[k], c));
        lemma_overwrite_keeps_last(pre, interval_ms, j, c);
        assert(!contributes(rs.last(), c));
    }
}

/// Saturating sum of the powers of the records of `rs` that contribute to
/// category `c`, left to right.
pub open spec fn sat_sum_uw(rs: Seq<IOReportChannel>, interval_ms: int, c: Category) -> int
    decreases rs.len(),
{
    if rs.len() == 0 {
        0
    } else {
        let rest = sat_sum_uw(rs.drop_last(), interval_ms, c);
        if contributes(rs.last(), c) {
            clip_i64(rest + record_power(rs.last(), interval_ms))
        } else {
            rest
        }
    }
}

/// Accumulate policy: when every record of a tick that contributes to a
/// category carries the accumulate flag, the aggregated field is the
/// saturating sum of all their powers — no match is dropped or replaced.
pub proof fn lemma_accumulate_sums_all(rs: Seq<IOReportChannel>, interval_ms: int, c: Category)
    requires
        forall|k: int|
            0 <= k < rs.len() && contributes(#[trigger] rs[k], c) ==> spec_classify(rs[k].name@)
                == Some((c, true)),
    ensures
        field_uw(spec_aggregate(rs, interval_ms), c) as int == sat_sum_uw(rs, interval_ms, c),
    decreases rs.len(),
{
    if rs.len() > 0 {
        let pre = rs.drop_last();
        assert(forall|k: int|
            0 <= k < pre.len() && contributes(#[trigger] pre[k], c) ==> spec_classify(pre[k].name@)
                == Some((c, true)));
        lemma_accumulate_sums_all(pre, interval_ms, c);
    }
}

/// Noise filter: a record whose name carries a noise prefix contributes
/// to no category — appending it to a tick leaves the aggregate
/// unchanged, whatever its value or unit.
pub proof fn lemma_noise_contributes_nothing(
    rs: Seq<IOReportChannel>,
    r: IOReportChannel,
    interval_ms: int,
)
    requires
        spec_is_noise(r.name@),
    ensures
        spec_aggregate(rs.push(r), interval_ms) == spec_aggregate(rs, interval_ms),
{
    assert(rs.push(r).drop_last() =~= rs);
}

} // verus!
