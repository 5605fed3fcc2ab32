//! Channel records and their classification into the fixed category set.
//!
//! A record is one named energy counter reading for one sampling tick.
//! Classification is a two-stage policy: known-noise channel names are
//! dropped entirely, then the name is mapped to at most one category by a
//! first-match-wins rule list. Each category is either *overwrite* (only
//! the last matching record of a tick counts) or *accumulate* (all
//! matching records of a tick are summed); the asymmetry is deliberate.

use vstd::prelude::*;

use crate::strutil::{spec_contains, spec_starts_with, str_contains, str_eq, str_starts_with};

verus! {

/// One named energy counter reading from the platform telemetry interface:
/// a channel name, a unit tag (`"nJ"`, `"uJ"` or `"mJ"` when well-formed),
/// and the energy consumed during the interval as a signed 64-bit delta.
pub struct IOReportChannel {
    pub name: String,
    pub unit: String,
    pub value: i64,
}

/// The ten fixed power-accounting buckets.
#[derive(Clone, Copy, PartialEq, Eq, Structural, Debug)]
pub enum Category {
    Cpu,
    ECpu,
    PCpu,
    Isp,
    Gpu,
    GpuSram,
    Ane,
    Ave,
    Dram,
    Pcie,
}

/// Channel names with one of these prefixes are known noise: they are
/// dropped before classification and contribute to no category, not even
/// to unclassified accounting.
pub open spec fn spec_is_noise(name: Seq<char>) -> bool {
    ||| spec_starts_with(name, "PCPUDT"@)
    ||| spec_starts_with(name, "ECPUDT"@)
    ||| spec_starts_with(name, "PCPU1DT"@)
}

/// First-match-wins category mapping. The boolean is the accumulate flag:
/// `true` means matching records of one tick are summed, `false` means the
/// last one overwrites. Names that match no rule map to no category.
pub open spec fn spec_classify(name: Seq<char>) -> Option<(Category, bool)> {
    if name == "CPU Energy"@ {
        Some((Category::Cpu, false))
    } else if name == "GPU Energy"@ {
        Some((Category::Gpu, false))
    } else if name == "ISP0"@ {
        Some((Category::Isp, false))
    } else if name == "AVE0"@ {
        Some((Category::Ave, false))
    } else if name == "DRAM0"@ {
        Some((Category::Dram, false))
    } else if name == "PACC0_CPU"@ || name == "PACC1_CPU"@ {
        Some((Category::PCpu, true))
    } else if name == "EACC_CPU"@ {
        Some((Category::ECpu, true))
    } else if name == "GPU SRAM0"@ {
        Some((Category::GpuSram, false))
    } else if spec_contains(name, "ANE"@) {
        Some((Category::Ane, true))
    } else if spec_contains(name, "PCIe Port"@) || spec_contains(name, "apciec"@) {
        Some((Category::Pcie, true))
    } else {
        None
    }
}

/// Noise filter: whether this record is one of the known noise channels.
pub fn is_unnecessary_field(v: &IOReportChannel) -> (r: bool)
    ensures
        r == spec_is_noise(v.name@),
{
    str_starts_with(v.name.as_str(), "PCPUDT") || str_starts_with(v.name.as_str(), "ECPUDT")
        || str_starts_with(v.name.as_str(), "PCPU1DT")
}

/// Map a channel name to its category and accumulate flag, if any.
pub fn classify(name: &str) -> (r: Option<(Category, bool)>)
    ensures
        r == spec_classify(name@),
{
    if str_eq(name, "CPU Energy") {
        Some((Category::Cpu, false))
    } else if str_eq(name, "GPU Energy") {
        Some((Category::Gpu, false))
    } else if str_eq(name, "ISP0") {
        Some((Category::Isp, false))
    } else if str_eq(name, "AVE0") {
        Some((Category::Ave, false))
    } else if str_eq(name, "DRAM0") {
        Some((Category::Dram, false))
    } else if str_eq(name, "PACC0_CPU") || str_eq(name, "PACC1_CPU") {
        Some((Category::PCpu, true))
    } else if str_eq(name, "EACC_CPU") {
        Some((Category::ECpu, true))
    } else if str_eq(name, "GPU SRAM0") {
        Some((Category::GpuSram, false))
    } else if str_contains(name, "ANE") {
        Some((Category::Ane, true))
    } else if str_contains(name, "PCIe Port") || str_contains(name, "apciec") {
        Some((Category::Pcie, true))
    } else {
        None
    }
}

} // verus!
