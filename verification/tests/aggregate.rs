use powermon::power::{aggregate, Power};
use powermon::record::IOReportChannel;
use powermon::FatalError;

fn rec(name: &str, unit: &str, value: i64) -> IOReportChannel {
    IOReportChannel { name: name.to_string(), unit: unit.to_string(), value }
}

#[test]
fn empty_tick_is_all_zero() {
    let records: Vec<IOReportChannel> = Vec::new();
    assert_eq!(aggregate(&records, 1000), Ok(Power::default()));
}

#[test]
fn accumulate_sums_across_matches() {
    // PACC0_CPU 50 mJ and PACC1_CPU 30 mJ over 1 s give p-cpu 80 mW.
    let records = vec![rec("PACC0_CPU", "mJ", 50), rec("PACC1_CPU", "mJ", 30)];
    let p = aggregate(&records, 1000).unwrap();
    assert_eq!(p.pcpu, 80_000);
    assert_eq!(p.cpu, 0);
    assert_eq!(p.ecpu, 0);
}

#[test]
fn overwrite_keeps_only_the_last() {
    // Two records named "CPU Energy": the snapshot holds the last one,
    // not their sum.
    let records = vec![rec("CPU Energy", "mJ", 100), rec("CPU Energy", "mJ", 40)];
    let p = aggregate(&records, 1000).unwrap();
    assert_eq!(p.cpu, 40_000);
}

#[test]
fn gpu_sram_overwrites() {
    let records = vec![rec("GPU SRAM0", "mJ", 9), rec("GPU SRAM0", "mJ", 2)];
    let p = aggregate(&records, 1000).unwrap();
    assert_eq!(p.gpu_sram, 2_000);
}

#[test]
fn noise_contributes_to_no_category() {
    // A noise-prefixed record contributes nothing, whatever its value or
    // unit — even a unit that would otherwise be a fatal violation.
    let records = vec![rec("PCPUDT0", "xJ", 123_456)];
    assert_eq!(aggregate(&records, 1000), Ok(Power::default()));
}

#[test]
fn unclassified_records_are_ignored() {
    let records = vec![rec("Fan", "mJ", 999)];
    assert_eq!(aggregate(&records, 1000), Ok(Power::default()));
}

#[test]
fn unrecognized_unit_aborts_the_tick() {
    // The converter failure is fatal: no partial snapshot comes out even
    // though the first record was fine.
    let records = vec![rec("CPU Energy", "mJ", 100), rec("Fan", "xJ", 1)];
    assert_eq!(aggregate(&records, 1000), Err(FatalError::UnsupportedUnit));
}

#[test]
fn mixed_tick() {
    let records = vec![
        rec("CPU Energy", "mJ", 10),
        rec("GPU Energy", "uJ", 20_000),
        rec("ANE0", "mJ", 3),
        rec("ANE2", "mJ", 4),
        rec("PCPUDT9", "mJ", 1_000_000),
        rec("DRAM0", "nJ", 6_000_000),
        rec("PCIe Port 0", "mJ", 1),
        rec("apciec1", "mJ", 2),
    ];
    let p = aggregate(&records, 1000).unwrap();
    assert_eq!(p.cpu, 10_000);
    assert_eq!(p.gpu, 20_000);
    assert_eq!(p.ane, 7_000);
    assert_eq!(p.dram, 6_000);
    assert_eq!(p.pcie, 3_000);
    assert_eq!(p.pcpu, 0);
    assert_eq!(p.gpu_sram, 0);
}

#[test]
fn accumulate_saturates_at_the_i64_range() {
    let records = vec![rec("EACC_CPU", "mJ", i64::MAX), rec("EACC_CPU", "mJ", i64::MAX)];
    let p = aggregate(&records, 1).unwrap();
    assert_eq!(p.ecpu, i64::MAX);
}
