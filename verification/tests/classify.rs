use powermon::record::{classify, is_unnecessary_field, Category, IOReportChannel};

fn rec(name: &str, unit: &str, value: i64) -> IOReportChannel {
    IOReportChannel { name: name.to_string(), unit: unit.to_string(), value }
}

#[test]
fn exact_overwrite_names() {
    assert_eq!(classify("CPU Energy"), Some((Category::Cpu, false)));
    assert_eq!(classify("GPU Energy"), Some((Category::Gpu, false)));
    assert_eq!(classify("ISP0"), Some((Category::Isp, false)));
    assert_eq!(classify("AVE0"), Some((Category::Ave, false)));
    assert_eq!(classify("DRAM0"), Some((Category::Dram, false)));
    assert_eq!(classify("GPU SRAM0"), Some((Category::GpuSram, false)));
}

#[test]
fn exact_accumulate_names() {
    assert_eq!(classify("PACC0_CPU"), Some((Category::PCpu, true)));
    assert_eq!(classify("PACC1_CPU"), Some((Category::PCpu, true)));
    assert_eq!(classify("EACC_CPU"), Some((Category::ECpu, true)));
}

#[test]
fn ane_matches_by_substring() {
    assert_eq!(classify("ANE0"), Some((Category::Ane, true)));
    assert_eq!(classify("ANE2"), Some((Category::Ane, true)));
    assert_eq!(classify("MY ANE UNIT"), Some((Category::Ane, true)));
}

#[test]
fn pcie_matches_by_substring() {
    assert_eq!(classify("PCIe Port 0"), Some((Category::Pcie, true)));
    assert_eq!(classify("apciec0"), Some((Category::Pcie, true)));
    assert_eq!(classify("PCIe"), None);
}

#[test]
fn unknown_names_map_to_no_category() {
    assert_eq!(classify("Fan"), None);
    assert_eq!(classify(""), None);
    assert_eq!(classify("cpu energy"), None);
}

#[test]
fn first_match_wins() {
    // A name matching both substring rules classifies by the first.
    assert_eq!(classify("ANE PCIe Port"), Some((Category::Ane, true)));
}

#[test]
fn noise_prefixes_are_unnecessary() {
    assert!(is_unnecessary_field(&rec("PCPUDT0", "mJ", 1)));
    assert!(is_unnecessary_field(&rec("ECPUDT3", "mJ", 1)));
    assert!(is_unnecessary_field(&rec("PCPU1DT7", "mJ", 1)));
    assert!(is_unnecessary_field(&rec("PCPUDT", "mJ", 1)));
    assert!(!is_unnecessary_field(&rec("PACC0_CPU", "mJ", 1)));
    assert!(!is_unnecessary_field(&rec("CPU Energy", "mJ", 1)));
    assert!(!is_unnecessary_field(&rec("PCPUD", "mJ", 1)));
}
