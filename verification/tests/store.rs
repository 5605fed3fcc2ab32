use powermon::power::Power;
use powermon::record::Category;
use powermon::store::{PowerStore, Series};

fn snap(cpu_uw: i64) -> Power {
    Power { cpu: cpu_uw, ..Power::default() }
}

#[test]
fn history_is_bounded_and_fifo() {
    // Five appends into capacity three keep exactly the last three, in
    // append order.
    let mut store = PowerStore::new(3);
    for k in 1..=5i64 {
        store.push_back(snap(k * 1000));
        let expected = (k as usize).min(3);
        assert_eq!(store.data.len(), expected);
    }
    assert_eq!(store.cpu(10), vec![3, 4, 5]);
}

#[test]
fn fewer_appends_than_capacity_keep_everything() {
    let mut store = PowerStore::new(8);
    store.push_back(snap(1000));
    store.push_back(snap(2000));
    assert_eq!(store.data.len(), 2);
    assert_eq!(store.cpu(10), vec![1, 2]);
}

#[test]
fn window_returns_min_of_len_and_width() {
    let mut store = PowerStore::new(10);
    for k in 1..=4i64 {
        store.push_back(snap(k * 1000));
    }
    // Width below the store length: the most recent entries, oldest first.
    assert_eq!(store.cpu(2), vec![3, 4]);
    // Width above the store length: everything.
    assert_eq!(store.cpu(9), vec![1, 2, 3, 4]);
    assert_eq!(store.cpu(0), Vec::<u64>::new());
}

#[test]
fn window_reports_truncated_milliwatts() {
    let mut store = PowerStore::new(4);
    store.push_back(snap(1999));
    store.push_back(snap(2000));
    store.push_back(snap(999));
    assert_eq!(store.cpu(4), vec![1, 2, 0]);
}

#[test]
fn negative_power_reads_as_zero() {
    let mut store = PowerStore::new(2);
    store.push_back(snap(-5000));
    assert_eq!(store.cpu(2), vec![0]);
}

#[test]
fn per_category_windows() {
    let mut store = PowerStore::new(4);
    let p = Power {
        cpu: 1000,
        ecpu: 2000,
        pcpu: 3000,
        isp: 4000,
        gpu: 5000,
        gpu_sram: 6000,
        ane: 7000,
        ave: 8000,
        dram: 9000,
        pcie: 10_000,
    };
    store.push_back(p);
    assert_eq!(store.cpu(1), vec![1]);
    assert_eq!(store.e_cpu(1), vec![2]);
    assert_eq!(store.p_cpu(1), vec![3]);
    assert_eq!(store.isp(1), vec![4]);
    assert_eq!(store.gpu(1), vec![5]);
    assert_eq!(store.gpu_sram(1), vec![6]);
    assert_eq!(store.ane(1), vec![7]);
    assert_eq!(store.ave(1), vec![8]);
    assert_eq!(store.dram(1), vec![9]);
    assert_eq!(store.pcie(1), vec![10]);
}

#[test]
fn total_sums_exactly_six_categories() {
    // total = cpu + gpu + ane + dram + ave + isp; p-cpu, e-cpu, gpu-sram
    // and pcie are deliberately excluded.
    let mut store = PowerStore::new(4);
    let p = Power {
        cpu: 1000,
        gpu: 2000,
        ane: 3000,
        dram: 4000,
        ave: 5000,
        isp: 6000,
        ecpu: 700_000,
        pcpu: 800_000,
        gpu_sram: 900_000,
        pcie: 1_000_000,
    };
    store.push_back(p);
    assert_eq!(store.total(1), vec![1 + 2 + 3 + 4 + 5 + 6]);
}

#[test]
fn total_is_elementwise_sum_of_the_six_windows() {
    let mut store = PowerStore::new(5);
    for k in 0..4i64 {
        store.push_back(Power {
            cpu: 1000 * k,
            gpu: 2500,
            ane: 999,
            dram: 12_000,
            ave: 1,
            isp: 3001,
            ecpu: 50_000,
            pcpu: 60_000,
            gpu_sram: 70_000,
            pcie: 80_000,
        });
    }
    let width = 3;
    let total = store.total(width);
    let cpu = store.cpu(width);
    let gpu = store.gpu(width);
    let ane = store.ane(width);
    let dram = store.dram(width);
    let ave = store.ave(width);
    let isp = store.isp(width);
    assert_eq!(total.len(), 3);
    for i in 0..total.len() {
        assert_eq!(total[i], cpu[i] + gpu[i] + ane[i] + dram[i] + ave[i] + isp[i]);
    }
}

#[test]
fn get_power_data_matches_the_named_accessors() {
    let mut store = PowerStore::new(3);
    store.push_back(snap(42_000));
    assert_eq!(store.get_power_data(3, Series::Component(Category::Cpu)), vec![42]);
    assert_eq!(store.get_power_data(3, Series::Total), vec![42]);
}
