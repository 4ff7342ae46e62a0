use syterkit_mctl::bus::{DramBus, MemTopology, MC_WORK_MODE_RANK0_REG};
use syterkit_mctl::scan::{
    check_pattern_at, dramc_get_dram_size, dramc_simple_wr_test, dramc_write_test_pattern,
    scan_for_addr_wrap, scan_for_addr_wrap2,
};
use syterkit_mctl::sim::SimBus;

fn sim_with(topo: MemTopology) -> SimBus {
    SimBus::new(topo, 0x1 | (1 << 22), 0x02000000, 0x02000000, 0)
}

fn write_pattern_under_row_mode(hw: &mut SimBus) {
    hw.write_reg(MC_WORK_MODE_RANK0_REG, 0x6f0);
    dramc_write_test_pattern(hw);
}

#[test]
fn row_scan_returns_real_row_width() {
    for rows in 11..=16u32 {
        let topo = MemTopology { page_bits: 10, row_bits: rows, eight_banks: false };
        let mut hw = sim_with(topo);
        write_pattern_under_row_mode(&mut hw);
        assert_eq!(scan_for_addr_wrap(&mut hw), rows, "row width {rows}");
    }
}

#[test]
fn page_scan_returns_real_page_width() {
    for page in 9..=13u32 {
        let topo = MemTopology { page_bits: page, row_bits: 14, eight_banks: true };
        let mut hw = sim_with(topo);
        write_pattern_under_row_mode(&mut hw);
        hw.write_reg(MC_WORK_MODE_RANK0_REG, 0xaa0);
        assert_eq!(scan_for_addr_wrap2(&mut hw), page, "page width {page}");
    }
}

#[test]
fn scan_order_does_not_matter() {
    // Scans only read the array: whether rows or pages are probed first,
    // each returns its own width.
    let topo = MemTopology { page_bits: 12, row_bits: 13, eight_banks: false };

    let mut hw = sim_with(topo);
    write_pattern_under_row_mode(&mut hw);
    let rows_first = scan_for_addr_wrap(&mut hw);
    hw.write_reg(MC_WORK_MODE_RANK0_REG, 0xaa0);
    let pages_second = scan_for_addr_wrap2(&mut hw);

    let mut hw = sim_with(topo);
    write_pattern_under_row_mode(&mut hw);
    hw.write_reg(MC_WORK_MODE_RANK0_REG, 0xaa0);
    let pages_first = scan_for_addr_wrap2(&mut hw);
    hw.write_reg(MC_WORK_MODE_RANK0_REG, 0x6f0);
    let rows_second = scan_for_addr_wrap(&mut hw);

    assert_eq!(rows_first, 13);
    assert_eq!(rows_second, 13);
    assert_eq!(pages_first, 12);
    assert_eq!(pages_second, 12);
}

#[test]
fn bank_probe_tells_four_from_eight_banks() {
    let four = MemTopology { page_bits: 10, row_bits: 14, eight_banks: false };
    let mut hw = sim_with(four);
    write_pattern_under_row_mode(&mut hw);
    hw.write_reg(MC_WORK_MODE_RANK0_REG, 0x6a4);
    // On a four-bank part the third bank line wraps: the pattern reads back.
    assert!(check_pattern_at(&mut hw, 1 << 22, 63));

    let eight = MemTopology { page_bits: 10, row_bits: 14, eight_banks: true };
    let mut hw = sim_with(eight);
    write_pattern_under_row_mode(&mut hw);
    hw.write_reg(MC_WORK_MODE_RANK0_REG, 0x6a4);
    assert!(!check_pattern_at(&mut hw, 1 << 22, 63));
}

#[test]
fn size_computation_single_rank() {
    let topo = MemTopology { page_bits: 12, row_bits: 14, eight_banks: true };
    let mut hw = sim_with(topo);
    // Page code 9 (4 KB), rows 14, eight banks, single rank: 512 MB.
    hw.write_reg(MC_WORK_MODE_RANK0_REG, 0x9d4);
    assert_eq!(dramc_get_dram_size(&mut hw), 512);
}

#[test]
fn size_computation_two_identical_ranks() {
    let topo = MemTopology { page_bits: 12, row_bits: 14, eight_banks: true };
    let mut hw = sim_with(topo);
    // Rank field nonzero in the first word, zero in the second: the second
    // rank mirrors the first.
    hw.write_reg(MC_WORK_MODE_RANK0_REG, 0x9d5);
    hw.write_reg(0x0310_2004, 0x9d4);
    assert_eq!(dramc_get_dram_size(&mut hw), 1024);
}

#[test]
fn size_computation_guards_tiny_fields() {
    let topo = MemTopology { page_bits: 12, row_bits: 14, eight_banks: true };
    let mut hw = sim_with(topo);
    // A field sum below one megabyte reports zero instead of wrapping.
    hw.write_reg(MC_WORK_MODE_RANK0_REG, 0x600);
    assert_eq!(dramc_get_dram_size(&mut hw), 0);
}

#[test]
fn wr_test_passes_on_big_enough_memory() {
    let topo = MemTopology { page_bits: 12, row_bits: 14, eight_banks: true };
    let mut hw = sim_with(topo);
    hw.write_reg(MC_WORK_MODE_RANK0_REG, 0x9d4);
    assert!(dramc_simple_wr_test(&mut hw, 512, 64).is_ok());
}

#[test]
fn wr_test_catches_aliasing() {
    // A part with few real lines wraps the offset region onto the base
    // region: the base pattern is overwritten and the test reports it.
    let topo = MemTopology { page_bits: 9, row_bits: 11, eight_banks: false };
    let mut hw = sim_with(topo);
    hw.write_reg(MC_WORK_MODE_RANK0_REG, 0x600);
    let r = dramc_simple_wr_test(&mut hw, 512, 64);
    assert!(r.is_err());
}
