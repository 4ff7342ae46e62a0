use syterkit_mctl::bus::{DramBus, MemTopology, DRAMTMG1_REG, MC_WORK_MODE_RANK0_REG};
use syterkit_mctl::init;
use syterkit_mctl::init_dram;
use syterkit_mctl::params::{dram_parameters, DramType};
use syterkit_mctl::sim::SimBus;
use syterkit_mctl::timing::unpack_timings;

fn para_unknown_topology() -> dram_parameters {
    dram_parameters {
        dram_clk: 792,
        dram_type: DramType::Ddr3,
        dram_zq: 0x007b_7bfb,
        dram_odt_en: 1,
        dram_para1: 0,
        dram_para2: 0,
        dram_mr0: 0x1c70,
        dram_mr1: 0x42,
        dram_mr2: 0,
        dram_mr3: 0,
        dram_tpr0: 0x004a_2195,
        dram_tpr1: 0x0242_3190,
        dram_tpr2: 0x0008_b061,
        dram_tpr3: 0xb478_7896,
        dram_tpr4: 0,
        dram_tpr5: 0x4848_4848,
        dram_tpr6: 0x48,
        dram_tpr7: 0x1620_121e,
        dram_tpr8: 0,
        dram_tpr9: 0,
        dram_tpr10: 0,
        dram_tpr11: 0x0076_0000,
        dram_tpr12: 0x35,
        dram_tpr13: 0,
    }
}

/// A healthy board: training succeeds at once, lane status reports a
/// single-rank full-width part.
fn healthy_sim(topo: MemTopology) -> SimBus {
    // Init done, gate flag set so the lanes are inspected, no error code.
    SimBus::new(topo, 0x1 | (1 << 22), 0x02000000, 0x02000000, 9 << 8)
}

#[test]
fn unknown_topology_is_discovered_and_sized() {
    // A single-rank, full-width, 512 MB part: 4 KB pages, 14 row lines,
    // eight banks.
    let topo = MemTopology { page_bits: 12, row_bits: 14, eight_banks: true };
    let mut hw = healthy_sim(topo);
    let mut para = para_unknown_topology();

    let size = init_dram(&mut para, &mut hw);
    assert_eq!(size, 512);

    // Both autoscan passes ran: the discovered per-rank topology is packed
    // into the first parameter word, rows 14, eight banks, 4 KB pages.
    assert_eq!(para.dram_para1, (1 << 12) | (14 << 4) | 4);
    // Single rank, full width, size recorded in the upper half.
    assert_eq!(para.dram_para2, 512 << 16);
    // The resolution bits are set so a re-init skips the probing.
    assert_eq!(para.dram_tpr13 & 0x6003, 0x6003);

    // The final programming pass used the discovered topology, not the
    // degenerate scan configuration: page code 9, rows minus one, a third
    // bank line, single rank.
    let wm = hw.reg(MC_WORK_MODE_RANK0_REG).unwrap();
    assert_eq!(wm & 0xfff, 0x9d4);
}

#[test]
fn training_error_on_first_poll_returns_zero() {
    let topo = MemTopology { page_bits: 12, row_bits: 14, eight_banks: true };
    // Error code field nonzero together with the ZQ error flag, bit 20.
    let mut hw = SimBus::new(topo, 0x1 | (1 << 20), 0x02000000, 0x02000000, 0);
    let mut para = para_unknown_topology();
    assert_eq!(init_dram(&mut para, &mut hw), 0);
}

#[test]
fn dead_phy_returns_zero() {
    let topo = MemTopology { page_bits: 12, row_bits: 14, eight_banks: true };
    // Init-done never appears: the bounded poll gives the hardware up.
    let mut hw = SimBus::new(topo, 0, 0, 0, 0);
    let mut para = para_unknown_topology();
    assert_eq!(init_dram(&mut para, &mut hw), 0);
}

#[test]
fn caller_topology_and_raw_timings_skip_the_scan() {
    let topo = MemTopology { page_bits: 12, row_bits: 14, eight_banks: true };
    let mut hw = healthy_sim(topo);
    let mut para = para_unknown_topology();
    // Fully specified caller topology, raw timing words, scan disabled.
    para.dram_para1 = (1 << 12) | (14 << 4) | 4;
    para.dram_para2 = 512 << 16;
    para.dram_tpr13 = 0x3;

    let before = (para.dram_tpr0, para.dram_tpr1, para.dram_tpr2);
    let size = init_dram(&mut para, &mut hw);
    assert_eq!(size, 512);
    // The packed timing words went through verbatim.
    assert_eq!((para.dram_tpr0, para.dram_tpr1, para.dram_tpr2), before);
    let t = unpack_timings(before.0, before.1, before.2);
    let tmg1 = hw.reg(DRAMTMG1_REG).unwrap();
    assert_eq!(tmg1 & 0xff, t.trc);
}

#[test]
fn vendor_defaults_bring_up_half_gigabyte() {
    // The vendor record describes a 512 MB part with resolved topology.
    let topo = MemTopology { page_bits: 11, row_bits: 15, eight_banks: true };
    let mut hw = healthy_sim(topo);
    assert_eq!(init(&mut hw), 512);
}
