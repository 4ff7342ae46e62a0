use syterkit_mctl::bus::{
    DramBus, MemTopology, DRAMTMG1_REG, MR0_REG, MR1_REG, MR2_REG, MR3_REG, RFSHTMG_REG,
};
use syterkit_mctl::params::{dram_parameters, DramType};
use syterkit_mctl::sim::SimBus;
use syterkit_mctl::timing::{
    auto_cal_timing, auto_set_timing_para, derive_primary, derive_secondary, merge_mode_register,
    pack_timings, unpack_timings,
};

fn plain_sim() -> SimBus {
    let topo = MemTopology { page_bits: 11, row_bits: 15, eight_banks: true };
    SimBus::new(topo, 0x1, 0x02000000, 0x02000000, 0)
}

fn base_para() -> dram_parameters {
    dram_parameters {
        dram_clk: 792,
        dram_type: DramType::Ddr3,
        dram_zq: 0x007b_7bfb,
        dram_odt_en: 0x0000_0001,
        dram_para1: 0x0000_10f2,
        dram_para2: 0,
        dram_mr0: 0x1c70,
        dram_mr1: 0x42,
        dram_mr2: 0,
        dram_mr3: 0,
        dram_tpr0: 0x004a_2195,
        dram_tpr1: 0x0242_3190,
        dram_tpr2: 0x0008_b061,
        dram_tpr3: 0xb478_7896,
        dram_tpr4: 0,
        dram_tpr5: 0x4848_4848,
        dram_tpr6: 0x48,
        dram_tpr7: 0x1620_121e,
        dram_tpr8: 0,
        dram_tpr9: 0,
        dram_tpr10: 0,
        dram_tpr11: 0x0076_0000,
        dram_tpr12: 0x35,
        dram_tpr13: 0x3405_0101,
    }
}

#[test]
fn cal_timing_rounds_up() {
    // 350 ns at 396 MHz: 350 * 396 = 138600, over 1000 is 138.6, so 139.
    assert_eq!(auto_cal_timing(350, 396), 139);
    // An exact multiple does not round.
    assert_eq!(auto_cal_timing(8, 500), 4);
    // Zero time needs zero cycles.
    assert_eq!(auto_cal_timing(0, 396), 0);
}

#[test]
fn ddr3_latency_boundary_at_800() {
    let slow = derive_secondary(DramType::Ddr3, 800, 0, 6, 0x42);
    assert_eq!(slow.wr_latency, 2);
    assert_eq!(slow.tcwl, 4);
    assert_eq!(slow.tcl, 6);
    assert_eq!(slow.mr0, 0x1c70);
    assert_eq!(slow.mr2, 24);

    let fast = derive_secondary(DramType::Ddr3, 801, 0, 6, 0x42);
    assert_eq!(fast.wr_latency, 3);
    assert_eq!(fast.tcwl, 5);
    assert_eq!(fast.tcl, 7);
    assert_eq!(fast.mr0, 0x1e14);
    assert_eq!(fast.mr2, 32);

    let typical = derive_secondary(DramType::Ddr3, 792, 0, 6, 0x42);
    assert_eq!(typical.wr_latency, 2);
    assert_eq!(typical.tcwl, 4);
}

#[test]
fn fallback_types_get_conservative_secondary() {
    let s = derive_secondary(DramType::Lpddr2, 792, 0, 6, 0x42);
    assert_eq!(s.tcl, 3);
    assert_eq!(s.wr_latency, 1);
    assert_eq!(s.trasmax, 27);
    assert_eq!(s.mr0, 0);
}

#[test]
fn merge_rule_keeps_caller_value_with_upper_bits() {
    // Any upper bit set makes the caller's value authoritative.
    assert_eq!(merge_mode_register(0x0001_0000, 0x1c70), 0x0001_0000);
    assert_eq!(merge_mode_register(0x8000_1234, 0x1c70), 0x8000_1234);
    // A clear upper half takes the computed value entirely.
    assert_eq!(merge_mode_register(0x0000_ffff, 0x1c70), 0x1c70);
    assert_eq!(merge_mode_register(0, 0x1c70), 0x1c70);
}

#[test]
fn timing_stage_applies_merge_rule_to_hardware() {
    let mut hw = plain_sim();
    let mut para = base_para();
    para.dram_tpr13 = 0; // derive timings
    para.dram_mr0 = 0x00a0_0000; // caller authoritative
    para.dram_mr1 = 0x0000_0042; // computed value wins
    auto_set_timing_para(&mut para, &mut hw);
    assert_eq!(para.dram_mr0, 0x00a0_0000);
    assert_eq!(hw.reg(MR0_REG), Some(0x00a0_0000));
    // DDR3 at 792 MHz keeps the caller's mr1 since its upper half is clear.
    assert_eq!(para.dram_mr1, 0x42);
    assert_eq!(hw.reg(MR1_REG), Some(0x42));
    assert_eq!(hw.reg(MR2_REG), Some(24));
    assert_eq!(hw.reg(MR3_REG), Some(0));
}

#[test]
fn raw_timing_words_pass_through_verbatim() {
    let mut hw = plain_sim();
    let mut para = base_para();
    para.dram_tpr13 = 0x2; // use caller-supplied packed words
    let before = (para.dram_tpr0, para.dram_tpr1, para.dram_tpr2);
    auto_set_timing_para(&mut para, &mut hw);
    assert_eq!((para.dram_tpr0, para.dram_tpr1, para.dram_tpr2), before);
    // The registers carry the unpacked caller fields: trc sits in the low
    // byte of the second timing register.
    let t = unpack_timings(before.0, before.1, before.2);
    let tmg1 = hw.reg(DRAMTMG1_REG).unwrap();
    assert_eq!(tmg1 & 0xff, t.trc);
    assert_eq!((tmg1 >> 16) & 0xff, t.txp);
    let rfsh = hw.reg(RFSHTMG_REG).unwrap();
    assert_eq!(rfsh & 0xffff, t.trfc);
    assert_eq!(rfsh >> 16, t.trefi);
}

#[test]
fn pack_then_unpack_returns_fields() {
    let t = derive_primary(DramType::Ddr3, 792);
    let packed = pack_timings(t);
    let back = unpack_timings(packed.0, packed.1, packed.2);
    assert_eq!(back, t);
}

#[test]
fn derived_timings_at_792() {
    let t = derive_primary(DramType::Ddr3, 792);
    // Half clock is 396 MHz.
    assert_eq!(t.trfc, 139); // 350 ns
    assert_eq!(t.trcd, 6); // 15 ns
    assert_eq!(t.trc, 21); // 53 ns
    assert_eq!(t.tras, 16); // 38 ns
    assert_eq!(t.tfaw, 20); // 50 ns
    assert_eq!(t.tccd, 2);
    assert_eq!(t.trtp, 4);
    assert_eq!(t.trrd, 2);
    assert_eq!(t.txp, 2);
}
