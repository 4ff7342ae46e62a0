use syterkit_mctl::bus::{
    MemTopology, PHY_AC_MAP1_REG, PHY_AC_MAP2_REG, PHY_AC_MAP3_REG, PHY_AC_MAP4_REG,
};
use syterkit_mctl::params::{dram_parameters, DramType};
use syterkit_mctl::remap::{
    apply_remap_tables, mctl_phy_ac_remapping, select_table, PHY_CFG1, PHY_CFG3, PHY_CFG6,
    PHY_CFG7, PHY_CFG_NONE,
};
use syterkit_mctl::sim::SimBus;

fn sim_with_sid(sid: u32) -> SimBus {
    let topo = MemTopology { page_bits: 11, row_bits: 15, eight_banks: true };
    SimBus::new(topo, 0x1, 0x02000000, 0x02000000, sid)
}

fn packed_words(t: &[u32; 22]) -> (u32, u32, u32, u32) {
    let m1 = (t[4] << 25) | (t[3] << 20) | (t[2] << 15) | (t[1] << 10) | (t[0] << 5);
    let m2 = (t[10] << 25) | (t[9] << 20) | (t[8] << 15) | (t[7] << 10) | (t[6] << 5) | t[5];
    let m3 = (t[15] << 20) | (t[14] << 15) | (t[13] << 10) | (t[12] << 5) | t[11];
    let m4 = (t[21] << 25) | (t[20] << 20) | (t[19] << 15) | (t[18] << 10) | (t[17] << 5) | t[16];
    (m1, m2, m3, m4)
}

#[test]
fn fuse_nine_selects_table_three() {
    assert_eq!(select_table(0, 9, DramType::Ddr3), PHY_CFG3);
}

#[test]
fn override_bit_wins_over_fuse() {
    // Either of bits 19:18 forces the override table, whatever the fuse.
    assert_eq!(select_table(1 << 18, 9, DramType::Ddr3), PHY_CFG7);
    assert_eq!(select_table(1 << 19, 12, DramType::Ddr3), PHY_CFG7);
    assert_eq!(select_table(3 << 18, 15, DramType::Ddr3), PHY_CFG7);
}

#[test]
fn ddr2_always_selects_table_six() {
    assert_eq!(select_table(0, 9, DramType::Ddr2), PHY_CFG6);
    assert_eq!(select_table(1 << 18, 12, DramType::Ddr2), PHY_CFG6);
}

#[test]
fn unknown_fuse_falls_back_to_default_table() {
    assert_eq!(select_table(0, 12, DramType::Ddr3), PHY_CFG1);
    assert_eq!(select_table(0, 0, DramType::Ddr3), PHY_CFG1);
    assert_eq!(select_table(0, 7, DramType::Ddr3), PHY_CFG1);
    // Fuse values 13 and 14 clear the remap instead.
    assert_eq!(select_table(0, 13, DramType::Ddr3), PHY_CFG_NONE);
    assert_eq!(select_table(0, 14, DramType::Ddr3), PHY_CFG_NONE);
}

#[test]
fn ddr2_fuse_fifteen_skips_remap_entirely() {
    let mut hw = sim_with_sid(15 << 8);
    apply_remap_tables(&mut hw, 0, 15, DramType::Ddr2);
    assert_eq!(hw.reg(PHY_AC_MAP1_REG), None);
    assert_eq!(hw.reg(PHY_AC_MAP2_REG), None);
}

#[test]
fn low_power_types_never_touch_remap_registers() {
    let mut hw = sim_with_sid(9 << 8);
    apply_remap_tables(&mut hw, 0, 9, DramType::Lpddr3);
    assert_eq!(hw.reg(PHY_AC_MAP1_REG), None);
}

#[test]
fn remap_writes_packed_table_with_enable_bit() {
    let mut hw = sim_with_sid(9 << 8);
    let mut para = para_ddr3();
    mctl_phy_ac_remapping(&mut para, &mut hw);
    let w = packed_words(&PHY_CFG3);
    assert_eq!(hw.reg(PHY_AC_MAP1_REG), Some(w.0 | 1));
    assert_eq!(hw.reg(PHY_AC_MAP2_REG), Some(w.1));
    assert_eq!(hw.reg(PHY_AC_MAP3_REG), Some(w.2));
    assert_eq!(hw.reg(PHY_AC_MAP4_REG), Some(w.3));
}

fn para_ddr3() -> dram_parameters {
    dram_parameters {
        dram_clk: 792,
        dram_type: DramType::Ddr3,
        dram_zq: 0x007b_7bfb,
        dram_odt_en: 1,
        dram_para1: 0x10f2,
        dram_para2: 0,
        dram_mr0: 0x1c70,
        dram_mr1: 0x42,
        dram_mr2: 0,
        dram_mr3: 0,
        dram_tpr0: 0x004a_2195,
        dram_tpr1: 0x0242_3190,
        dram_tpr2: 0x0008_b061,
        dram_tpr3: 0xb478_7896,
        dram_tpr4: 0,
        dram_tpr5: 0x4848_4848,
        dram_tpr6: 0x48,
        dram_tpr7: 0x1620_121e,
        dram_tpr8: 0,
        dram_tpr9: 0,
        dram_tpr10: 0,
        dram_tpr11: 0x0076_0000,
        dram_tpr12: 0x35,
        dram_tpr13: 0,
    }
}
