//! Address-line remap table selection and programming.
//!
//! Depending on a silicon fuse identifier, an explicit override bit and the
//! memory type, one of several fixed 22-entry remap tables is chosen and
//! written, packed five bits per lane, into the four remap registers. The
//! selection order is an exact contract: a wrong choice mis-wires address
//! lines.

use vstd::prelude::*;

use crate::bus::{
    DramBus, PHY_AC_MAP1_REG, PHY_AC_MAP2_REG, PHY_AC_MAP3_REG, PHY_AC_MAP4_REG, SID_INFO_REG,
};
use crate::params::{dram_parameters, DramType};

verus! {

pub const PHY_CFG1: [u32; 22] = [
    1,
    9,
    3,
    7,
    8,
    18,
    4,
    13,
    5,
    6,
    10,
    2,
    14,
    12,
    0,
    0,
    21,
    17,
    20,
    19,
    11,
    22,
];

pub const PHY_CFG2: [u32; 22] = [
    4,
    9,
    3,
    7,
    8,
    18,
    1,
    13,
    2,
    6,
    10,
    5,
    14,
    12,
    0,
    0,
    21,
    17,
    20,
    19,
    11,
    22,
];

pub const PHY_CFG3: [u32; 22] = [
    1,
    7,
    8,
    12,
    10,
    18,
    4,
    13,
    5,
    6,
    3,
    2,
    9,
    0,
    0,
    0,
    21,
    17,
    20,
    19,
    11,
    22,
];

pub const PHY_CFG4: [u32; 22] = [
    4,
    12,
    10,
    7,
    8,
    18,
    1,
    13,
    2,
    6,
    3,
    5,
    9,
    0,
    0,
    0,
    21,
    17,
    20,
    19,
    11,
    22,
];

pub const PHY_CFG5: [u32; 22] = [
    13,
    2,
    7,
    9,
    12,
    19,
    5,
    1,
    6,
    3,
    4,
    8,
    10,
    0,
    0,
    0,
    21,
    22,
    18,
    17,
    11,
    20,
];

pub const PHY_CFG6: [u32; 22] = [
    3,
    10,
    7,
    13,
    9,
    11,
    1,
    2,
    4,
    6,
    8,
    5,
    12,
    0,
    0,
    0,
    20,
    1,
    0,
    21,
    22,
    17,
];

pub const PHY_CFG7: [u32; 22] = [
    3,
    2,
    4,
    7,
    9,
    1,
    17,
    12,
    18,
    14,
    13,
    8,
    15,
    6,
    10,
    5,
    19,
    22,
    16,
    21,
    20,
    11,
];

/// The all-zero table: fuse identifiers 13 and 14 leave the remap registers
/// cleared rather than selecting a permutation.
pub const PHY_CFG_NONE: [u32; 22] = [
    0,
    0,
    0,
    0,
    0,
    0,
    0,
    0,
    0,
    0,
    0,
    0,
    0,
    0,
    0,
    0,
    0,
    0,
    0,
    0,
    0,
    0,
];

/// The table the selection order picks: DDR2 always takes `PHY_CFG6`; the
/// override bits (`tpr13` bits 19:18) force `PHY_CFG7`; otherwise the fuse
/// value looks the table up directly, with unrecognized values falling back
/// to the default shared with fuse value 12.
pub open spec fn spec_select_table(tpr13: u32, fuse: u32, dtype: DramType) -> [u32; 22] {
    if dtype == DramType::Ddr2 {
        PHY_CFG6
    } else if (tpr13 >> 18) & 0x3 != 0 {
        PHY_CFG7
    } else if fuse == 8 {
        PHY_CFG2
    } else if fuse == 9 {
        PHY_CFG3
    } else if fuse == 10 {
        PHY_CFG5
    } else if fuse == 11 {
        PHY_CFG4
    } else if fuse == 13 || fuse == 14 {
        PHY_CFG_NONE
    } else {
        PHY_CFG1
    }
}

/// Selects the remap table.
pub fn select_table(tpr13: u32, fuse: u32, dtype: DramType) -> (t: [u32; 22])
    ensures
        t == spec_select_table(tpr13, fuse, dtype),
{
    if dtype == DramType::Ddr2 {
        PHY_CFG6
    } else if (tpr13 >> 18) & 0x3 != 0 {
        PHY_CFG7
    } else if fuse == 8 {
        PHY_CFG2
    } else if fuse == 9 {
        PHY_CFG3
    } else if fuse == 10 {
        PHY_CFG5
    } else if fuse == 11 {
        PHY_CFG4
    } else if fuse == 13 || fuse == 14 {
        PHY_CFG_NONE
    } else {
        PHY_CFG1
    }
}

/// The first remap register word: lanes 0 to 4, five bits each, starting at
/// bit 5.
pub open spec fn spec_map1_word(t: [u32; 22]) -> u32 {
    (t[4] << 25) | (t[3] << 20) | (t[2] << 15) | (t[1] << 10) | (t[0] << 5)
}

/// The second remap register word: lanes 5 to 10.
pub open spec fn spec_map2_word(t: [u32; 22]) -> u32 {
    (t[10] << 25) | (t[9] << 20) | (t[8] << 15) | (t[7] << 10) | (t[6] << 5) | t[5]
}

/// The third remap register word: lanes 11 to 15.
pub open spec fn spec_map3_word(t: [u32; 22]) -> u32 {
    (t[15] << 20) | (t[14] << 15) | (t[13] << 10) | (t[12] << 5) | t[11]
}

/// The fourth remap register word: lanes 16 to 21.
pub open spec fn spec_map4_word(t: [u32; 22]) -> u32 {
    (t[21] << 25) | (t[20] << 20) | (t[19] << 15) | (t[18] << 10) | (t[17] << 5) | t[16]
}

/// The four packed remap words that will be written for the given inputs,
/// or `None` where the sequence writes nothing: for DDR2 with fuse value 15
/// the remap is skipped entirely, and for the low-power types the remap
/// registers are never touched.
pub open spec fn spec_remap_words(tpr13: u32, fuse: u32, dtype: DramType) -> Option<
    (u32, u32, u32, u32),
> {
    if dtype == DramType::Ddr2 && fuse == 15 {
        None
    } else if dtype == DramType::Ddr2 || dtype == DramType::Ddr3 {
        let t = spec_select_table(tpr13, fuse, dtype);
        Some((spec_map1_word(t), spec_map2_word(t), spec_map3_word(t), spec_map4_word(t)))
    } else {
        None
    }
}

/// Programs the address remap registers for a known fuse value: the chosen
/// table is packed and written, the first word once bare and once with its
/// enable bit, in that order. Where the selection calls for no remap, no
/// register changes.
pub fn apply_remap_tables<H: DramBus>(hw: &mut H, tpr13: u32, fuse: u32, dtype: DramType)
    ensures
        final(hw).cells() == old(hw).cells(),
        final(hw).topo() == old(hw).topo(),
        match spec_remap_words(tpr13, fuse, dtype) {
            Some(w) => final(hw).regs() == old(hw).regs().insert(
                PHY_AC_MAP1_REG as u64,
                w.0,
            ).insert(PHY_AC_MAP2_REG as u64, w.1).insert(PHY_AC_MAP3_REG as u64, w.2).insert(
                PHY_AC_MAP4_REG as u64,
                w.3,
            ).insert(PHY_AC_MAP1_REG as u64, w.0 | 1),
            None => final(hw).regs() == old(hw).regs(),
        },
{
    if dtype == DramType::Ddr2 && fuse == 15 {
        return ;
    }
    if !(dtype == DramType::Ddr2 || dtype == DramType::Ddr3) {
        return ;
    }
    let t = select_table(tpr13, fuse, dtype);
    let map1: u32 = (t[4] << 25) | (t[3] << 20) | (t[2] << 15) | (t[1] << 10) | (t[0] << 5);
    let map2: u32 = (t[10] << 25) | (t[9] << 20) | (t[8] << 15) | (t[7] << 10) | (t[6] << 5) | t[5];
    let map3: u32 = (t[15] << 20) | (t[14] << 15) | (t[13] << 10) | (t[12] << 5) | t[11];
    let map4: u32 = (t[21] << 25) | (t[20] << 20) | (t[19] << 15) | (t[18] << 10) | (t[17] << 5)
        | t[16];
    hw.write_reg(PHY_AC_MAP1_REG, map1);
    hw.write_reg(PHY_AC_MAP2_REG, map2);
    hw.write_reg(PHY_AC_MAP3_REG, map3);
    hw.write_reg(PHY_AC_MAP4_REG, map4);
    hw.write_reg(PHY_AC_MAP1_REG, map1 | 1);
}

/// How the register file changes when the remap runs with fuse value
/// `fuse`: either the five writes of the packed words, or nothing.
pub open spec fn remap_effect(
    tpr13: u32,
    fuse: u32,
    dtype: DramType,
    old_regs: Map<u64, u32>,
    new_regs: Map<u64, u32>,
) -> bool {
    match spec_remap_words(tpr13, fuse, dtype) {
        Some(w) => new_regs == old_regs.insert(PHY_AC_MAP1_REG as u64, w.0).insert(
            PHY_AC_MAP2_REG as u64,
            w.1,
        ).insert(PHY_AC_MAP3_REG as u64, w.2).insert(PHY_AC_MAP4_REG as u64, w.3).insert(
            PHY_AC_MAP1_REG as u64,
            w.0 | 1,
        ),
        None => new_regs == old_regs,
    }
}

/// Reads the fuse identifier and programs the address remap registers.
///
/// The fuse value is byte 1 of the silicon identifier word; everything the
/// write does with it is stated by [`apply_remap_tables`].
pub fn mctl_phy_ac_remapping<H: DramBus>(para: &mut dram_parameters, hw: &mut H)
    ensures
        *final(para) == *old(para),
        final(hw).cells() == old(hw).cells(),
        final(hw).topo() == old(hw).topo(),
        exists|fuse: u32|
            #[trigger] remap_effect(
                old(para).dram_tpr13,
                fuse,
                old(para).dram_type,
                old(hw).regs(),
                final(hw).regs(),
            ),
{
    let sid = hw.read_status(SID_INFO_REG);
    let fuse: u32 = (sid >> 8) & 0xf;
    apply_remap_tables(hw, para.dram_tpr13, fuse, para.dram_type);
    proof {
        assert(remap_effect(
            old(para).dram_tpr13,
            fuse,
            old(para).dram_type,
            old(hw).regs(),
            final(hw).regs(),
        ));
    }
}

} // verus!
