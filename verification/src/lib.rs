//! First-stage DRAM bring-up for an Allwinner D1-class memory controller.
//!
//! The crate derives SDRAM timing parameters from a clock frequency and
//! memory type, programs the PHY and digital controller through an abstract
//! register bus, and discovers unknown memory topology by probing address
//! lines.

pub mod bus;
pub mod channel;
pub mod config;
pub mod info;
pub mod params;
pub mod scan;
pub mod remap;
pub mod sim;
pub mod time_source;
pub mod timing;

use vstd::prelude::*;

verus! {

/// Rounds `len` up to the next multiple of `target_align`.
pub fn align_up_to(len: u64, target_align: u64) -> (r: u64)
    requires
        target_align > 0,
        len + target_align <= u64::MAX + 1,
    ensures
        r % target_align == 0,
        len <= r < len + target_align,
{
    let rem: u64 = len % target_align;
    if rem != 0 {
        proof {
            let ta = target_align as int;
            let d = len as int / ta;
            vstd::arithmetic::div_mod::lemma_fundamental_div_mod(len as int, ta);
            vstd::arithmetic::mul::lemma_mul_is_distributive_add(ta, d, 1);
            vstd::arithmetic::mul::lemma_mul_is_commutative(ta, d + 1);
            vstd::arithmetic::div_mod::lemma_mod_multiples_basic(d + 1, ta);
            assert(len - rem + target_align == (d + 1) * ta);
        }
        len - rem + target_align
    } else {
        len
    }
}

/// Whether a power management unit drives the DRAM supply on this board;
/// the supported boards have none.
pub fn get_pmu_exists() -> (r: bool)
    ensures
        r == false,
{
    false
}

/// Requests a DRAM supply voltage in millivolts from the power management
/// unit; without one, the request is returned unchanged.
pub fn set_ddr_voltage(val: usize) -> (r: usize)
    ensures
        r == val,
{
    val
}

/// Hook for the super-standby resume path; nothing to do on a cold boot.
pub fn handler_super_standby() {
}

/// The millivolt selector the LDO control register receives for a memory
/// type: 1.8 V for DDR2, 1.5 V for DDR3, the reset selector otherwise.
pub open spec fn spec_vol_selector(dtype: params::DramType) -> u32 {
    match dtype {
        params::DramType::Ddr2 => 47,
        params::DramType::Ddr3 => 25,
        _ => 0,
    }
}

/// Programs the system LDO with the supply voltage the memory type needs.
pub fn dram_vol_set<H: bus::DramBus>(para: &params::dram_parameters, hw: &mut H)
    ensures
        final(hw).cells() == old(hw).cells(),
        final(hw).topo() == old(hw).topo(),
        exists|v: u32|
            final(hw).regs() == old(hw).regs().insert(
                bus::SYS_LDO_CTRL_REG as u64,
                #[trigger] ((v & !0xff00u32 & !0x200000u32) | (spec_vol_selector(para.dram_type)
                    << 8)),
            ),
{
    let vol: u32 = match para.dram_type {
        params::DramType::Ddr2 => 47,
        params::DramType::Ddr3 => 25,
        _ => 0,
    };
    let reg = hw.read_reg(bus::SYS_LDO_CTRL_REG);
    hw.write_reg(bus::SYS_LDO_CTRL_REG, (reg & !0xff00u32 & !0x200000u32) | (vol << 8));
    hw.delay_micros(1);
    proof {
        assert(final(hw).regs() == old(hw).regs().insert(
            bus::SYS_LDO_CTRL_REG as u64,
            (reg & !0xff00u32 & !0x200000u32) | (spec_vol_selector(para.dram_type) << 8),
        ));
    }
}

/// The parameter record once the computed size is recorded: a packed
/// topology word that already carries a size keeps it, an empty upper half
/// takes the computed megabytes.
pub open spec fn spec_size_recorded(p: params::dram_parameters, sz: u32) -> params::dram_parameters {
    if p.dram_para2 != 0 {
        p
    } else {
        params::dram_parameters { dram_para2: (p.dram_para2 & 0xffff) | (sz << 16), ..p }
    }
}

/// How the size-commit step relates the result to the packed topology
/// word: a word that already carried a size (`mid`) is kept and its upper
/// half reported; an empty word takes the computed megabytes into its upper
/// half.
pub open spec fn size_commit_effect(mid: u32, fin: u32, r: usize) -> bool {
    if mid != 0 {
        fin == mid && r == ((mid & 0x7fff0000) >> 16) as usize
    } else {
        fin == ((r as u32) << 16) && r <= 0x10_0000
    }
}

/// Registers the whole initialization flow may touch: everything of the
/// scan and controller passes plus the pad calibration, supply, refresh
/// policy, drive mode and termination registers.
pub open spec fn is_init_dram_reg(a: u64) -> bool {
    ||| scan::is_size_scan_reg(a)
    ||| a == bus::RES_CAL_CTRL_REG as u64
    ||| a == bus::RES240_CTRL_REG as u64
    ||| a == bus::ANALOG_PWROFF_GATING_REG as u64
    ||| a == bus::SYS_LDO_CTRL_REG as u64
    ||| a == bus::ASRTC_REG as u64
    ||| a == bus::ASRC_REG as u64
    ||| a == bus::ZQDR_REG as u64
    ||| a == bus::ODTCFG_REG as u64
}

/// Chains the stage frames of the initialization flow: registers outside
/// its set are untouched across the pad calibration, the scans, the final
/// controller pass and the policy writes.
proof fn init_dram_frame(
    g0: Map<u64, u32>,
    g1: Map<u64, u32>,
    g2: Map<u64, u32>,
    g3: Map<u64, u32>,
    g4: Map<u64, u32>,
)
    requires
        bus::regs_preserved_except(g0, g1, |a: u64| is_init_dram_reg(a)),
        bus::regs_preserved_except(g1, g2, |a: u64| scan::is_size_scan_reg(a)),
        bus::regs_preserved_except(g2, g3, |a: u64| channel::is_core_init_reg(a)),
        bus::regs_preserved_except(g3, g4, |a: u64| is_init_dram_reg(a)),
    ensures
        bus::regs_preserved_except(g0, g4, |a: u64| is_init_dram_reg(a)),
{
    assert forall|a: u64| !is_init_dram_reg(a) implies (g4.contains_key(a) == g0.contains_key(a)
        && (g0.contains_key(a) ==> g4[a] == g0[a])) by {
        assert(!scan::is_size_scan_reg(a));
        assert(!channel::is_core_init_reg(a));
        bus::preserved_at(g0, g1, |x: u64| is_init_dram_reg(x), a);
        bus::preserved_at(g1, g2, |x: u64| scan::is_size_scan_reg(x), a);
        bus::preserved_at(g2, g3, |x: u64| channel::is_core_init_reg(x), a);
        bus::preserved_at(g3, g4, |x: u64| is_init_dram_reg(x), a);
    }
}

/// Brings the DRAM controller from cold reset to normal operation and
/// returns the usable memory size in megabytes, or zero when any stage
/// fails.
///
/// The stages run in order: pad calibration and supply voltage, the
/// topology autoscan when `dram_tpr13` bit 0 leaves it enabled, the final
/// controller pass with the resolved topology, the size computation, the
/// self-refresh policy, and the optional self test gated by bit 28.
pub fn init_dram<H: bus::DramBus>(para: &mut params::dram_parameters, hw: &mut H) -> (r: usize)
    requires
        old(para).dram_clk <= 1_000_000,
        old(para).dram_tpr13 & 0x40 != 0 ==> 12 <= old(para).dram_tpr9 <= 1_000_000,
        old(para).dram_tpr13 & 0x40 == 0 ==> 12 <= old(para).dram_clk,
        (old(para).dram_tpr13 >> 2) & 0x3 == 2 ==> (old(para).dram_tpr13 >> 16) & 0x1f >= 2,
    ensures
        final(hw).topo() == old(hw).topo(),
        r != 0 ==> r <= 0x10_0000 && (r as u32) & 0x7fff == (final(para).dram_para2 >> 16) & 0x7fff,
        r != 0 && old(para).dram_tpr13 & 0x1 == 0 && old(para).dram_tpr13 & 0x8000 == 0
            ==> final(para).dram_tpr13 & 0x6003 == 0x6003,
        r != 0 && old(para).dram_tpr13 & 0x1 != 0 ==> exists|sz: u32|
            *final(para) == #[trigger] spec_size_recorded(
                channel::spec_core_init_para(*old(para)),
                sz,
            ),
        (r != 0 && old(para).dram_tpr13 & 0x1 == 0 && old(hw).cells() == Map::<u64, u32>::empty()
            && old(para).dram_para1 == 0 && old(para).dram_para2 == 0 && 9 <= old(
            hw,
        ).topo().page_bits <= 13 && 11 <= old(hw).topo().row_bits <= 16) ==> r
            == scan::spec_chip_size_mb(old(hw).topo()) as usize && final(para).dram_para2 == (
        scan::spec_chip_size_mb(old(hw).topo()) << 16) && final(hw).regs().contains_key(
            bus::MC_WORK_MODE_RANK0_REG as u64,
        ) && final(hw).regs()[bus::MC_WORK_MODE_RANK0_REG as u64] & 0xfff
            == channel::spec_rank_mode_bits(scan::spec_discovered_para1(old(hw).topo()), 0, 0),
        r != 0 ==> exists|mid: u32|
            #[trigger] size_commit_effect(mid, final(para).dram_para2, r),
        r != 0 && old(para).dram_tpr13 & 0x1 != 0 ==> final(hw).regs().contains_key(
            bus::MC_WORK_MODE_RANK0_REG as u64,
        ) && final(hw).regs()[bus::MC_WORK_MODE_RANK0_REG as u64] & 0xfff
            == channel::spec_rank_mode_bits(
            channel::spec_core_init_para(*old(para)).dram_para1,
            channel::spec_core_init_para(*old(para)).dram_para2,
            0,
        ),
        (r != 0 && old(para).dram_tpr13 & 0x1 != 0 && old(para).dram_para2 == 0
            && scan::spec_size_fields_sum(final(hw).regs()[bus::MC_WORK_MODE_RANK0_REG as u64])
            >= 14 && final(hw).regs()[bus::MC_WORK_MODE_RANK0_REG as u64] & 0x3 == 0) ==> r
            == scan::spec_dram_size_mb(
            final(hw).regs()[bus::MC_WORK_MODE_RANK0_REG as u64],
            0,
        ) as usize,
        old(para).dram_tpr13 & 0x1 != 0 && old(para).dram_tpr13 & 0x1000_0000 == 0
            ==> final(hw).cells() == old(hw).cells(),
        bus::regs_preserved_except(old(hw).regs(), final(hw).regs(), |a: u64| is_init_dram_reg(a)),
{
    let ghost mut cfg_para = *old(para);
    // Pad calibration: internal-only ZQ keeps the pads parked, otherwise
    // the external resistor calibration is walked through.
    if para.dram_tpr13 & 0x10000 != 0 {
        let v = hw.read_reg(bus::RES_CAL_CTRL_REG);
        hw.write_reg(bus::RES_CAL_CTRL_REG, v | 0x100);
        hw.write_reg(bus::RES240_CTRL_REG, 0);
        hw.delay_micros(10);
    } else {
        hw.write_reg(bus::ANALOG_PWROFF_GATING_REG, 0);
        let v = hw.read_reg(bus::RES_CAL_CTRL_REG);
        hw.write_reg(bus::RES_CAL_CTRL_REG, v & !0x003u32);
        hw.delay_micros(10);
        let v = hw.read_reg(bus::RES_CAL_CTRL_REG);
        hw.write_reg(bus::RES_CAL_CTRL_REG, v & !0x108u32);
        hw.delay_micros(10);
        let v = hw.read_reg(bus::RES_CAL_CTRL_REG);
        hw.write_reg(bus::RES_CAL_CTRL_REG, v | 0x001);
        hw.delay_micros(20);
    }
    // Set the supply voltage.
    if !get_pmu_exists() {
        dram_vol_set(para, hw);
    } else {
        if para.dram_type == params::DramType::Ddr2 {
            set_ddr_voltage(1800);
        } else if para.dram_type == params::DramType::Ddr3 {
            set_ddr_voltage(1500);
        }
    }
    let ghost g_pad = hw.regs();
    proof {
        assert(bus::regs_preserved_except(old(hw).regs(), g_pad, |a: u64| is_init_dram_reg(a)));
    }
    // Discover the topology where it is not yet resolved.
    if para.dram_tpr13 & 0x1 == 0 {
        match scan::auto_scan_dram_config(para, hw) {
            Ok(()) => (),
            Err(_) => {
                proof {
                    init_dram_frame(old(hw).regs(), g_pad, hw.regs(), hw.regs(), hw.regs());
                }
                return 0;
            },
        }
        proof {
            cfg_para = *para;
            let t = old(para).dram_tpr13;
            assert((t | 0x6003) & 0x6003 == 0x6003 && (t | 0x6003) & 0x40 == t & 0x40 && ((t
                | 0x6003) >> 2) & 0x3 == (t >> 2) & 0x3 && ((t | 0x6003) >> 16) & 0x1f == (t >> 16)
                & 0x1f && (t & 0x6003 == 0x6003 ==> t & 0x1 != 0)) by (bit_vector);
        }
    }
    // Final controller pass with the resolved topology.
    let ghost g_scan = hw.regs();
    match channel::mctl_core_init(para, hw) {
        Ok(()) => (),
        Err(_) => {
            proof {
                init_dram_frame(old(hw).regs(), g_pad, g_scan, hw.regs(), hw.regs());
            }
            return 0;
        },
    }
    let ghost g_core = hw.regs();
    // The size comes from the packed topology word, or is computed from
    // the programmed address allocation and recorded there.
    let ghost mid_p2 = para.dram_para2;
    let mut rc: u32 = para.dram_para2;
    if rc != 0 {
        rc = (rc & 0x7fff0000) >> 16;
        proof {
            let p2 = para.dram_para2;
            assert((p2 & 0x7fff0000) >> 16 == (p2 >> 16) & 0x7fff && (p2 >> 16) & 0x7fff <= 0x7fff
                && ((p2 >> 16) & 0x7fff) & 0x7fff == (p2 >> 16) & 0x7fff) by (bit_vector);
        }
    } else {
        rc = scan::dramc_get_dram_size(hw);
        para.dram_para2 = (para.dram_para2 & 0xffff) | (rc << 16);
        proof {
            let p2 = old(para).dram_para2;
            assert(((0u32 & 0xffff) | (rc << 16)) >> 16 & 0x7fff == rc & 0x7fff && ((0u32 & 0xffff)
                | (rc << 16)) == rc << 16) by (bit_vector);
        }
    }
    let mem_size = rc;
    proof {
        if old(para).dram_tpr13 & 0x1 == 0 && old(hw).cells() == Map::<u64, u32>::empty() && old(
            para,
        ).dram_para1 == 0 && old(para).dram_para2 == 0 && 9 <= old(hw).topo().page_bits <= 13 && 11
            <= old(hw).topo().row_bits <= 16 && mem_size != 0 {
            let p2 = cfg_para.dram_para2;
            assert(p2 <= 0xffff ==> (p2 & 0x7fff0000) >> 16 == 0) by (bit_vector);
            // A nonzero size can only come from the computed path, so the
            // scan left the packed word clear: a single-rank, full-width
            // part whose discovered topology is exact.
            assert(p2 == 0);
            assert(para.dram_para1 == scan::spec_discovered_para1(old(hw).topo()));
            scan::lemma_size_of_discovered(
                hw.regs()[bus::MC_WORK_MODE_RANK0_REG as u64],
                old(hw).topo(),
            );
            assert(mem_size == scan::spec_chip_size_mb(old(hw).topo()));
            assert(para.dram_para2 == scan::spec_chip_size_mb(old(hw).topo()) << 16);
            assert(hw.regs()[bus::MC_WORK_MODE_RANK0_REG as u64] & 0xfff
                == channel::spec_rank_mode_bits(scan::spec_discovered_para1(old(hw).topo()), 0, 0));
        }
    }

    // Auto self-refresh policy.
    if para.dram_tpr13 & 0x4000_0000u32 != 0 {
        let t = hw.read_status(para.dram_tpr8);
        hw.write_reg(
            bus::ASRTC_REG,
            if t == 0 {
                0x10000200
            } else {
                t
            },
        );
        hw.write_reg(bus::ASRC_REG, 0x40a);
        let p = hw.read_reg(bus::PWRCTL_REG);
        hw.write_reg(bus::PWRCTL_REG, p | 0x1);
    } else {
        let v = hw.read_reg(bus::ASRTC_REG);
        hw.write_reg(bus::ASRTC_REG, v & 0xffff0000);
        let p = hw.read_reg(bus::PWRCTL_REG);
        hw.write_reg(bus::PWRCTL_REG, p & !0x1u32);
    }
    // High-drive mode selection.
    let v = hw.read_reg(bus::PGCR0_REG) & !0xf000u32;
    if para.dram_tpr13 & 0x200 == 0 {
        if para.dram_type != params::DramType::Lpddr2 {
            hw.write_reg(bus::PGCR0_REG, v);
        }
    } else {
        hw.write_reg(bus::PGCR0_REG, v | 0x5000);
    }
    // ZQ calibration power-down.
    let z = hw.read_reg(bus::ZQCR_REG);
    hw.write_reg(bus::ZQCR_REG, z | 0x8000_0000u32);
    if para.dram_tpr13 & 0x100 != 0 {
        let z2 = hw.read_reg(bus::ZQCR_REG);
        hw.write_reg(bus::ZQDR_REG, z2 | 0x300);
    }
    // Mode-register command gate.
    let mut m = hw.read_reg(bus::MRCTRL0_REG);
    if para.dram_tpr13 & 0x10000 != 0 {
        m = m & 0xffffdfff;
    } else {
        m = m | 0x00002000;
    }
    hw.write_reg(bus::MRCTRL0_REG, m);
    // Termination configuration for the low-power type.
    if para.dram_type == params::DramType::Lpddr3 {
        let o = hw.read_reg(bus::ODTCFG_REG);
        hw.write_reg(bus::ODTCFG_REG, (o & 0xfff0ffff) | 0x0001000);
    }
    channel::dram_enable_all_master(hw);

    // Optional write/read self test across the lower half of the memory.
    let len: u32 = 4096;
    if para.dram_tpr13 & 0x1000_0000u32 != 0 {
        if hw.read_status(bus::SYS_RESUME_FLAG_REG) & 0x10000 != 0 {
            proof {
                init_dram_frame(old(hw).regs(), g_pad, g_scan, g_core, hw.regs());
            }
            return 0;
        }
        if mem_size > 0x4000 {
            // A size beyond the 32-bit address window cannot be tested.
            proof {
                init_dram_frame(old(hw).regs(), g_pad, g_scan, g_core, hw.regs());
            }
            return 0;
        }
        match scan::dramc_simple_wr_test(hw, mem_size, len) {
            Ok(()) => (),
            Err(_) => {
                proof {
                    init_dram_frame(old(hw).regs(), g_pad, g_scan, g_core, hw.regs());
                }
                return 0;
            },
        }
    }
    handler_super_standby();
    proof {
        init_dram_frame(old(hw).regs(), g_pad, g_scan, g_core, hw.regs());
        assert(size_commit_effect(mid_p2, para.dram_para2, mem_size as usize));
        assert(hw.regs()[bus::MC_WORK_MODE_RANK0_REG as u64] == g_core[
            bus::MC_WORK_MODE_RANK0_REG as u64
        ]);
    }

    proof {
        if old(para).dram_tpr13 & 0x1 != 0 {
            assert(*final(para) == spec_size_recorded(
                channel::spec_core_init_para(*old(para)),
                rc,
            ));
        }
    }
    mem_size as usize
}

/// The vendor parameter record of the supported board.
pub open spec fn dram_para_spec() -> params::dram_parameters {
    params::dram_parameters {
        dram_clk: 792,
        dram_type: params::DramType::Ddr3,
        dram_zq: 0x007b_7bfb,
        dram_odt_en: 0x0000_0001,
        dram_para1: 0x0000_10f2,
        dram_para2: 0x0000_0000,
        dram_mr0: 0x0000_1c70,
        dram_mr1: 0x0000_0042,
        dram_mr2: 0x0000_0000,
        dram_mr3: 0x0000_0000,
        dram_tpr0: 0x004a_2195,
        dram_tpr1: 0x0242_3190,
        dram_tpr2: 0x0008_b061,
        dram_tpr3: 0xb478_7896,
        dram_tpr4: 0x0000_0000,
        dram_tpr5: 0x4848_4848,
        dram_tpr6: 0x0000_0048,
        dram_tpr7: 0x1620_121e,
        dram_tpr8: 0x0000_0000,
        dram_tpr9: 0x0000_0000,
        dram_tpr10: 0x0000_0000,
        dram_tpr11: 0x0076_0000,
        dram_tpr12: 0x0000_0035,
        dram_tpr13: 0x3405_0101,
    }
}

/// Initializes the DRAM with the vendor parameters of the supported board
/// and returns the usable memory size in megabytes: 512 on this board's
/// chips, zero on failure.
pub fn init<H: bus::DramBus>(hw: &mut H) -> (r: usize)
    ensures
        final(hw).topo() == old(hw).topo(),
        r == 0 || r == 512,
{
    let mut dram_para: params::dram_parameters = params::dram_parameters {
        dram_clk: 792,
        dram_type: params::DramType::Ddr3,
        dram_zq: 0x007b_7bfb,
        dram_odt_en: 0x0000_0001,
        dram_para1: 0x0000_10f2,
        dram_para2: 0x0000_0000,
        dram_mr0: 0x0000_1c70,
        dram_mr1: 0x0000_0042,
        dram_mr2: 0x0000_0000,
        dram_mr3: 0x0000_0000,
        dram_tpr0: 0x004a_2195,
        dram_tpr1: 0x0242_3190,
        dram_tpr2: 0x0008_b061,
        dram_tpr3: 0xb478_7896,
        dram_tpr4: 0x0000_0000,
        dram_tpr5: 0x4848_4848,
        dram_tpr6: 0x0000_0048,
        dram_tpr7: 0x1620_121e,
        dram_tpr8: 0x0000_0000,
        dram_tpr9: 0x0000_0000,
        dram_tpr10: 0x0000_0000,
        dram_tpr11: 0x0076_0000,
        dram_tpr12: 0x0000_0035,
        dram_tpr13: 0x3405_0101,
    };
    proof {
        assert((0x3405_0101u32 >> 2) & 0x3 != 2 && 0x3405_0101u32 & 0x40 == 0 && 0x3405_0101u32
            & 0x1 != 0) by (bit_vector);
    }
    let r = init_dram(&mut dram_para, hw);
    proof {
        if r != 0 {
            // The vendor record describes one rank of eight-bank chips with
            // 2-kilobyte pages and fifteen row lines: half a gigabyte.
            assert(((0x10f2u32 >> 12) << 2) & 0x4 == 4 && 0x10f2u32 >> 4 == 0x10f && (((
            0x10fu32 - 1) as u32) << 4) & 0xff == 0xe0 && 0x10f2u32 & 0xf == 2 && (0u32 >> 12)
                & 0x3 == 0 && ((0u32 | 4u32) | 0xe0u32) | 0x800u32 == 0x8e4) by (bit_vector);
            let q = channel::spec_core_init_para(dram_para_spec());
            assert(q.dram_para1 == 0x10f2 && q.dram_para2 == 0);
            assert(channel::spec_rank_mode_bits(0x10f2, 0, 0) == 0x8e4);
            let low = hw.regs()[bus::MC_WORK_MODE_RANK0_REG as u64];
            assert(low & 0xfff == 0x8e4 ==> (low >> 8) & 0xf == 8 && (low >> 4) & 0xf == 14 && (low
                >> 2) & 0x3 == 1 && low & 0x3 == 0 && 1u32 << ((8 + 14 + 1 - 14) as u32) == 512)
                by (bit_vector);
            assert(scan::spec_size_fields_sum(low) == 23);
            assert(scan::spec_dram_size_mb(low, 0) == 512);
        }
    }
    r
}

} // verus!
