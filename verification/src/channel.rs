//! PHY and digital controller programming: clock and PLL bring-up, voltage
//! references, work-mode configuration, eye-delay compensation and the PHY
//! training command sequence.

use vstd::prelude::*;

use crate::bus::{
    regs_preserved_except, wait_for_status, wait_reg_value, DramBus, ACIOCR0_REG,
    ANALOG_SYS_CFG_REG, CLKEN_REG, DRAM_BGR_REG, DRAM_CLK_REG, DTCR_REG, DX0GCR0_REG,
    DX0GSR0_REG, DX0IOCR_BASE, DX1GCR0_REG, DX1GSR0_REG, DX1IOCR_BASE, DXCCR_REG, IOVCR0_REG,
    IOVCR1_REG, MBUS_CLK_REG, MC_MAER0_REG, MC_MAER1_REG, MC_MAER2_REG, MC_TMR_REG, MC_UNK08_REG,
    MC_UNK14_REG, MC_WORK_MODE_RANK0_REG, MC_WORK_MODE_RANK1_REG, MRCTRL0_REG, ODTMAP_REG,
    PGCR0_REG, PGCR3_REG, PGSR0_REG, PIR_REG, PLL_DDR_CTRL_REG, PLL_SSCG_REG, PWRCTL_REG,
    RFSHCTL0_REG, STATR_REG, SYS_RESUME_FLAG_REG, ZQCR_REG,
};
use crate::params::{dram_parameters, DramError, DramType};

verus! {

/// Grants every bus master access to the DRAM port.
pub fn dram_enable_all_master<H: DramBus>(hw: &mut H)
    ensures
        final(hw).regs() == old(hw).regs().insert(MC_MAER0_REG as u64, 0xffffffff).insert(
            MC_MAER1_REG as u64,
            0xff,
        ).insert(MC_MAER2_REG as u64, 0xffff),
        final(hw).cells() == old(hw).cells(),
        final(hw).topo() == old(hw).topo(),
{
    hw.write_reg(MC_MAER0_REG, 0xffffffff);
    hw.write_reg(MC_MAER1_REG, 0xff);
    hw.write_reg(MC_MAER2_REG, 0xffff);
    hw.delay_micros(10);
}

/// Restricts DRAM access to the boot core alone.
pub fn dram_disable_all_master<H: DramBus>(hw: &mut H)
    ensures
        final(hw).regs() == old(hw).regs().insert(MC_MAER0_REG as u64, 1).insert(
            MC_MAER1_REG as u64,
            0,
        ).insert(MC_MAER2_REG as u64, 0),
        final(hw).cells() == old(hw).cells(),
        final(hw).topo() == old(hw).topo(),
{
    hw.write_reg(MC_MAER0_REG, 1);
    hw.write_reg(MC_MAER1_REG, 0);
    hw.write_reg(MC_MAER2_REG, 0);
    hw.delay_micros(10);
}

/// The DRAM clock the PLL divider search settles on for a requested clock:
/// with the fixed dividers `m0 = 2`, `m1 = 1`, the feedback factor is
/// `clock * 2 / 24` and the output `n * 24 / 2`.
pub open spec fn spec_pll_output(should_override: bool, overrided: int, origin: int) -> int {
    let clk = if should_override {
        overrided
    } else {
        origin
    };
    (clk * 2 / 24) * 24 / 2
}

/// Registers the PLL bring-up touches.
pub open spec fn is_pll_reg(a: u64) -> bool {
    a == PLL_DDR_CTRL_REG as u64 || a == DRAM_CLK_REG as u64
}

/// The feedback factor the divider search settles on for the selected
/// clock.
pub open spec fn spec_pll_n(should_override: bool, overrided: u32, origin: u32) -> u32 {
    (((if should_override {
        overrided
    } else {
        origin
    }) * 2 / 24) as u32)
}

/// The PLL control word while the lock restarts: divider fields `n - 1` in
/// bits 15:8 and the fixed dividers in bits 1:0, output gated, PLL and its
/// regulator enabled, lock enable raised.
pub open spec fn spec_pll_lock_word(base: u32, n: u32) -> u32 {
    let v0 = (base & !(0xffu32 << 8) & !0x3u32 & !(1u32 << 27)) | ((((n - 1) as u32) & 0xff) << 8)
        | (((1u32 - 1) as u32) << 1) | ((2u32 - 1) as u32) | (1u32 << 31) | (1u32 << 30);
    (v0 & !(1u32 << 29)) | (1u32 << 29)
}

/// The PLL control word once the output gate opens.
pub open spec fn spec_pll_final_word(base: u32, n: u32) -> u32 {
    spec_pll_lock_word(base, n) | (1u32 << 27)
}

/// The DRAM clock word: PLL source, unit dividers, gate open.
pub open spec fn spec_dram_clk_word(dc: u32) -> u32 {
    (dc & !(0x7u32 << 24) & !(0x3u32 << 8) & !0x3u32) | (1u32 << 31)
}

/// The register file after a successful PLL bring-up, given the reset
/// value `base` the control register showed and the value `dc` the clock
/// register held.
pub open spec fn pll_effect(n: u32, base: u32, dc: u32, o: Map<u64, u32>, nw: Map<u64, u32>) -> bool {
    &&& nw == o.insert(PLL_DDR_CTRL_REG as u64, spec_pll_final_word(base, n)).insert(
        DRAM_CLK_REG as u64,
        spec_dram_clk_word(dc),
    )
    &&& (o.contains_key(DRAM_CLK_REG as u64) ==> dc == o[DRAM_CLK_REG as u64])
}

/// The register file after a PLL bring-up the lock wait gave up on: the
/// control word stands programmed, the clock register untouched.
pub open spec fn pll_prep_effect(n: u32, base: u32, o: Map<u64, u32>, nw: Map<u64, u32>) -> bool {
    nw == o.insert(PLL_DDR_CTRL_REG as u64, spec_pll_lock_word(base, n))
}

/// Programs the DRAM PLL to the target frequency, restarts its lock, waits
/// for it, opens its output and routes it to the DRAM clock. Returns the
/// clock the divider search settled on, or reports a PLL that never locks.
pub fn ccm_set_pll_ddr_clk<H: DramBus>(
    should_override: bool,
    overrided_dram_clk: u32,
    origin_dram_clk: u32,
    hw: &mut H,
) -> (r: Result<u32, DramError>)
    requires
        12 <= (if should_override {
            overrided_dram_clk
        } else {
            origin_dram_clk
        }) <= 1_000_000,
    ensures
        final(hw).cells() == old(hw).cells(),
        final(hw).topo() == old(hw).topo(),
        regs_preserved_except(old(hw).regs(), final(hw).regs(), |a: u64| is_pll_reg(a)),
        match r {
            Ok(clk) => clk == spec_pll_output(
                should_override,
                overrided_dram_clk as int,
                origin_dram_clk as int,
            ) && exists|base: u32, dc: u32|
                #[trigger] pll_effect(
                    spec_pll_n(should_override, overrided_dram_clk, origin_dram_clk),
                    base,
                    dc,
                    old(hw).regs(),
                    final(hw).regs(),
                ),
            Err(e) => e == DramError::NotResponding && exists|base: u32|
                #[trigger] pll_prep_effect(
                    spec_pll_n(should_override, overrided_dram_clk, origin_dram_clk),
                    base,
                    old(hw).regs(),
                    final(hw).regs(),
                ),
        },
{
    let clk: u32 = if should_override {
        overrided_dram_clk
    } else {
        origin_dram_clk
    };
    let m0: u32 = 2;
    let m1: u32 = 1;
    let n: u32 = clk * m0 * m1 / 24;

    // Program the divider fields, enable the PLL and its regulator, and
    // gate its output while it settles.
    let base = hw.read_status(PLL_DDR_CTRL_REG);
    let val: u32 = (base & !(0xffu32 << 8) & !0x3u32 & !(1u32 << 27)) | (((n - 1) & 0xff) << 8) | (
    (m1 - 1) << 1) | (m0 - 1) | (1u32 << 31) | (1u32 << 30);
    hw.write_reg(PLL_DDR_CTRL_REG, val);

    // Restart PLL locking.
    let val = val & !(1u32 << 29);
    hw.write_reg(PLL_DDR_CTRL_REG, val);
    let val = val | (1u32 << 29);
    hw.write_reg(PLL_DDR_CTRL_REG, val);

    // Wait for the PLL to lock.
    if !wait_for_status(hw, PLL_DDR_CTRL_REG, 1u32 << 28, 1u32 << 28) {
        proof {
            assert(val == spec_pll_lock_word(base, n));
            assert(hw.regs() =~= old(hw).regs().insert(
                PLL_DDR_CTRL_REG as u64,
                spec_pll_lock_word(base, n),
            ));
            assert(pll_prep_effect(
                spec_pll_n(should_override, overrided_dram_clk, origin_dram_clk),
                base,
                old(hw).regs(),
                hw.regs(),
            ));
        }
        return Err(DramError::NotResponding);
    }

    // Open the PLL output.
    let cur = hw.read_reg(PLL_DDR_CTRL_REG);
    hw.write_reg(PLL_DDR_CTRL_REG, cur | (1u32 << 27));

    // Select the PLL as the DRAM clock source and ungate it.
    let dc = hw.read_reg(DRAM_CLK_REG);
    hw.write_reg(
        DRAM_CLK_REG,
        (dc & !(0x7u32 << 24) & !(0x3u32 << 8) & !0x3u32) | (1u32 << 31),
    );

    proof {
        assert(cur | (1u32 << 27) == spec_pll_final_word(base, n));
        assert(hw.regs() =~= old(hw).regs().insert(
            PLL_DDR_CTRL_REG as u64,
            spec_pll_final_word(base, n),
        ).insert(DRAM_CLK_REG as u64, spec_dram_clk_word(dc)));
        assert(pll_effect(
            spec_pll_n(should_override, overrided_dram_clk, origin_dram_clk),
            base,
            dc,
            old(hw).regs(),
            hw.regs(),
        ));
    }
    Ok(n * 24 / (m0 * m1))
}

/// Registers the system bring-up touches: resets, gates, the PLL pair, the
/// master enables and the controller clock.
pub open spec fn is_sys_init_reg(a: u64) -> bool {
    ||| is_pll_reg(a)
    ||| a == MBUS_CLK_REG as u64
    ||| a == DRAM_BGR_REG as u64
    ||| a == MC_MAER0_REG as u64
    ||| a == MC_MAER1_REG as u64
    ||| a == MC_MAER2_REG as u64
    ||| a == CLKEN_REG as u64
}

/// The register file after a successful system bring-up, given the values
/// `m`, `b` and `d0` the MBUS, gating and clock registers held and the
/// reset value `base` of the PLL control register: resets released, gates
/// open, PLL programmed, masters restricted, controller clock enabled.
pub open spec fn sys_init_effect(
    n: u32,
    m: u32,
    b: u32,
    d0: u32,
    base: u32,
    o: Map<u64, u32>,
    nw: Map<u64, u32>,
) -> bool {
    let d2 = (d0 & !(1u32 << 31)) | (1u32 << 31);
    &&& nw == o.insert(MBUS_CLK_REG as u64, (m & !(1u32 << 30)) | (1u32 << 30)).insert(
        DRAM_BGR_REG as u64,
        (((b & !0x10001u32) & !0x1u32) | (1u32 << 16)) | 0x1u32,
    ).insert(PLL_DDR_CTRL_REG as u64, spec_pll_final_word(base, n)).insert(
        MC_MAER0_REG as u64,
        1,
    ).insert(MC_MAER1_REG as u64, 0).insert(MC_MAER2_REG as u64, 0).insert(
        DRAM_CLK_REG as u64,
        spec_dram_clk_word(d2) | (1u32 << 31) | (1u32 << 27),
    ).insert(CLKEN_REG as u64, 0x8000)
    &&& (o.contains_key(MBUS_CLK_REG as u64) ==> m == o[MBUS_CLK_REG as u64])
    &&& (o.contains_key(DRAM_BGR_REG as u64) ==> b == o[DRAM_BGR_REG as u64])
    &&& (o.contains_key(DRAM_CLK_REG as u64) ==> d0 == o[DRAM_CLK_REG as u64])
}

/// The register file after a system bring-up whose PLL never locked:
/// resets still asserted, the PLL control word programmed.
pub open spec fn sys_init_err_effect(
    n: u32,
    m: u32,
    b: u32,
    d0: u32,
    base: u32,
    o: Map<u64, u32>,
    nw: Map<u64, u32>,
) -> bool {
    &&& nw == o.insert(MBUS_CLK_REG as u64, m & !(1u32 << 30)).insert(
        DRAM_BGR_REG as u64,
        b & !0x10001u32,
    ).insert(DRAM_CLK_REG as u64, (d0 & !(1u32 << 31)) | (1u32 << 31)).insert(
        PLL_DDR_CTRL_REG as u64,
        spec_pll_lock_word(base, n),
    )
    &&& (o.contains_key(MBUS_CLK_REG as u64) ==> m == o[MBUS_CLK_REG as u64])
    &&& (o.contains_key(DRAM_BGR_REG as u64) ==> b == o[DRAM_BGR_REG as u64])
    &&& (o.contains_key(DRAM_CLK_REG as u64) ==> d0 == o[DRAM_CLK_REG as u64])
}

/// Brings the clock tree of the controller up: asserts the bus resets,
/// programs the DRAM PLL, releases the resets and enables the controller
/// clock. On success `dram_clk` holds the clock the PLL settled on.
pub fn mctl_sys_init<H: DramBus>(
    should_override: bool,
    overrided_dram_clk: u32,
    dram_clk: &mut u32,
    hw: &mut H,
) -> (r: Result<(), DramError>)
    requires
        12 <= (if should_override {
            overrided_dram_clk
        } else {
            *old(dram_clk)
        }) <= 1_000_000,
    ensures
        final(hw).cells() == old(hw).cells(),
        final(hw).topo() == old(hw).topo(),
        regs_preserved_except(old(hw).regs(), final(hw).regs(), |a: u64| is_sys_init_reg(a)),
        match r {
            Ok(()) => *final(dram_clk) == spec_pll_output(
                should_override,
                overrided_dram_clk as int,
                *old(dram_clk) as int,
            ) && exists|m: u32, b: u32, d0: u32, base: u32|
                #[trigger] sys_init_effect(
                    spec_pll_n(should_override, overrided_dram_clk, *old(dram_clk)),
                    m,
                    b,
                    d0,
                    base,
                    old(hw).regs(),
                    final(hw).regs(),
                ),
            Err(e) => e == DramError::NotResponding && exists|m: u32, b: u32, d0: u32, base: u32|
                #[trigger] sys_init_err_effect(
                    spec_pll_n(should_override, overrided_dram_clk, *old(dram_clk)),
                    m,
                    b,
                    d0,
                    base,
                    old(hw).regs(),
                    final(hw).regs(),
                ),
        },
{
    // Assert the MBUS reset.
    let mv = hw.read_reg(MBUS_CLK_REG);
    hw.write_reg(MBUS_CLK_REG, mv & !(1u32 << 30));

    // Gate the DRAM clock off and assert the DRAM reset.
    let bv = hw.read_reg(DRAM_BGR_REG);
    hw.write_reg(DRAM_BGR_REG, bv & !0x10001u32);
    let d0 = hw.read_reg(DRAM_CLK_REG);
    hw.write_reg(DRAM_CLK_REG, d0 & !(1u32 << 31));
    let v = hw.read_reg(DRAM_CLK_REG);
    hw.write_reg(DRAM_CLK_REG, v | (1u32 << 31));
    hw.delay_micros(10);

    // Set the DRAM PLL clock.
    let ghost m1 = hw.regs();
    let ghost n_spec = spec_pll_n(should_override, overrided_dram_clk, *old(dram_clk));
    let clk = match ccm_set_pll_ddr_clk(should_override, overrided_dram_clk, *dram_clk, hw) {
        Ok(c) => c,
        Err(e) => {
            proof {
                assert forall|a: u64| !is_sys_init_reg(a) implies (hw.regs().contains_key(a) == old(
                    hw,
                ).regs().contains_key(a) && (old(hw).regs().contains_key(a) ==> hw.regs()[a] == old(
                    hw,
                ).regs()[a])) by {
                    assert(!is_pll_reg(a));
                    assert(m1.contains_key(a) == old(hw).regs().contains_key(a) && (old(
                        hw,
                    ).regs().contains_key(a) ==> m1[a] == old(hw).regs()[a]));
                }
                let base = choose|base: u32| pll_prep_effect(n_spec, base, m1, hw.regs());
                assert(hw.regs() =~= old(hw).regs().insert(
                    MBUS_CLK_REG as u64,
                    mv & !(1u32 << 30),
                ).insert(DRAM_BGR_REG as u64, bv & !0x10001u32).insert(
                    DRAM_CLK_REG as u64,
                    (d0 & !(1u32 << 31)) | (1u32 << 31),
                ).insert(PLL_DDR_CTRL_REG as u64, spec_pll_lock_word(base, n_spec)));
                assert(sys_init_err_effect(
                    n_spec,
                    mv,
                    bv,
                    d0,
                    base,
                    old(hw).regs(),
                    hw.regs(),
                ));
            }
            return Err(e);
        },
    };
    let ghost m2 = hw.regs();
    *dram_clk = clk;
    hw.delay_micros(100);
    dram_disable_all_master(hw);

    // Release the DRAM reset, then the MBUS reset.
    let v = hw.read_reg(DRAM_BGR_REG);
    hw.write_reg(DRAM_BGR_REG, (v & !0x1u32) | (1u32 << 16));
    let v = hw.read_reg(MBUS_CLK_REG);
    hw.write_reg(MBUS_CLK_REG, v | (1u32 << 30));
    hw.delay_micros(5);

    // Open the DRAM clock gate.
    let v = hw.read_reg(DRAM_BGR_REG);
    hw.write_reg(DRAM_BGR_REG, v | 0x1u32);

    // Open the clock gate and trigger the clock update.
    let v = hw.read_reg(DRAM_CLK_REG);
    hw.write_reg(DRAM_CLK_REG, v | (1u32 << 31) | (1u32 << 27));
    hw.delay_micros(5);

    // Enable the controller clock.
    hw.write_reg(CLKEN_REG, 0x8000);
    hw.delay_micros(10);
    proof {
        let ghost d2 = (d0 & !(1u32 << 31)) | (1u32 << 31);
        let (base, dc): (u32, u32) = choose|base: u32, dc: u32|
            pll_effect(n_spec, base, dc, m1, m2);
        assert(dc == d2);
        assert(hw.regs() =~= old(hw).regs().insert(
            MBUS_CLK_REG as u64,
            (mv & !(1u32 << 30)) | (1u32 << 30),
        ).insert(
            DRAM_BGR_REG as u64,
            (((bv & !0x10001u32) & !0x1u32) | (1u32 << 16)) | 0x1u32,
        ).insert(PLL_DDR_CTRL_REG as u64, spec_pll_final_word(base, n_spec)).insert(
            MC_MAER0_REG as u64,
            1,
        ).insert(MC_MAER1_REG as u64, 0).insert(MC_MAER2_REG as u64, 0).insert(
            DRAM_CLK_REG as u64,
            spec_dram_clk_word(d2) | (1u32 << 31) | (1u32 << 27),
        ).insert(CLKEN_REG as u64, 0x8000));
        assert(sys_init_effect(n_spec, mv, bv, d0, base, old(hw).regs(), hw.regs()));
    }
    Ok(())
}

/// The register file after the voltage-reference stage, given the values
/// `v0` and `v1` the two calibration registers held: bit 17 of the switch
/// word freezes both, bit 16 freezes the data-lane register alone.
pub open spec fn vrefzq_effect(
    tpr13: u32,
    tpr5: u32,
    tpr6: u32,
    v0: u32,
    v1: u32,
    o: Map<u64, u32>,
    nw: Map<u64, u32>,
) -> bool {
    if tpr13 & 0x20000 != 0 {
        nw == o
    } else {
        &&& (o.contains_key(IOVCR0_REG as u64) ==> v0 == o[IOVCR0_REG as u64])
        &&& if tpr13 & 0x10000 != 0 {
            nw == o.insert(IOVCR0_REG as u64, (v0 & 0x80808080) | tpr5)
        } else {
            &&& nw == o.insert(IOVCR0_REG as u64, (v0 & 0x80808080) | tpr5).insert(
                IOVCR1_REG as u64,
                (v1 & 0xffffff80) | (tpr6 & 0x7f),
            )
            &&& (o.contains_key(IOVCR1_REG as u64) ==> v1 == o[IOVCR1_REG as u64])
        }
    }
}

/// Programs the voltage-reference and I/O calibration registers from the
/// tuning fields, unless bit 17 of `dram_tpr13` freezes them.
pub fn mctl_vrefzq_init<H: DramBus>(para: &dram_parameters, hw: &mut H)
    ensures
        final(hw).cells() == old(hw).cells(),
        final(hw).topo() == old(hw).topo(),
        regs_preserved_except(
            old(hw).regs(),
            final(hw).regs(),
            |a: u64| a == IOVCR0_REG as u64 || a == IOVCR1_REG as u64,
        ),
        exists|v0: u32, v1: u32|
            #[trigger] vrefzq_effect(
                para.dram_tpr13,
                para.dram_tpr5,
                para.dram_tpr6,
                v0,
                v1,
                old(hw).regs(),
                final(hw).regs(),
            ),
{
    if para.dram_tpr13 & 0x20000 == 0 {
        let v = hw.read_reg(IOVCR0_REG);
        hw.write_reg(IOVCR0_REG, (v & 0x80808080) | para.dram_tpr5);
        if para.dram_tpr13 & 0x10000 == 0 {
            let v1 = hw.read_reg(IOVCR1_REG);
            hw.write_reg(IOVCR1_REG, (v1 & 0xffffff80) | (para.dram_tpr6 & 0x7f));
            proof {
                assert(vrefzq_effect(
                    para.dram_tpr13,
                    para.dram_tpr5,
                    para.dram_tpr6,
                    v,
                    v1,
                    old(hw).regs(),
                    hw.regs(),
                ));
            }
        } else {
            proof {
                assert(vrefzq_effect(
                    para.dram_tpr13,
                    para.dram_tpr5,
                    para.dram_tpr6,
                    v,
                    0,
                    old(hw).regs(),
                    hw.regs(),
                ));
            }
        }
    } else {
        proof {
            assert(vrefzq_effect(
                para.dram_tpr13,
                para.dram_tpr5,
                para.dram_tpr6,
                0,
                0,
                old(hw).regs(),
                hw.regs(),
            ));
        }
    }
}

/// The low twelve work-mode bits for one rank: the rank count in bits 1:0,
/// the bank code in bit 2, row count minus one in bits 7:4, and the
/// page-size code in bits 11:8, all drawn from the packed topology words.
pub open spec fn spec_rank_mode_bits(para1: u32, para2: u32, rank: int) -> u32 {
    let p = if rank == 0 {
        para1
    } else {
        para1 >> 16
    };
    let rankbits = (para2 >> 12) & 0x3;
    let bank = ((p >> 12) << 2) & 0x4;
    let rw = p >> 4;
    let rwm1: u32 = if rw == 0 {
        0xffffffffu32
    } else {
        (rw - 1) as u32
    };
    let row = (rwm1 << 4) & 0xff;
    let page: u32 = if (p & 0xf) == 8 {
        0xa00
    } else if (p & 0xf) == 4 {
        0x900
    } else if (p & 0xf) == 2 {
        0x800
    } else if (p & 0xf) == 1 {
        0x700
    } else {
        0x600
    };
    rankbits | bank | row | page
}

/// Whether the packed topology words describe two ranks.
pub open spec fn spec_dual_rank(para2: u32) -> bool {
    para2 & 0x100 != 0 && (para2 >> 12) & 0xf != 1
}

/// The upper work-mode fields the configuration stage programs for rank
/// zero: the memory type code in bits 18:16, the DQ-width flag in bit 12,
/// the burst mode in bit 22, and the command timing in bit 19, which the
/// low-power types force to one-cycle mode.
pub open spec fn spec_wm0_upper_ok(p: dram_parameters, w: u32) -> bool {
    &&& (w >> 16) & 0x7 == p.dram_type.spec_code() & 0x7
    &&& (w >> 12) & 0x1 == (!p.dram_para2) & 0x1
    &&& (w >> 22) & 0x1 == 1
    &&& (p.dram_type != DramType::Lpddr2 && p.dram_type != DramType::Lpddr3 ==> (w >> 19) & 0x1
        == (p.dram_tpr13 >> 5) & 0x1)
    &&& (p.dram_type == DramType::Lpddr2 || p.dram_type == DramType::Lpddr3 ==> (w >> 19) & 0x1
        == 1)
}

/// Registers the work-mode configuration touches.
pub open spec fn is_com_init_reg(a: u64) -> bool {
    ||| a == MC_UNK08_REG as u64
    ||| a == MC_WORK_MODE_RANK0_REG as u64
    ||| a == MC_WORK_MODE_RANK1_REG as u64
    ||| a == ODTMAP_REG as u64
    ||| a == DX1GCR0_REG as u64
}

/// Copies the address topology of `dram_para1` / `dram_para2` into the
/// controller's work-mode registers: memory type, DQ width, and the
/// rank/bank/row/page allocation per rank, then sets the termination map.
pub fn mctl_com_init<H: DramBus>(para: &dram_parameters, hw: &mut H)
    ensures
        final(hw).cells() == old(hw).cells(),
        final(hw).topo() == old(hw).topo(),
        regs_preserved_except(old(hw).regs(), final(hw).regs(), |a: u64| is_com_init_reg(a)),
        final(hw).regs().contains_key(MC_WORK_MODE_RANK0_REG as u64),
        final(hw).regs()[MC_WORK_MODE_RANK0_REG as u64] & 0xfff == spec_rank_mode_bits(
            para.dram_para1,
            para.dram_para2,
            0,
        ),
        spec_dual_rank(para.dram_para2) ==> final(hw).regs().contains_key(
            MC_WORK_MODE_RANK1_REG as u64,
        ) && final(hw).regs()[MC_WORK_MODE_RANK1_REG as u64] & 0xfff == spec_rank_mode_bits(
            para.dram_para1,
            para.dram_para2,
            1,
        ),
        spec_wm0_upper_ok(*para, final(hw).regs()[MC_WORK_MODE_RANK0_REG as u64]),
{
    let v = hw.read_reg(MC_UNK08_REG);
    hw.write_reg(MC_UNK08_REG, (v & 0xffffc0ff) | 0x2000);

    // Set the memory type and word width.
    let b = hw.read_reg(MC_WORK_MODE_RANK0_REG);
    let mut val = b & 0xff000fff;
    let c = para.dram_type.code();
    let np: u32 = !para.dram_para2;
    let tt: u32 = para.dram_tpr13 >> 5;
    val = val | ((c & 0x7) << 16);
    val = val | ((np & 0x1) << 12);
    if para.dram_type != DramType::Lpddr2 && para.dram_type != DramType::Lpddr3 {
        val = val | ((tt & 0x1) << 19);
        val = val | 0x400000;
        proof {
            assert({
                let w = ((((b & 0xff000fff) | ((c & 0x7) << 16)) | ((np & 0x1) << 12)) | ((tt
                    & 0x1) << 19)) | 0x400000;
                &&& (w >> 16) & 0x7 == c & 0x7
                &&& (w >> 12) & 0x1 == np & 0x1
                &&& (w >> 22) & 0x1 == 1
                &&& (w >> 19) & 0x1 == tt & 0x1
            }) by (bit_vector);
        }
    } else {
        val = val | 0x480000;
        proof {
            assert({
                let w = (((b & 0xff000fff) | ((c & 0x7) << 16)) | ((np & 0x1) << 12)) | 0x480000;
                &&& (w >> 16) & 0x7 == c & 0x7
                &&& (w >> 12) & 0x1 == np & 0x1
                &&& (w >> 22) & 0x1 == 1
                &&& (w >> 19) & 0x1 == 1
            }) by (bit_vector);
        }
    }
    hw.write_reg(MC_WORK_MODE_RANK0_REG, val);

    // Set rank, bank, row and page allocation per rank.
    let dual: bool = (para.dram_para2 & 0x100) != 0 && (para.dram_para2 >> 12) & 0xf != 1;
    let w0 = hw.read_reg(MC_WORK_MODE_RANK0_REG);
    let f0 = rank_mode_bits(para.dram_para1, para.dram_para2, false);
    hw.write_reg(MC_WORK_MODE_RANK0_REG, (w0 & 0xfffff000) | f0);
    wait_reg_value(hw, MC_WORK_MODE_RANK0_REG, (w0 & 0xfffff000) | f0);
    proof {
        assert(f0 <= 0xfff ==> {
            let m = (w0 & 0xfffff000) | f0;
            &&& m & 0xfff == f0
            &&& (m >> 16) & 0x7 == (w0 >> 16) & 0x7
            &&& (m >> 12) & 0x1 == (w0 >> 12) & 0x1
            &&& (m >> 22) & 0x1 == (w0 >> 22) & 0x1
            &&& (m >> 19) & 0x1 == (w0 >> 19) & 0x1
        }) by (bit_vector);
    }
    if dual {
        let w1 = hw.read_reg(MC_WORK_MODE_RANK1_REG);
        let f1 = rank_mode_bits(para.dram_para1, para.dram_para2, true);
        hw.write_reg(MC_WORK_MODE_RANK1_REG, (w1 & 0xfffff000) | f1);
        wait_reg_value(hw, MC_WORK_MODE_RANK1_REG, (w1 & 0xfffff000) | f1);
        proof {
            assert(f1 <= 0xfff ==> ((w1 & 0xfffff000) | f1) & 0xfff == f1) by (bit_vector);
        }
    }
    // Set the termination map from the rank count in use.
    let wm = hw.read_reg(MC_WORK_MODE_RANK0_REG);
    let odt: u32 = if wm & 0x1 == 0 {
        0x201
    } else {
        0x303
    };
    hw.write_reg(ODTMAP_REG, odt);

    // Clear the second byte lane when running half DQ width.
    if para.dram_para2 & 0x1 != 0 {
        hw.write_reg(DX1GCR0_REG, 0);
    }
    // Apply the optional output-driver tuning.
    if para.dram_tpr4 > 0 {
        let x = hw.read_reg(MC_WORK_MODE_RANK0_REG);
        let t4 = para.dram_tpr4;
        let v = x | ((t4 << 25) & 0x06000000);
        proof {
            assert({
                let m = x | ((t4 << 25) & 0x06000000);
                &&& m & 0xfff == x & 0xfff
                &&& (m >> 16) & 0x7 == (x >> 16) & 0x7
                &&& (m >> 12) & 0x1 == (x >> 12) & 0x1
                &&& (m >> 22) & 0x1 == (x >> 22) & 0x1
                &&& (m >> 19) & 0x1 == (x >> 19) & 0x1
            }) by (bit_vector);
        }
        hw.write_reg(MC_WORK_MODE_RANK0_REG, v);
        let x1 = hw.read_reg(MC_WORK_MODE_RANK1_REG);
        let v1 = x1 | (((t4 >> 2) << 12) & 0x001ff000);
        proof {
            assert((x1 | (((t4 >> 2) << 12) & 0x001ff000)) & 0xfff == x1 & 0xfff) by (bit_vector);
        }
        hw.write_reg(MC_WORK_MODE_RANK1_REG, v1);
    }
}

/// Registers the eye-delay compensation touches: the per-lane I/O control
/// blocks, the loopback FIFO control and the lane delay banks.
pub open spec fn is_eye_delay_reg(a: u64) -> bool {
    ||| (DX0IOCR_BASE as u64 <= a && a < DX0IOCR_BASE as u64 + 36)
    ||| (DX1IOCR_BASE as u64 <= a && a < DX1IOCR_BASE as u64 + 36)
    ||| a == PGCR0_REG as u64
    ||| a == 0x3103334
    ||| a == 0x3103338
    ||| a == 0x31033b4
    ||| a == 0x31033b8
    ||| a == 0x310333c
    ||| a == 0x31033bc
    ||| (0x3103240 <= a && a < 0x3103240 + 60)
    ||| (0x3103228 <= a && a < 0x3103228 + 24)
    ||| a == 0x3103218
    ||| a == 0x310321c
    ||| a == 0x3103280
}

/// Reads each of `count` registers at stride four from `base` and writes
/// it back with `bits` OR-ed in.
fn or_into_range<H: DramBus>(hw: &mut H, base: u32, count: u32, bits: u32)
    requires
        base + 4 * count <= u32::MAX,
    ensures
        final(hw).cells() == old(hw).cells(),
        final(hw).topo() == old(hw).topo(),
        forall|k: int|
            0 <= k < count ==> #[trigger] reg_holds(
                old(hw).regs(),
                final(hw).regs(),
                (base + 4 * k) as u64,
                old(hw).regs()[(base + 4 * k) as u64] | bits,
            ),
        regs_preserved_except(
            old(hw).regs(),
            final(hw).regs(),
            |a: u64| base as u64 <= a && a < base as u64 + 4 * (count as u64),
        ),
{
    let mut i: u32 = 0;
    while i < count
        invariant
            i <= count,
            base + 4 * count <= u32::MAX,
            hw.cells() == old(hw).cells(),
            hw.topo() == old(hw).topo(),
            forall|k: int|
                0 <= k < i ==> #[trigger] reg_holds(
                    old(hw).regs(),
                    hw.regs(),
                    (base + 4 * k) as u64,
                    old(hw).regs()[(base + 4 * k) as u64] | bits,
                ),
            regs_preserved_except(
                old(hw).regs(),
                hw.regs(),
                |a: u64| base as u64 <= a && a < base as u64 + 4 * (i as u64),
            ),
        decreases count - i,
    {
        let addr: u32 = base + 4 * i;
        let ghost cur = hw.regs();
        proof {
            crate::bus::preserved_at(
                old(hw).regs(),
                cur,
                |a: u64| base as u64 <= a && a < base as u64 + 4 * (i as u64),
                addr as u64,
            );
        }
        let v = hw.read_reg(addr);
        hw.write_reg(addr, v | bits);
        proof {
            assert((base + 4 * (i as int)) as u64 == addr as u64);
            assert forall|k: int| 0 <= k < i + 1 implies #[trigger] reg_holds(
                old(hw).regs(),
                hw.regs(),
                (base + 4 * k) as u64,
                old(hw).regs()[(base + 4 * k) as u64] | bits,
            ) by {
                if k < i {
                    assert(reg_holds(
                        old(hw).regs(),
                        cur,
                        (base + 4 * k) as u64,
                        old(hw).regs()[(base + 4 * k) as u64] | bits,
                    ));
                    assert((base + 4 * k) as u64 != addr as u64);
                }
            }
            assert forall|a: u64| !(base as u64 <= a && a < base as u64 + 4 * ((i + 1) as u64))
                implies (hw.regs().contains_key(a) == old(hw).regs().contains_key(a) && (old(
                hw,
            ).regs().contains_key(a) ==> hw.regs()[a] == old(hw).regs()[a])) by {
                crate::bus::preserved_at(
                    old(hw).regs(),
                    cur,
                    |x: u64| base as u64 <= x && x < base as u64 + 4 * (i as u64),
                    a,
                );
                assert(a != addr as u64);
            }
        }
        i = i + 1;
    }
}

/// How the eye-delay stage changes the register file: each per-lane I/O
/// control register, delay-bank register and address/command delay register
/// has its tuning nibble OR-ed in, and the loopback FIFO reset bit of the
/// general configuration register is left released.
pub open spec fn eye_delay_effect(
    tpr10: u32,
    tpr11: u32,
    tpr12: u32,
    o: Map<u64, u32>,
    n: Map<u64, u32>,
) -> bool {
    let lane0 = ((tpr11 << 9) & 0x1e00) | ((tpr12 << 1) & 0x1e);
    let lane1 = (((tpr11 >> 4) << 9) & 0x1e00) | (((tpr12 >> 4) << 1) & 0x1e);
    let ac16 = (((tpr11 >> 16) << 9) & 0x1e00) | (((tpr12 >> 16) << 1) & 0x1e);
    let ac20 = (((tpr11 >> 20) << 9) & 0x1e00) | (((tpr12 >> 20) << 1) & 0x1e);
    let bank = ((tpr10 >> 4) << 8) & 0x0f00;
    &&& forall|k: int|
        0 <= k < 9 ==> #[trigger] reg_holds(
            o,
            n,
            (DX0IOCR_BASE + 4 * k) as u64,
            o[(DX0IOCR_BASE + 4 * k) as u64] | lane0,
        )
    &&& forall|k: int|
        0 <= k < 9 ==> #[trigger] reg_holds(
            o,
            n,
            (DX1IOCR_BASE + 4 * k) as u64,
            o[(DX1IOCR_BASE + 4 * k) as u64] | lane1,
        )
    &&& reg_holds(o, n, PGCR0_REG as u64, (o[PGCR0_REG as u64] & 0xfbffffff) | 0x04000000)
    &&& reg_holds(o, n, 0x3103334, o[0x3103334] | ac16)
    &&& reg_holds(o, n, 0x3103338, o[0x3103338] | ac16)
    &&& reg_holds(o, n, 0x31033b4, o[0x31033b4] | ac20)
    &&& reg_holds(o, n, 0x31033b8, o[0x31033b8] | ac20)
    &&& reg_holds(o, n, 0x310333c, o[0x310333c] | (((tpr11 >> 16) << 25) & 0x1e000000))
    &&& reg_holds(o, n, 0x31033bc, o[0x31033bc] | (((tpr11 >> 20) << 25) & 0x1e000000))
    &&& forall|k: int|
        0 <= k < 15 ==> #[trigger] reg_holds(o, n, (0x3103240 + 4 * k) as u64, o[(0x3103240 + 4
            * k) as u64] | bank)
    &&& forall|k: int|
        0 <= k < 6 ==> #[trigger] reg_holds(o, n, (0x3103228 + 4 * k) as u64, o[(0x3103228 + 4
            * k) as u64] | bank)
    &&& reg_holds(o, n, 0x3103218, o[0x3103218] | ((tpr10 << 8) & 0x0f00))
    &&& reg_holds(o, n, 0x310321c, o[0x310321c] | ((tpr10 << 8) & 0x0f00))
    &&& reg_holds(o, n, 0x3103280, o[0x3103280] | (((tpr10 >> 12) << 8) & 0x0f00))
}

/// Applies the per-lane eye and bit-delay compensation offsets from the
/// tuning fields `dram_tpr10..12` to the I/O control registers.
#[verifier::rlimit(60)]
pub fn eye_delay_compensation<H: DramBus>(para: &dram_parameters, hw: &mut H)
    ensures
        final(hw).cells() == old(hw).cells(),
        final(hw).topo() == old(hw).topo(),
        regs_preserved_except(old(hw).regs(), final(hw).regs(), |a: u64| is_eye_delay_reg(a)),
        eye_delay_effect(
            para.dram_tpr10,
            para.dram_tpr11,
            para.dram_tpr12,
            old(hw).regs(),
            final(hw).regs(),
        ),
{
    let lane0: u32 = ((para.dram_tpr11 << 9) & 0x1e00) | ((para.dram_tpr12 << 1) & 0x1e);
    let lane1: u32 = (((para.dram_tpr11 >> 4) << 9) & 0x1e00) | (((para.dram_tpr12 >> 4) << 1)
        & 0x1e);
    let bank: u32 = ((para.dram_tpr10 >> 4) << 8) & 0x0f00;
    let ac16: u32 = (((para.dram_tpr11 >> 16) << 9) & 0x1e00) | (((para.dram_tpr12 >> 16) << 1)
        & 0x1e);
    let ac20: u32 = (((para.dram_tpr11 >> 20) << 9) & 0x1e00) | (((para.dram_tpr12 >> 20) << 1)
        & 0x1e);

    // Byte lane 0 and byte lane 1 I/O control.
    or_into_range(hw, DX0IOCR_BASE, 9, lane0);
    let ghost ga = hw.regs();
    or_into_range(hw, DX1IOCR_BASE, 9, lane1);
    let ghost gb = hw.regs();

    // Assert the AC loopback FIFO reset.
    let v0 = hw.read_reg(PGCR0_REG);
    hw.write_reg(PGCR0_REG, v0 & 0xfbffffff);

    let v = hw.read_reg(0x3103334);
    hw.write_reg(0x3103334, v | ac16);
    let v = hw.read_reg(0x3103338);
    hw.write_reg(0x3103338, v | ac16);
    let v = hw.read_reg(0x31033b4);
    hw.write_reg(0x31033b4, v | ac20);
    let v = hw.read_reg(0x31033b8);
    hw.write_reg(0x31033b8, v | ac20);
    let v = hw.read_reg(0x310333c);
    hw.write_reg(0x310333c, v | (((para.dram_tpr11 >> 16) << 25) & 0x1e000000));
    let v = hw.read_reg(0x31033bc);
    hw.write_reg(0x31033bc, v | (((para.dram_tpr11 >> 20) << 25) & 0x1e000000));

    // Release the AC loopback FIFO reset.
    let v = hw.read_reg(PGCR0_REG);
    hw.write_reg(PGCR0_REG, v | 0x04000000);
    hw.delay_micros(1);
    let ghost gc = hw.regs();

    // Lane delay banks.
    or_into_range(hw, 0x3103240, 15, bank);
    let ghost gd = hw.regs();
    or_into_range(hw, 0x3103228, 6, bank);
    let ghost ge = hw.regs();

    let v = hw.read_reg(0x3103218);
    hw.write_reg(0x3103218, v | ((para.dram_tpr10 << 8) & 0x0f00));
    let v = hw.read_reg(0x310321c);
    hw.write_reg(0x310321c, v | ((para.dram_tpr10 << 8) & 0x0f00));
    let v = hw.read_reg(0x3103280);
    hw.write_reg(0x3103280, v | (((para.dram_tpr10 >> 12) << 8) & 0x0f00));

    proof {
        let o = old(hw).regs();
        let n = hw.regs();
        let r1 = |a: u64| DX0IOCR_BASE as u64 <= a && a < DX0IOCR_BASE as u64 + 4 * 9u64;
        let r2 = |a: u64| DX1IOCR_BASE as u64 <= a && a < DX1IOCR_BASE as u64 + 4 * 9u64;
        let r3 = |a: u64| 0x3103240u64 <= a && a < 0x3103240u64 + 4 * 15u64;
        let r4 = |a: u64| 0x3103228u64 <= a && a < 0x3103228u64 + 4 * 6u64;
        // Lane 0: written first, untouched by every later stage.
        assert forall|k: int| 0 <= k < 9 implies #[trigger] reg_holds(
            o,
            n,
            (DX0IOCR_BASE + 4 * k) as u64,
            o[(DX0IOCR_BASE + 4 * k) as u64] | lane0,
        ) by {
            let key = (DX0IOCR_BASE + 4 * k) as u64;
            assert(reg_holds(o, ga, key, o[key] | lane0));
            crate::bus::preserved_at(ga, gb, r2, key);
            crate::bus::preserved_at(gc, gd, r3, key);
            crate::bus::preserved_at(gd, ge, r4, key);
        }
        // Lane 1: only the delay-bank stages follow it.
        assert forall|k: int| 0 <= k < 9 implies #[trigger] reg_holds(
            o,
            n,
            (DX1IOCR_BASE + 4 * k) as u64,
            o[(DX1IOCR_BASE + 4 * k) as u64] | lane1,
        ) by {
            let key = (DX1IOCR_BASE + 4 * k) as u64;
            assert(reg_holds(ga, gb, key, ga[key] | lane1));
            crate::bus::preserved_at(o, ga, r1, key);
            crate::bus::preserved_at(gc, gd, r3, key);
            crate::bus::preserved_at(gd, ge, r4, key);
        }
        // The loopback bracket and the address/command delay registers sit
        // outside every scanned range.
        assert forall|key: u64| (key == PGCR0_REG as u64 || key == 0x3103334 || key == 0x3103338
            || key == 0x31033b4 || key == 0x31033b8 || key == 0x310333c || key == 0x31033bc || key
            == 0x3103218 || key == 0x310321c || key == 0x3103280) implies (#[trigger] ga.contains_key(
            key,
        ) == o.contains_key(key) && (o.contains_key(key) ==> ga[key] == o[key])
            && gb.contains_key(key) == ga.contains_key(key) && (ga.contains_key(key) ==> gb[key]
            == ga[key]) && gd.contains_key(key) == gc.contains_key(key) && (gc.contains_key(key)
            ==> gd[key] == gc[key]) && ge.contains_key(key) == gd.contains_key(key) && (
        gd.contains_key(key) ==> ge[key] == gd[key])) by {
            crate::bus::preserved_at(o, ga, r1, key);
            crate::bus::preserved_at(ga, gb, r2, key);
            crate::bus::preserved_at(gc, gd, r3, key);
            crate::bus::preserved_at(gd, ge, r4, key);
        }
        // The delay banks relate to the state the singles left, which the
        // earlier stages did not move.
        assert forall|k: int| 0 <= k < 15 implies #[trigger] reg_holds(
            o,
            n,
            (0x3103240 + 4 * k) as u64,
            o[(0x3103240 + 4 * k) as u64] | bank,
        ) by {
            let key = (0x3103240 + 4 * k) as u64;
            assert(reg_holds(gc, gd, key, gc[key] | bank));
            crate::bus::preserved_at(o, ga, r1, key);
            crate::bus::preserved_at(ga, gb, r2, key);
            crate::bus::preserved_at(gd, ge, r4, key);
        }
        assert forall|k: int| 0 <= k < 6 implies #[trigger] reg_holds(
            o,
            n,
            (0x3103228 + 4 * k) as u64,
            o[(0x3103228 + 4 * k) as u64] | bank,
        ) by {
            let key = (0x3103228 + 4 * k) as u64;
            assert(reg_holds(gd, ge, key, gd[key] | bank));
            crate::bus::preserved_at(o, ga, r1, key);
            crate::bus::preserved_at(ga, gb, r2, key);
            crate::bus::preserved_at(gc, gd, r3, key);
        }
        // The whole stage touches nothing outside its register set.
        assert forall|a: u64| !is_eye_delay_reg(a) implies (n.contains_key(a) == o.contains_key(a)
            && (o.contains_key(a) ==> n[a] == o[a])) by {
            crate::bus::preserved_at(o, ga, r1, a);
            crate::bus::preserved_at(ga, gb, r2, a);
            crate::bus::preserved_at(gc, gd, r3, a);
            crate::bus::preserved_at(gd, ge, r4, a);
        }
    }
}

/// Whether a program-status word reports a training failure: a nonzero
/// error-code field in bits 27:20 together with the ZQ error flag, bit 20.
pub open spec fn spec_training_error(pgsr: u32) -> bool {
    (pgsr >> 20) & 0xff != 0 && pgsr & 0x100000 != 0
}

/// Decides whether a program-status word reports a training failure.
pub fn training_error(pgsr: u32) -> (r: bool)
    ensures
        r == spec_training_error(pgsr),
{
    (pgsr >> 20) & 0xff != 0 && pgsr & 0x100000 != 0
}

/// The training command word the PHY initialization register receives:
/// DQS-gating mode one first runs a separate reset pass and then trains
/// with DRAM reset on DDR3; otherwise a fresh boot initializes everything
/// and a resume only recalibrates.
pub open spec fn spec_pir_training_word(dqs_gating_mode: u32, dtype: DramType, resume: bool) -> u32 {
    if dqs_gating_mode == 1 {
        if dtype == DramType::Ddr3 {
            0x5a0
        } else {
            0x520
        }
    } else if !resume {
        if dtype == DramType::Ddr3 {
            0x1f2
        } else {
            0x172
        }
    } else {
        0x62
    }
}

/// Selects the training command word.
pub fn pir_training_word(dqs_gating_mode: u32, dtype: DramType, resume: bool) -> (r: u32)
    ensures
        r == spec_pir_training_word(dqs_gating_mode, dtype, resume),
{
    if dqs_gating_mode == 1 {
        if dtype == DramType::Ddr3 {
            0x5a0
        } else {
            0x520
        }
    } else if !resume {
        if dtype == DramType::Ddr3 {
            0x1f2
        } else {
            0x172
        }
    } else {
        0x62
    }
}

/// What the gating-status inspection concludes from the program status word
/// and the two lane status words: the new packed topology word on success,
/// or an undecidable pattern. Lane code 2 on lane 0 means single rank, with
/// the DQ width taken from the lane agreement; the zero pattern on both
/// lanes means a dual-rank half-width device; when the flag is clear, both
/// ranks use the whole data bus.
pub open spec fn spec_dqs_gate_result(pgsr: u32, dx0: u32, dx1: u32, para2: u32) -> Result<
    u32,
    DramError,
> {
    if pgsr & (1u32 << 22) != 0 {
        let d0 = (dx0 >> 24) & 0x3;
        let d1 = (dx1 >> 24) & 0x3;
        if d0 == 2 {
            if d0 != d1 {
                Ok((para2 & 0xffff0ff0) | 0x1)
            } else {
                Ok(para2 & 0xffff0ff0)
            }
        } else if d0 == 0 && d1 == 0 {
            Ok((para2 & 0xfffffff0) | 0x1001)
        } else {
            Err(DramError::DqsGateDetect)
        }
    } else {
        Ok((para2 & 0xfffffff0) | 0x1000)
    }
}

/// Decides the rank count and DQ width from the training status words.
pub fn dqs_gate_result(pgsr: u32, dx0: u32, dx1: u32, para2: u32) -> (r: Result<u32, DramError>)
    ensures
        r == spec_dqs_gate_result(pgsr, dx0, dx1, para2),
{
    if pgsr & (1u32 << 22) != 0 {
        let d0 = (dx0 >> 24) & 0x3;
        let d1 = (dx1 >> 24) & 0x3;
        if d0 == 2 {
            if d0 != d1 {
                Ok((para2 & 0xffff0ff0) | 0x1)
            } else {
                Ok(para2 & 0xffff0ff0)
            }
        } else if d0 == 0 && d1 == 0 {
            Ok((para2 & 0xfffffff0) | 0x1001)
        } else {
            Err(DramError::DqsGateDetect)
        }
    } else {
        Ok((para2 & 0xfffffff0) | 0x1000)
    }
}

/// Relates one run of the gating-status inspection to the status words it
/// read: the packed topology word takes the decided value exactly on
/// success and stays put on failure.
pub open spec fn dqs_detect_effect(
    pgsr: u32,
    dx0: u32,
    dx1: u32,
    old_para2: u32,
    new_para2: u32,
    r: Result<(), DramError>,
) -> bool {
    match spec_dqs_gate_result(pgsr, dx0, dx1, old_para2) {
        Ok(p2) => r == Ok::<(), DramError>(()) && new_para2 == p2,
        Err(e) => r == Err::<(), DramError>(e) && new_para2 == old_para2,
    }
}

/// Reads the training status after the DQS probe pass and records the rank
/// count and DQ width in `dram_para2`, bits 12 and 0.
pub fn dqs_gate_detect<H: DramBus>(para: &mut dram_parameters, hw: &mut H) -> (r: Result<(), DramError>)
    ensures
        final(hw).regs() == old(hw).regs(),
        final(hw).cells() == old(hw).cells(),
        final(hw).topo() == old(hw).topo(),
        *final(para) == (dram_parameters { dram_para2: final(para).dram_para2, ..*old(para) }),
        exists|pgsr: u32, dx0: u32, dx1: u32|
            #[trigger] dqs_detect_effect(
                pgsr,
                dx0,
                dx1,
                old(para).dram_para2,
                final(para).dram_para2,
                r,
            ),
{
    let pgsr = hw.read_status(PGSR0_REG);
    let dx0 = hw.read_status(DX0GSR0_REG);
    let dx1 = hw.read_status(DX1GSR0_REG);
    let res = dqs_gate_result(pgsr, dx0, dx1, para.dram_para2);
    match res {
        Ok(p2) => {
            para.dram_para2 = p2;
            proof {
                assert(dqs_detect_effect(
                    pgsr,
                    dx0,
                    dx1,
                    old(para).dram_para2,
                    final(para).dram_para2,
                    Ok::<(), DramError>(()),
                ));
            }
            Ok(())
        },
        Err(e) => {
            proof {
                assert(dqs_detect_effect(
                    pgsr,
                    dx0,
                    dx1,
                    old(para).dram_para2,
                    final(para).dram_para2,
                    Err::<(), DramError>(e),
                ));
            }
            Err(e)
        },
    }
}

/// The low twelve work-mode bits for one rank, executable form of
/// [`spec_rank_mode_bits`].
pub fn rank_mode_bits(para1: u32, para2: u32, rank1: bool) -> (r: u32)
    ensures
        r == spec_rank_mode_bits(para1, para2, if rank1 {
            1int
        } else {
            0int
        }),
        r <= 0xfff,
{
    let p: u32 = if rank1 {
        para1 >> 16
    } else {
        para1
    };
    let rankbits: u32 = (para2 >> 12) & 0x3;
    let bank: u32 = ((p >> 12) << 2) & 0x4;
    let rw: u32 = p >> 4;
    let rwm1: u32 = if rw == 0 {
        0xffffffff
    } else {
        rw - 1
    };
    let row: u32 = (rwm1 << 4) & 0xff;
    let pg: u32 = p & 0xf;
    let page: u32 = if pg == 8 {
        0xa00
    } else if pg == 4 {
        0x900
    } else if pg == 2 {
        0x800
    } else if pg == 1 {
        0x700
    } else {
        0x600
    };
    let r = rankbits | bank | row | page;
    proof {
        assert(((para2 >> 12) & 0x3) | (((p >> 12) << 2) & 0x4) | ((rwm1 << 4) & 0xff) | page
            <= 0xfff) by (bit_vector)
            requires
                page == 0xa00 || page == 0x900 || page == 0x800 || page == 0x700 || page == 0x600,
        ;
    }
    r
}

/// Registers the training part of the channel bring-up touches.
pub open spec fn is_train_reg(a: u64) -> bool {
    ||| a == MRCTRL0_REG as u64
    ||| a == PLL_SSCG_REG as u64
    ||| a == DXCCR_REG as u64
    ||| a == DTCR_REG as u64
    ||| a == ANALOG_SYS_CFG_REG as u64
    ||| a == ZQCR_REG as u64
    ||| a == PIR_REG as u64
    ||| a == PGCR3_REG as u64
    ||| a == PWRCTL_REG as u64
    ||| a == MC_UNK14_REG as u64
    ||| a == RFSHCTL0_REG as u64
}

/// In the register file `n`, register `a` holds `f(old value)` where the
/// old value is known, and exists either way.
pub open spec fn reg_holds(o: Map<u64, u32>, n: Map<u64, u32>, a: u64, v: u32) -> bool {
    n.contains_key(a) && (o.contains_key(a) ==> n[a] == v)
}

/// The data-training word the configuration register receives: rank count
/// and repeat count per the dual-rank flag of the packed topology word.
pub open spec fn spec_dtcr_value(para2: u32) -> u32 {
    if para2 & 0x1000 != 0 {
        0x03000001u32
    } else {
        0x01000007u32
    }
}

/// Relates the training verdict to a status word: a training failure in
/// the observed status is answered with the ZQ calibration error, and that
/// error is never raised without one. The status register itself carries
/// no promise, so the word is existentially witnessed; the decision logic
/// is the exactly specified [`training_error`].
pub open spec fn zq_check_effect(s: u32, r: Result<(), DramError>) -> bool {
    if spec_training_error(s) {
        r == Err::<(), DramError>(DramError::ZqCalibration)
    } else {
        r != Err::<(), DramError>(DramError::ZqCalibration)
    }
}

/// Registers the channel initialization touches, the eye-delay block
/// included.
pub open spec fn is_channel_reg(a: u64) -> bool {
    ||| is_eye_delay_reg(a)
    ||| a == MC_TMR_REG as u64
    ||| a == MRCTRL0_REG as u64
    ||| a == DX0GCR0_REG as u64
    ||| a == DX1GCR0_REG as u64
    ||| a == ACIOCR0_REG as u64
    ||| a == PLL_SSCG_REG as u64
    ||| a == DXCCR_REG as u64
    ||| a == DTCR_REG as u64
    ||| a == ANALOG_SYS_CFG_REG as u64
    ||| a == ZQCR_REG as u64
    ||| a == PIR_REG as u64
    ||| a == PGCR3_REG as u64
    ||| a == PWRCTL_REG as u64
    ||| a == MC_UNK14_REG as u64
    ||| a == RFSHCTL0_REG as u64
}

/// The training part of the channel bring-up: spread-spectrum and gating
/// configuration, the PHY initialization command sequence, and the
/// error check on the training status.
fn channel_train<H: DramBus>(para: &dram_parameters, hw: &mut H) -> (r: Result<(), DramError>)
    requires
        (para.dram_tpr13 >> 2) & 0x3 == 2 ==> (para.dram_tpr13 >> 16) & 0x1f >= 2,
    ensures
        final(hw).cells() == old(hw).cells(),
        final(hw).topo() == old(hw).topo(),
        regs_preserved_except(old(hw).regs(), final(hw).regs(), |a: u64| is_train_reg(a)),
        r == Ok::<(), DramError>(()) || r == Err::<(), DramError>(DramError::ZqCalibration) || r
            == Err::<(), DramError>(DramError::NotResponding),
        reg_holds(
            old(hw).regs(),
            final(hw).regs(),
            DTCR_REG as u64,
            (old(hw).regs()[DTCR_REG as u64] & 0xf0000000) | spec_dtcr_value(para.dram_para2),
        ),
        reg_holds(
            old(hw).regs(),
            final(hw).regs(),
            ZQCR_REG as u64,
            (old(hw).regs()[ZQCR_REG as u64] & 0xfc000000) | (para.dram_zq & 0x00ffffff)
                | 0x02000000,
        ),
        r == Ok::<(), DramError>(()) ==> final(hw).regs().contains_key(PIR_REG as u64) && (exists|
            resume: bool,
        |
            final(hw).regs()[PIR_REG as u64] == #[trigger] spec_pir_training_word(
                (para.dram_tpr13 >> 2) & 0x3,
                para.dram_type,
                resume,
            ) | 1 || final(hw).regs()[PIR_REG as u64] == 0x401),
        r == Ok::<(), DramError>(()) ==> reg_holds(
            old(hw).regs(),
            final(hw).regs(),
            RFSHCTL0_REG as u64,
            (old(hw).regs()[RFSHCTL0_REG as u64] | 0x80000000) & 0x7fffffff,
        ),
        r == Ok::<(), DramError>(()) ==> reg_holds(
            old(hw).regs(),
            final(hw).regs(),
            MC_UNK14_REG as u64,
            old(hw).regs()[MC_UNK14_REG as u64] | 0x80000000,
        ),
        exists|s: u32| #[trigger] zq_check_effect(s, r),
{
    let dqs_gating_mode: u32 = (para.dram_tpr13 >> 2) & 0x3;
    proof {
        // A cleared status word reports no training failure: the witness
        // for the verdict on paths that never reach the check.
        assert((0u32 >> 20) & 0xff == 0) by (bit_vector);
        assert(zq_check_effect(0, Err::<(), DramError>(DramError::NotResponding)));
    }

    // Spread-spectrum and gating configuration per DQS gating mode.
    let v = hw.read_reg(MRCTRL0_REG);
    if dqs_gating_mode == 1 {
        hw.write_reg(MRCTRL0_REG, v & !0xc0u32);
        let s = hw.read_reg(PLL_SSCG_REG);
        hw.write_reg(PLL_SSCG_REG, s & 0xfffffef8);
    } else if dqs_gating_mode == 2 {
        hw.write_reg(MRCTRL0_REG, (v & !0xc0u32) | 0x80);
        let s = hw.read_reg(PLL_SSCG_REG);
        hw.write_reg(
            PLL_SSCG_REG,
            (s & 0xfffffef8) | (((para.dram_tpr13 >> 16) & 0x1f) - 2) | 0x100,
        );
        let d = hw.read_reg(DXCCR_REG);
        hw.write_reg(DXCCR_REG, (d & 0x7fffffff) | 0x08000000);
    } else {
        hw.write_reg(MRCTRL0_REG, v & !0x40u32);
        hw.delay_micros(10);
        let m = hw.read_reg(MRCTRL0_REG);
        hw.write_reg(MRCTRL0_REG, m | 0xc0);
    }
    // Data training configuration: rank count and repeat count.
    let d = hw.read_reg(DTCR_REG);
    let dtval: u32 = if para.dram_para2 & 0x1000 != 0 {
        0x03000001
    } else {
        0x01000007
    };
    hw.write_reg(DTCR_REG, (d & 0xf0000000) | dtval);

    // Leaving self-refresh on a resume path.
    if hw.read_status(SYS_RESUME_FLAG_REG) & (1u32 << 16) != 0 {
        let v = hw.read_reg(ANALOG_SYS_CFG_REG);
        hw.write_reg(ANALOG_SYS_CFG_REG, v & 0xfffffffd);
        hw.delay_micros(10);
    }
    // ZQ configuration.
    let z = hw.read_reg(ZQCR_REG);
    hw.write_reg(ZQCR_REG, (z & 0xfc000000) | (para.dram_zq & 0x00ffffff) | 0x02000000);

    // The PHY initialization command sequence: a prep word, then the same
    // word with the go bit, then the wait for init done.
    let resume: bool;
    if dqs_gating_mode == 1 {
        hw.write_reg(PIR_REG, 0x52);
        hw.write_reg(PIR_REG, 0x53);
        if !wait_for_status(hw, PGSR0_REG, 0x1, 0x1) {
            return Err(DramError::NotResponding);
        }
        hw.delay_micros(10);
        resume = false;
    } else {
        resume = hw.read_status(SYS_RESUME_FLAG_REG) & (1u32 << 16) != 0;
    }
    let word = pir_training_word(dqs_gating_mode, para.dram_type, resume);
    hw.write_reg(PIR_REG, word);
    hw.write_reg(PIR_REG, word | 1);
    hw.delay_micros(10);
    if !wait_for_status(hw, PGSR0_REG, 0x1, 0x1) {
        return Err(DramError::NotResponding);
    }
    // Resume path: walk the controller through self-refresh exit.
    if hw.read_status(SYS_RESUME_FLAG_REG) & (1u32 << 16) != 0 {
        let v = hw.read_reg(PGCR3_REG);
        hw.write_reg(PGCR3_REG, (v & 0xf9ffffff) | 0x04000000);
        hw.delay_micros(10);
        let v = hw.read_reg(PWRCTL_REG);
        hw.write_reg(PWRCTL_REG, v | 0x1);
        if !wait_for_status(hw, STATR_REG, 0x7, 0x3) {
            return Err(DramError::NotResponding);
        }
        let v = hw.read_reg(ANALOG_SYS_CFG_REG);
        hw.write_reg(ANALOG_SYS_CFG_REG, v & 0xfffffffe);
        hw.delay_micros(10);
        let v = hw.read_reg(PWRCTL_REG);
        hw.write_reg(PWRCTL_REG, v & 0xfffffffe);
        if !wait_for_status(hw, STATR_REG, 0x7, 0x1) {
            return Err(DramError::NotResponding);
        }
        hw.delay_micros(15);
        if dqs_gating_mode == 1 {
            let v = hw.read_reg(MRCTRL0_REG);
            hw.write_reg(MRCTRL0_REG, v & 0xffffff3f);
            let v = hw.read_reg(PGCR3_REG);
            hw.write_reg(PGCR3_REG, (v & 0xf9ffffff) | 0x02000000);
            hw.delay_micros(1);
            hw.write_reg(PIR_REG, 0x401);
            if !wait_for_status(hw, PGSR0_REG, 0x1, 0x1) {
                return Err(DramError::NotResponding);
            }
        }
    }
    // The one recoverable failure of the sequence: a reported training
    // error means the ZQ calibration went wrong.
    let status = hw.read_status(PGSR0_REG);
    if training_error(status) {
        proof {
            assert(zq_check_effect(status, Err::<(), DramError>(DramError::ZqCalibration)));
        }
        return Err(DramError::ZqCalibration);
    }
    // Wait for the controller to report normal operation.
    if !wait_for_status(hw, STATR_REG, 0x1, 0x1) {
        return Err(DramError::NotResponding);
    }
    // Refresh-control toggles that move the controller to normal mode.
    let v = hw.read_reg(RFSHCTL0_REG);
    hw.write_reg(RFSHCTL0_REG, v | 0x80000000);
    hw.delay_micros(10);
    let v = hw.read_reg(RFSHCTL0_REG);
    hw.write_reg(RFSHCTL0_REG, v & 0x7fffffff);
    hw.delay_micros(10);
    let v = hw.read_reg(MC_UNK14_REG);
    hw.write_reg(MC_UNK14_REG, v | 0x80000000);
    hw.delay_micros(10);
    let v = hw.read_reg(PGCR3_REG);
    hw.write_reg(PGCR3_REG, v & 0xf9ffffff);
    if dqs_gating_mode == 1 {
        let v = hw.read_reg(DXCCR_REG);
        hw.write_reg(DXCCR_REG, (v & 0xffffff3f) | 0x00000040);
    }
    proof {
        assert(hw.regs()[PIR_REG as u64] == spec_pir_training_word(
            (para.dram_tpr13 >> 2) & 0x3,
            para.dram_type,
            resume,
        ) | 1 || hw.regs()[PIR_REG as u64] == 0x401);
        assert(zq_check_effect(status, Ok::<(), DramError>(())));
    }
    Ok(())
}

/// Initializes the controller channel: clock ratio, lane configuration,
/// eye-delay compensation and the PHY training command sequence. The one
/// checked failure of the hardware flow is the ZQ calibration error.
#[verifier::rlimit(60)]
pub fn mctl_channel_init<H: DramBus>(para: &dram_parameters, hw: &mut H) -> (r: Result<
    (),
    DramError,
>)
    requires
        para.dram_clk >= 2,
        (para.dram_tpr13 >> 2) & 0x3 == 2 ==> (para.dram_tpr13 >> 16) & 0x1f >= 2,
    ensures
        final(hw).cells() == old(hw).cells(),
        final(hw).topo() == old(hw).topo(),
        regs_preserved_except(old(hw).regs(), final(hw).regs(), |a: u64| is_channel_reg(a)),
        r == Ok::<(), DramError>(()) || r == Err::<(), DramError>(DramError::ZqCalibration) || r
            == Err::<(), DramError>(DramError::NotResponding),
        reg_holds(
            old(hw).regs(),
            final(hw).regs(),
            MC_TMR_REG as u64,
            (old(hw).regs()[MC_TMR_REG as u64] & 0xfffff000) | (((para.dram_clk >> 1)
                - 1) as u32),
        ),
        reg_holds(
            old(hw).regs(),
            final(hw).regs(),
            DX0GCR0_REG as u64,
            spec_lane_gcr_value(
                old(hw).regs()[DX0GCR0_REG as u64],
                para.dram_odt_en,
                para.dram_clk,
            ),
        ),
        reg_holds(
            old(hw).regs(),
            final(hw).regs(),
            DX1GCR0_REG as u64,
            spec_lane_gcr_value(
                old(hw).regs()[DX1GCR0_REG as u64],
                para.dram_odt_en,
                para.dram_clk,
            ),
        ),
        reg_holds(
            old(hw).regs(),
            final(hw).regs(),
            ACIOCR0_REG as u64,
            old(hw).regs()[ACIOCR0_REG as u64] | 0x2,
        ),
        reg_holds(
            old(hw).regs(),
            final(hw).regs(),
            DTCR_REG as u64,
            (old(hw).regs()[DTCR_REG as u64] & 0xf0000000) | spec_dtcr_value(para.dram_para2),
        ),
        reg_holds(
            old(hw).regs(),
            final(hw).regs(),
            ZQCR_REG as u64,
            (old(hw).regs()[ZQCR_REG as u64] & 0xfc000000) | (para.dram_zq & 0x00ffffff)
                | 0x02000000,
        ),
        r == Ok::<(), DramError>(()) ==> final(hw).regs().contains_key(PIR_REG as u64) && (exists|
            resume: bool,
        |
            final(hw).regs()[PIR_REG as u64] == #[trigger] spec_pir_training_word(
                (para.dram_tpr13 >> 2) & 0x3,
                para.dram_type,
                resume,
            ) | 1 || final(hw).regs()[PIR_REG as u64] == 0x401),
        r == Ok::<(), DramError>(()) ==> reg_holds(
            old(hw).regs(),
            final(hw).regs(),
            RFSHCTL0_REG as u64,
            (old(hw).regs()[RFSHCTL0_REG as u64] | 0x80000000) & 0x7fffffff,
        ),
        r == Ok::<(), DramError>(()) ==> reg_holds(
            old(hw).regs(),
            final(hw).regs(),
            MC_UNK14_REG as u64,
            old(hw).regs()[MC_UNK14_REG as u64] | 0x80000000,
        ),
        exists|s: u32| #[trigger] zq_check_effect(s, r),
{
    // Set the controller clock to half the DRAM clock.
    let v = hw.read_reg(MC_TMR_REG) & 0xfffff000;
    proof {
        let c = para.dram_clk;
        assert(c >= 2 ==> c >> 1 >= 1) by (bit_vector);
    }
    hw.write_reg(MC_TMR_REG, v | ((para.dram_clk >> 1) - 1));

    // Mode-register command control, undocumented nibble.
    let v = hw.read_reg(MRCTRL0_REG) & 0xfffff0ff;
    hw.write_reg(MRCTRL0_REG, v | 0x300);

    // Byte lane output configuration, both lanes alike.
    let g = hw.read_reg(DX0GCR0_REG);
    hw.write_reg(DX0GCR0_REG, lane_gcr_value(g, para.dram_odt_en, para.dram_clk));
    let g = hw.read_reg(DX1GCR0_REG);
    hw.write_reg(DX1GCR0_REG, lane_gcr_value(g, para.dram_odt_en, para.dram_clk));

    // Address/command I/O control.
    let v = hw.read_reg(ACIOCR0_REG);
    hw.write_reg(ACIOCR0_REG, v | 0x2);

    let ghost g1 = hw.regs();
    eye_delay_compensation(para, hw);
    let ghost g2 = hw.regs();
    let r = channel_train(para, hw);
    proof {
        assert forall|a: u64| !is_channel_reg(a) implies (hw.regs().contains_key(a) == old(
            hw,
        ).regs().contains_key(a) && (old(hw).regs().contains_key(a) ==> hw.regs()[a] == old(
            hw,
        ).regs()[a])) by {
            assert(!is_eye_delay_reg(a));
            assert(!is_train_reg(a));
            assert(g1.contains_key(a) == old(hw).regs().contains_key(a) && (old(
                hw,
            ).regs().contains_key(a) ==> g1[a] == old(hw).regs()[a]));
            assert(g2.contains_key(a) == g1.contains_key(a) && (g1.contains_key(a) ==> g2[a]
                == g1[a]));
        }
        // The lane, clock-ratio and address-control words written before
        // the eye-delay stage survive it and the training stage.
        let tmr = MC_TMR_REG as u64;
        let l0 = DX0GCR0_REG as u64;
        let l1 = DX1GCR0_REG as u64;
        let ac = ACIOCR0_REG as u64;
        crate::bus::preserved_at(g1, g2, |a: u64| is_eye_delay_reg(a), tmr);
        crate::bus::preserved_at(g1, g2, |a: u64| is_eye_delay_reg(a), l0);
        crate::bus::preserved_at(g1, g2, |a: u64| is_eye_delay_reg(a), l1);
        crate::bus::preserved_at(g1, g2, |a: u64| is_eye_delay_reg(a), ac);
        crate::bus::preserved_at(g2, hw.regs(), |a: u64| is_train_reg(a), tmr);
        crate::bus::preserved_at(g2, hw.regs(), |a: u64| is_train_reg(a), l0);
        crate::bus::preserved_at(g2, hw.regs(), |a: u64| is_train_reg(a), l1);
        crate::bus::preserved_at(g2, hw.regs(), |a: u64| is_train_reg(a), ac);
        // The training-stage words relate to the values before this call,
        // which neither the early writes nor the eye-delay stage touch.
        let dt = DTCR_REG as u64;
        let zq = ZQCR_REG as u64;
        let rf = RFSHCTL0_REG as u64;
        let uk = MC_UNK14_REG as u64;
        crate::bus::preserved_at(g1, g2, |a: u64| is_eye_delay_reg(a), dt);
        crate::bus::preserved_at(g1, g2, |a: u64| is_eye_delay_reg(a), zq);
        crate::bus::preserved_at(g1, g2, |a: u64| is_eye_delay_reg(a), rf);
        crate::bus::preserved_at(g1, g2, |a: u64| is_eye_delay_reg(a), uk);
    }
    r
}

/// The byte-lane general configuration value: termination from the
/// on-die-termination enable, and drive strength switched on the clock.
pub fn lane_gcr_value(gcr: u32, odt_en: u32, clk: u32) -> (r: u32)
    ensures
        r == spec_lane_gcr_value(gcr, odt_en, clk),
{
    let mut val: u32 = gcr & 0xffffffcf;
    val = val | (((!odt_en) << 5) & 0x20);
    if clk > 672 {
        val = val & 0xffff09f1;
        val = val | 0x00000400;
    } else {
        val = val & 0xffff0ff1;
    }
    val
}

/// Specification of [`lane_gcr_value`].
pub open spec fn spec_lane_gcr_value(gcr: u32, odt_en: u32, clk: u32) -> u32 {
    let val = (gcr & 0xffffffcf) | (((!odt_en) << 5) & 0x20);
    if clk > 672 {
        (val & 0xffff09f1) | 0x00000400
    } else {
        val & 0xffff0ff1
    }
}

/// Registers one full controller initialization pass touches.
pub open spec fn is_core_init_reg(a: u64) -> bool {
    ||| is_sys_init_reg(a)
    ||| a == IOVCR0_REG as u64
    ||| a == IOVCR1_REG as u64
    ||| is_com_init_reg(a)
    ||| a == crate::bus::PHY_AC_MAP1_REG as u64
    ||| a == crate::bus::PHY_AC_MAP2_REG as u64
    ||| a == crate::bus::PHY_AC_MAP3_REG as u64
    ||| a == crate::bus::PHY_AC_MAP4_REG as u64
    ||| is_timing_reg(a)
    ||| is_channel_reg(a)
}

/// Registers the timing stage writes.
pub open spec fn is_timing_reg(a: u64) -> bool {
    ||| a == crate::bus::MR0_REG as u64
    ||| a == crate::bus::MR1_REG as u64
    ||| a == crate::bus::MR2_REG as u64
    ||| a == crate::bus::MR3_REG as u64
    ||| a == crate::bus::LP3MR11_REG as u64
    ||| a == crate::bus::DRAMTMG0_REG as u64
    ||| a == crate::bus::DRAMTMG1_REG as u64
    ||| a == crate::bus::DRAMTMG2_REG as u64
    ||| a == crate::bus::DRAMTMG3_REG as u64
    ||| a == crate::bus::DRAMTMG4_REG as u64
    ||| a == crate::bus::DRAMTMG5_REG as u64
    ||| a == crate::bus::DRAMTMG8_REG as u64
    ||| a == crate::bus::PITMG0_REG as u64
    ||| a == crate::bus::PTR3_REG as u64
    ||| a == crate::bus::PTR4_REG as u64
    ||| a == crate::bus::RFSHTMG_REG as u64
    ||| a == crate::bus::RFSHCTL1_REG as u64
}

/// The preconditions one controller initialization pass places on the
/// parameter record: a clock the divider search can work with, and a sane
/// spread-spectrum field when DQS gating mode two is chosen.
pub open spec fn core_init_ready(p: dram_parameters) -> bool {
    &&& p.dram_clk <= 1_000_000
    &&& (p.dram_tpr13 & 0x40 != 0 ==> 12 <= p.dram_tpr9 && p.dram_tpr9 <= 1_000_000)
    &&& (p.dram_tpr13 & 0x40 == 0 ==> 12 <= p.dram_clk)
    &&& ((p.dram_tpr13 >> 2) & 0x3 == 2 ==> (p.dram_tpr13 >> 16) & 0x1f >= 2)
}

/// The parameter record after one controller initialization pass: the clock
/// settles on the PLL output, and the timing stage reworks the timing words
/// and mode registers on top of that.
pub open spec fn spec_core_init_para(p: dram_parameters) -> dram_parameters {
    let clk = spec_pll_output(p.dram_tpr13 & 0x40 != 0, p.dram_tpr9 as int, p.dram_clk as int);
    crate::timing::spec_timing_para_after(
        dram_parameters { dram_clk: clk as u32, ..p },
    )
}

/// One full initialization pass of the controller: clock tree, voltage
/// references, work mode, address remap, timing programming and channel
/// training. Three such passes run when the topology starts unknown.
#[verifier::rlimit(60)]
pub fn mctl_core_init<H: DramBus>(para: &mut dram_parameters, hw: &mut H) -> (r: Result<
    (),
    DramError,
>)
    requires
        core_init_ready(*old(para)),
    ensures
        final(hw).cells() == old(hw).cells(),
        final(hw).topo() == old(hw).topo(),
        regs_preserved_except(old(hw).regs(), final(hw).regs(), |a: u64| is_core_init_reg(a)),
        r == Ok::<(), DramError>(()) || r == Err::<(), DramError>(DramError::ZqCalibration) || r
            == Err::<(), DramError>(DramError::NotResponding),
        r is Err ==> *final(para) == *old(para) || *final(para) == spec_core_init_para(
            *old(para),
        ),
        r == Ok::<(), DramError>(()) ==> {
            &&& *final(para) == spec_core_init_para(*old(para))
            &&& 12 <= final(para).dram_clk <= 1_000_000
            &&& final(hw).regs().contains_key(MC_WORK_MODE_RANK0_REG as u64)
            &&& final(hw).regs()[MC_WORK_MODE_RANK0_REG as u64] & 0xfff == spec_rank_mode_bits(
                final(para).dram_para1,
                final(para).dram_para2,
                0,
            )
        },
{
    let should_override: bool = para.dram_tpr13 & 0x40 != 0;
    let overrided_dram_clk: u32 = para.dram_tpr9;
    let ghost g0 = hw.regs();
    let mut clk: u32 = para.dram_clk;
    let sys = mctl_sys_init(should_override, overrided_dram_clk, &mut clk, hw);
    let ghost g1 = hw.regs();
    match sys {
        Ok(()) => (),
        Err(e) => {
            proof {
                core_init_frame(g0, g1, g1, g1, g1, g1, hw.regs());
            }
            return Err(e);
        },
    }
    para.dram_clk = clk;
    proof {
        pll_output_bounds(
            should_override,
            overrided_dram_clk as int,
            old(para).dram_clk as int,
        );
    }
    mctl_vrefzq_init(para, hw);
    let ghost g2 = hw.regs();
    mctl_com_init(para, hw);
    let ghost g3 = hw.regs();
    crate::remap::mctl_phy_ac_remapping(para, hw);
    let ghost g4 = hw.regs();
    crate::timing::auto_set_timing_para(para, hw);
    let ghost g5 = hw.regs();
    let r = mctl_channel_init(para, hw);
    proof {
        core_init_frame(g0, g1, g2, g3, g4, g5, hw.regs());
        if r == Ok::<(), DramError>(()) {
            assert(hw.regs().contains_key(MC_WORK_MODE_RANK0_REG as u64));
        }
    }
    r
}

/// Chains the per-stage frames of one initialization pass: registers no
/// stage names are untouched across the whole pass.
proof fn core_init_frame(
    g0: Map<u64, u32>,
    g1: Map<u64, u32>,
    g2: Map<u64, u32>,
    g3: Map<u64, u32>,
    g4: Map<u64, u32>,
    g5: Map<u64, u32>,
    g6: Map<u64, u32>,
)
    requires
        regs_preserved_except(g0, g1, |a: u64| is_sys_init_reg(a)),
        regs_preserved_except(
            g1,
            g2,
            |a: u64| a == IOVCR0_REG as u64 || a == IOVCR1_REG as u64,
        ),
        regs_preserved_except(g2, g3, |a: u64| is_com_init_reg(a)),
        regs_preserved_except(
            g3,
            g4,
            |a: u64|
                a == crate::bus::PHY_AC_MAP1_REG as u64 || a == crate::bus::PHY_AC_MAP2_REG as u64
                    || a == crate::bus::PHY_AC_MAP3_REG as u64 || a
                    == crate::bus::PHY_AC_MAP4_REG as u64,
        ),
        regs_preserved_except(g4, g5, |a: u64| is_timing_reg(a)),
        regs_preserved_except(g5, g6, |a: u64| is_channel_reg(a)),
    ensures
        regs_preserved_except(g0, g6, |a: u64| is_core_init_reg(a)),
{
    assert forall|a: u64| !is_core_init_reg(a) implies (g6.contains_key(a) == g0.contains_key(a)
        && (g0.contains_key(a) ==> g6[a] == g0[a])) by {
        assert(g1.contains_key(a) == g0.contains_key(a) && (g0.contains_key(a) ==> g1[a] == g0[a]));
        assert(g2.contains_key(a) == g1.contains_key(a) && (g1.contains_key(a) ==> g2[a] == g1[a]));
        assert(g3.contains_key(a) == g2.contains_key(a) && (g2.contains_key(a) ==> g3[a] == g2[a]));
        assert(g4.contains_key(a) == g3.contains_key(a) && (g3.contains_key(a) ==> g4[a] == g3[a]));
        assert(g5.contains_key(a) == g4.contains_key(a) && (g4.contains_key(a) ==> g5[a] == g4[a]));
    }
}

/// The PLL output stays within a twelfth of the requested clock: at least
/// 12 and never above the request.
proof fn pll_output_bounds(should_override: bool, overrided: int, origin: int)
    requires
        should_override ==> 12 <= overrided <= 1_000_000,
        !should_override ==> 12 <= origin <= 1_000_000,
    ensures
        12 <= spec_pll_output(should_override, overrided, origin) <= 1_000_000,
{
    let clk = if should_override {
        overrided
    } else {
        origin
    };
    let n = clk * 2 / 24;
    vstd::arithmetic::div_mod::lemma_fundamental_div_mod(clk * 2, 24);
    assert(n * 24 == clk * 2 - (clk * 2) % 24);
    vstd::arithmetic::div_mod::lemma_fundamental_div_mod(n * 24, 2);
    assert(n * 24 / 2 * 2 == n * 24 - (n * 24) % 2);
    assert((n * 24) % 2 == 0) by {
        vstd::arithmetic::div_mod::lemma_mod_multiples_basic(n * 12, 2);
        assert(n * 24 == (n * 12) * 2) by (nonlinear_arith);
    }
    assert(n * 24 / 2 == n * 12) by {
        assert(n * 24 == (n * 12) * 2) by (nonlinear_arith);
        vstd::arithmetic::div_mod::lemma_div_by_multiple(n * 12, 2);
    }
    assert(n >= 1) by {
        vstd::arithmetic::div_mod::lemma_div_is_ordered(24, clk * 2, 24);
        vstd::arithmetic::div_mod::lemma_div_by_multiple(1, 24);
    }
    assert(n * 12 >= 12) by (nonlinear_arith)
        requires
            n >= 1,
    ;
    assert(n * 12 <= clk) by {
        assert(n * 24 <= clk * 2);
        assert(n * 12 * 2 == n * 24) by (nonlinear_arith);
    }
}

} // verus!
