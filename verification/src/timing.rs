//! Timing parameter model: converts `(dram_type, clock)` into cycle counts
//! for every JEDEC timing parameter, honouring caller overrides, and packs
//! them into the controller's timing words.

use vstd::prelude::*;

use crate::params::{dram_parameters, DramType};

verus! {

/// Cycle count for a delay of `time` nanoseconds at `freq` MHz, rounded up:
/// `ceil(time * freq / 1000)`.
pub open spec fn cal_cycles(time: int, freq: int) -> int {
    (time * freq + 999) / 1000
}

/// Converts a delay in nanoseconds into a cycle count at `freq` MHz,
/// rounding up.
pub fn auto_cal_timing(time: u32, freq: u32) -> (r: u32)
    requires
        time * freq <= u32::MAX,
    ensures
        r == cal_cycles(time as int, freq as int),
        r <= 4_294_968,
{
    let t: u32 = time * freq;
    proof {
        let ti = t as int;
        vstd::arithmetic::div_mod::lemma_fundamental_div_mod(ti, 1000);
        let q = ti / 1000;
        let rem = ti % 1000;
        if rem == 0 {
            assert((ti + 999) / 1000 == q) by {
                vstd::arithmetic::div_mod::lemma_div_multiples_vanish_fancy(q, 999, 1000);
            }
        } else {
            assert((ti + 999) / 1000 == q + 1) by {
                vstd::arithmetic::div_mod::lemma_div_multiples_vanish_fancy(q + 1, rem - 1, 1000);
            }
        }
    }
    proof {
        vstd::arithmetic::div_mod::lemma_div_is_ordered(t as int + 999, u32::MAX as int + 999, 1000);
    }
    let what: u32 = if (t % 1000) != 0 {
        1
    } else {
        0
    };
    (t / 1000) + what
}

/// The primary JEDEC timing parameters, as cycle counts.
#[derive(Clone, Copy, PartialEq, Eq, Structural, Debug)]
pub struct PrimaryTimings {
    pub tccd: u32,
    pub tfaw: u32,
    pub trrd: u32,
    pub trcd: u32,
    pub trc: u32,
    pub txp: u32,
    pub twtr: u32,
    pub trtp: u32,
    pub twr: u32,
    pub trp: u32,
    pub tras: u32,
    pub trfc: u32,
    pub trefi: u32,
}

/// Field layout of the packed timing word `dram_tpr0`:
/// tccd `[23:21]`, tfaw `[20:15]`, trrd `[14:11]`, trcd `[10:6]`, trc `[5:0]`.
pub open spec fn spec_pack_tpr0(t: PrimaryTimings) -> u32 {
    t.trc | (t.trcd << 6) | (t.trrd << 11) | (t.tfaw << 15) | (t.tccd << 21)
}

/// Field layout of the packed timing word `dram_tpr1`:
/// txp `[27:23]`, twtr `[22:20]`, trtp `[19:15]`, twr `[14:11]`, trp `[10:6]`,
/// tras `[5:0]`.
pub open spec fn spec_pack_tpr1(t: PrimaryTimings) -> u32 {
    t.tras | (t.trp << 6) | (t.twr << 11) | (t.trtp << 15) | (t.twtr << 20) | (t.txp << 23)
}

/// Field layout of the packed timing word `dram_tpr2`:
/// trfc `[20:12]`, trefi `[11:0]`.
pub open spec fn spec_pack_tpr2(t: PrimaryTimings) -> u32 {
    t.trefi | (t.trfc << 12)
}

/// Unpacking of the caller-supplied packed timing words, bit-exact inverse
/// of the packing for in-range fields.
pub open spec fn spec_unpack_timings(tpr0: u32, tpr1: u32, tpr2: u32) -> PrimaryTimings {
    PrimaryTimings {
        tccd: (tpr0 >> 21) & 0x7,
        tfaw: (tpr0 >> 15) & 0x3f,
        trrd: (tpr0 >> 11) & 0xf,
        trcd: (tpr0 >> 6) & 0x1f,
        trc: tpr0 & 0x3f,
        txp: (tpr1 >> 23) & 0x1f,
        twtr: (tpr1 >> 20) & 0x7,
        trtp: (tpr1 >> 15) & 0x1f,
        twr: (tpr1 >> 11) & 0xf,
        trp: (tpr1 >> 6) & 0x1f,
        tras: tpr1 & 0x3f,
        trfc: (tpr2 >> 12) & 0x1ff,
        trefi: tpr2 & 0xfff,
    }
}

/// Extracts the primary timing fields from the packed words.
pub fn unpack_timings(tpr0: u32, tpr1: u32, tpr2: u32) -> (t: PrimaryTimings)
    ensures
        t == spec_unpack_timings(tpr0, tpr1, tpr2),
{
    PrimaryTimings {
        tccd: (tpr0 >> 21) & 0x7,
        tfaw: (tpr0 >> 15) & 0x3f,
        trrd: (tpr0 >> 11) & 0xf,
        trcd: (tpr0 >> 6) & 0x1f,
        trc: tpr0 & 0x3f,
        txp: (tpr1 >> 23) & 0x1f,
        twtr: (tpr1 >> 20) & 0x7,
        trtp: (tpr1 >> 15) & 0x1f,
        twr: (tpr1 >> 11) & 0xf,
        trp: (tpr1 >> 6) & 0x1f,
        tras: tpr1 & 0x3f,
        trfc: (tpr2 >> 12) & 0x1ff,
        trefi: tpr2 & 0xfff,
    }
}

/// Packs the primary timing fields back into the three timing words.
pub fn pack_timings(t: PrimaryTimings) -> (r: (u32, u32, u32))
    ensures
        r.0 == spec_pack_tpr0(t),
        r.1 == spec_pack_tpr1(t),
        r.2 == spec_pack_tpr2(t),
{
    let tpr0: u32 = t.trc | (t.trcd << 6) | (t.trrd << 11) | (t.tfaw << 15) | (t.tccd << 21);
    let tpr1: u32 = t.tras | (t.trp << 6) | (t.twr << 11) | (t.trtp << 15) | (t.twtr << 20) | (
    t.txp << 23);
    let tpr2: u32 = t.trefi | (t.trfc << 12);
    (tpr0, tpr1, tpr2)
}

/// Whether every field of `t` fits the bit width its packed slot gives it.
pub open spec fn timings_in_range(t: PrimaryTimings) -> bool {
    &&& t.tccd < 8
    &&& t.tfaw < 64
    &&& t.trrd < 16
    &&& t.trcd < 32
    &&& t.trc < 64
    &&& t.txp < 32
    &&& t.twtr < 8
    &&& t.trtp < 32
    &&& t.twr < 16
    &&& t.trp < 32
    &&& t.tras < 64
    &&& t.trfc < 512
    &&& t.trefi < 4096
}

/// Packing the primary timing fields and unpacking them again returns the
/// same fields, as long as each fits its slot.
pub proof fn lemma_timings_round_trip(t: PrimaryTimings)
    requires
        timings_in_range(t),
    ensures
        spec_unpack_timings(spec_pack_tpr0(t), spec_pack_tpr1(t), spec_pack_tpr2(t)) == t,
{
    let tccd = t.tccd;
    let tfaw = t.tfaw;
    let trrd = t.trrd;
    let trcd = t.trcd;
    let trc = t.trc;
    let txp = t.txp;
    let twtr = t.twtr;
    let trtp = t.trtp;
    let twr = t.twr;
    let trp = t.trp;
    let tras = t.tras;
    let trfc = t.trfc;
    let trefi = t.trefi;
    assert({
        let v0 = trc | (trcd << 6) | (trrd << 11) | (tfaw << 15) | (tccd << 21);
        let v1 = tras | (trp << 6) | (twr << 11) | (trtp << 15) | (twtr << 20) | (txp << 23);
        let v2 = trefi | (trfc << 12);
        &&& (v0 >> 21) & 0x7 == tccd
        &&& (v0 >> 15) & 0x3f == tfaw
        &&& (v0 >> 11) & 0xf == trrd
        &&& (v0 >> 6) & 0x1f == trcd
        &&& v0 & 0x3f == trc
        &&& (v1 >> 23) & 0x1f == txp
        &&& (v1 >> 20) & 0x7 == twtr
        &&& (v1 >> 15) & 0x1f == trtp
        &&& (v1 >> 11) & 0xf == twr
        &&& (v1 >> 6) & 0x1f == trp
        &&& v1 & 0x3f == tras
        &&& (v2 >> 12) & 0x1ff == trfc
        &&& v2 & 0xfff == trefi
    }) by (bit_vector)
        requires
            tccd < 8 && tfaw < 64 && trrd < 16 && trcd < 32 && trc < 64 && txp < 32 && twtr < 8
                && trtp < 32 && twr < 16 && trp < 32 && tras < 64 && trfc < 512 && trefi < 4096,
    ;
}

/// The DDR3 primary-timing derivation for a target clock in MHz.
///
/// Every nanosecond figure is converted with [`cal_cycles`] at half the
/// clock; above 800 MHz the activate-window group keeps its reset value of
/// zero.
pub open spec fn spec_ddr3_primary(clock: int) -> PrimaryTimings {
    let frq2 = clock / 2;
    let trfc = cal_cycles(350, frq2);
    let trefi = cal_cycles(7800, frq2) / 32 + 1;
    let twr0 = cal_cycles(8, frq2);
    let twtr = if twr0 < 2 {
        2
    } else {
        twr0 + 2
    };
    let trcd = cal_cycles(15, frq2);
    let twr = if trcd < 2 {
        2
    } else {
        trcd
    };
    if clock <= 800 {
        PrimaryTimings {
            tccd: 2,
            tfaw: cal_cycles(50, frq2) as u32,
            trrd: 2,
            trcd: trcd as u32,
            trc: cal_cycles(53, frq2) as u32,
            txp: 2,
            twtr: twtr as u32,
            trtp: 4,
            twr: twr as u32,
            trp: trcd as u32,
            tras: cal_cycles(38, frq2) as u32,
            trfc: trfc as u32,
            trefi: trefi as u32,
        }
    } else {
        PrimaryTimings {
            tccd: 2,
            tfaw: 0,
            trrd: 0,
            trcd: trcd as u32,
            trc: 0,
            txp: 0,
            twtr: twtr as u32,
            trtp: 4,
            twr: twr as u32,
            trp: 0,
            tras: 0,
            trfc: trfc as u32,
            trefi: trefi as u32,
        }
    }
}

/// Primary timings for memory types whose derivation the sequence does not
/// carry: every parameter keeps its reset value of zero but for the fixed
/// tccd and trtp.
pub open spec fn spec_default_primary() -> PrimaryTimings {
    PrimaryTimings {
        tccd: 2,
        tfaw: 0,
        trrd: 0,
        trcd: 0,
        trc: 0,
        txp: 0,
        twtr: 0,
        trtp: 4,
        twr: 0,
        trp: 0,
        tras: 0,
        trfc: 0,
        trefi: 0,
    }
}

/// Derived primary timings for the given memory type and clock.
pub open spec fn spec_derive_primary(dtype: DramType, clock: int) -> PrimaryTimings {
    if dtype == DramType::Ddr3 {
        spec_ddr3_primary(clock)
    } else {
        spec_default_primary()
    }
}

/// Derives the primary timing parameters from the memory type and clock.
pub fn derive_primary(dtype: DramType, clock: u32) -> (t: PrimaryTimings)
    requires
        clock <= 1_000_000,
    ensures
        t == spec_derive_primary(dtype, clock as int),
        t.twtr <= 0x100_0000,
{
    match dtype {
        DramType::Ddr3 => {
            let frq2: u32 = clock >> 1;
            proof {
                assert(clock >> 1 == clock / 2) by (bit_vector);
            }
            let trfc: u32 = auto_cal_timing(350, frq2);
            let trefi: u32 = auto_cal_timing(7800, frq2) / 32 + 1;
            let twr0: u32 = auto_cal_timing(8, frq2);
            let twtr: u32 = if twr0 < 2 {
                2
            } else {
                twr0 + 2
            };
            let trcd: u32 = auto_cal_timing(15, frq2);
            let twr: u32 = if trcd < 2 {
                2
            } else {
                trcd
            };
            if clock <= 800 {
                PrimaryTimings {
                    tccd: 2,
                    tfaw: auto_cal_timing(50, frq2),
                    trrd: 2,
                    trcd,
                    trc: auto_cal_timing(53, frq2),
                    txp: 2,
                    twtr,
                    trtp: 4,
                    twr,
                    trp: trcd,
                    tras: auto_cal_timing(38, frq2),
                    trfc,
                    trefi,
                }
            } else {
                PrimaryTimings {
                    tccd: 2,
                    tfaw: 0,
                    trrd: 0,
                    trcd,
                    trc: 0,
                    txp: 0,
                    twtr,
                    trtp: 4,
                    twr,
                    trp: 0,
                    tras: 0,
                    trfc,
                    trefi,
                }
            }
        },
        _ => PrimaryTimings {
            tccd: 2,
            tfaw: 0,
            trrd: 0,
            trcd: 0,
            trc: 0,
            txp: 0,
            twtr: 0,
            trtp: 4,
            twr: 0,
            trp: 0,
            tras: 0,
            trfc: 0,
            trefi: 0,
        },
    }
}

/// Device mode-register values and PHY-level latency figures, derived from
/// the memory type, clock and the already-derived primary timings.
#[derive(Clone, Copy, PartialEq, Eq, Structural, Debug)]
pub struct SecondaryTimings {
    pub trasmax: u32,
    pub tcl: u32,
    pub wr_latency: u32,
    pub tcwl: u32,
    pub t_rdata_en: u32,
    pub mr0: u32,
    pub mr1: u32,
    pub mr2: u32,
    pub mr3: u32,
    pub twtp: u32,
    pub trd2wr: u32,
    pub twr2rd: u32,
    pub tcksrx: u32,
    pub tckesr: u32,
    pub tcke: u32,
    pub tmod: u32,
    pub tmrd: u32,
    pub tmrw: u32,
    pub trtp: u32,
    pub tdinit0: u32,
    pub tdinit1: u32,
    pub tdinit2: u32,
    pub tdinit3: u32,
}

/// Secondary derivation for DDR3: the write latency, CAS latencies and
/// device mode registers switch on the 800 MHz boundary, with the boundary
/// itself taking the slow branch.
pub open spec fn spec_ddr3_secondary(
    clock: int,
    tpr13: u32,
    twtr: u32,
    dmr1: u32,
) -> SecondaryTimings {
    let fast = clock > 800;
    let tcwl: u32 = if fast {
        5
    } else {
        4
    };
    SecondaryTimings {
        trasmax: (clock / 30) as u32,
        tcl: if fast {
            7
        } else {
            6
        },
        wr_latency: if fast {
            3
        } else {
            2
        },
        tcwl,
        t_rdata_en: tcwl,
        mr0: if fast {
            0x1e14
        } else {
            0x1c70
        },
        mr1: dmr1,
        mr2: if fast {
            32
        } else {
            24
        },
        mr3: 0,
        twtp: (tcwl + 2 + twtr) as u32,
        trd2wr: if (tpr13 >> 2) & 0x3 == 1 || clock < 912 {
            5
        } else {
            6
        },
        twr2rd: (tcwl + twtr) as u32,
        tcksrx: 5,
        tckesr: 4,
        tcke: 3,
        tmod: 12,
        tmrd: 4,
        tmrw: 0,
        trtp: 4,
        tdinit0: (500 * clock + 1) as u32,
        tdinit1: (360 * clock / 1000 + 1) as u32,
        tdinit2: (200 * clock + 1) as u32,
        tdinit3: (clock + 1) as u32,
    }
}

/// Conservative fallback figures for memory types whose secondary
/// derivation the sequence does not carry: safe but slow constants.
pub open spec fn spec_fallback_secondary() -> SecondaryTimings {
    SecondaryTimings {
        trasmax: 27,
        tcl: 3,
        wr_latency: 1,
        tcwl: 3,
        t_rdata_en: 1,
        mr0: 0,
        mr1: 0,
        mr2: 0,
        mr3: 0,
        twtp: 12,
        trd2wr: 4,
        twr2rd: 8,
        tcksrx: 4,
        tckesr: 3,
        tcke: 2,
        tmod: 6,
        tmrd: 2,
        tmrw: 0,
        trtp: 4,
        tdinit0: 0,
        tdinit1: 0,
        tdinit2: 0,
        tdinit3: 0,
    }
}

/// Secondary derivation, branching on the memory type.
pub open spec fn spec_derive_secondary(
    dtype: DramType,
    clock: int,
    tpr13: u32,
    twtr: u32,
    dmr1: u32,
) -> SecondaryTimings {
    if dtype == DramType::Ddr3 {
        spec_ddr3_secondary(clock, tpr13, twtr, dmr1)
    } else {
        spec_fallback_secondary()
    }
}

/// Derives mode-register values and PHY latency figures.
///
/// For DDR3 the write latency is 2 and tcwl is 4 at any clock up to and
/// including 800 MHz, and 3 and 5 above it.
pub fn derive_secondary(dtype: DramType, clock: u32, tpr13: u32, twtr: u32, dmr1: u32) -> (r:
    SecondaryTimings)
    requires
        clock <= 1_000_000,
        twtr <= 0x100_0000,
    ensures
        r == spec_derive_secondary(dtype, clock as int, tpr13, twtr, dmr1),
        dtype == DramType::Ddr3 && clock <= 800 ==> r.wr_latency == 2 && r.tcwl == 4,
        dtype == DramType::Ddr3 && clock > 800 ==> r.wr_latency == 3 && r.tcwl == 5,
{
    match dtype {
        DramType::Ddr3 => {
            let fast: bool = clock > 800;
            let tcwl: u32 = if fast {
                5
            } else {
                4
            };
            SecondaryTimings {
                trasmax: clock / 30,
                tcl: if fast {
                    7
                } else {
                    6
                },
                wr_latency: if fast {
                    3
                } else {
                    2
                },
                tcwl,
                t_rdata_en: tcwl,
                mr0: if fast {
                    0x1e14
                } else {
                    0x1c70
                },
                mr1: dmr1,
                mr2: if fast {
                    32
                } else {
                    24
                },
                mr3: 0,
                twtp: tcwl + 2 + twtr,
                trd2wr: if (tpr13 >> 2) & 0x3 == 1 || clock < 912 {
                    5
                } else {
                    6
                },
                twr2rd: tcwl + twtr,
                tcksrx: 5,
                tckesr: 4,
                tcke: 3,
                tmod: 12,
                tmrd: 4,
                tmrw: 0,
                trtp: 4,
                tdinit0: 500 * clock + 1,
                tdinit1: 360 * clock / 1000 + 1,
                tdinit2: 200 * clock + 1,
                tdinit3: clock + 1,
            }
        },
        _ => SecondaryTimings {
            trasmax: 27,
            tcl: 3,
            wr_latency: 1,
            tcwl: 3,
            t_rdata_en: 1,
            mr0: 0,
            mr1: 0,
            mr2: 0,
            mr3: 0,
            twtp: 12,
            trd2wr: 4,
            twr2rd: 8,
            tcksrx: 4,
            tckesr: 3,
            tcke: 2,
            tmod: 6,
            tmrd: 2,
            tmrw: 0,
            trtp: 4,
            tdinit0: 0,
            tdinit1: 0,
            tdinit2: 0,
            tdinit3: 0,
        },
    }
}

/// A computed mode-register value replaces the caller's field only while
/// the caller's upper 16 bits are all clear; a caller value with any upper
/// bit set is authoritative and kept unchanged.
pub open spec fn spec_merge_mode_register(current: u32, computed: u32) -> u32 {
    if current & 0xffff0000 == 0 {
        computed
    } else {
        current
    }
}

/// Merges a computed mode-register value with the caller-supplied one.
pub fn merge_mode_register(current: u32, computed: u32) -> (r: u32)
    ensures
        r == spec_merge_mode_register(current, computed),
        current & 0xffff0000 != 0 ==> r == current,
        current & 0xffff0000 == 0 ==> r == computed,
{
    if current & 0xffff0000 == 0 {
        computed
    } else {
        current
    }
}

/// The primary timings one run of the timing stage works with: the
/// caller-supplied packed words unpacked when the raw-timing bit (bit 1 of
/// `dram_tpr13`) is set, the derived figures otherwise.
pub open spec fn spec_timing_primary(p: dram_parameters) -> PrimaryTimings {
    if p.dram_tpr13 & 0x2 != 0 {
        spec_unpack_timings(p.dram_tpr0, p.dram_tpr1, p.dram_tpr2)
    } else {
        spec_derive_primary(p.dram_type, p.dram_clk as int)
    }
}

/// The secondary figures one run of the timing stage works with.
pub open spec fn spec_timing_secondary(p: dram_parameters) -> SecondaryTimings {
    spec_derive_secondary(
        p.dram_type,
        p.dram_clk as int,
        p.dram_tpr13,
        spec_timing_primary(p).twtr,
        p.dram_mr1,
    )
}

/// The parameter record after the timing stage: the packed timing words are
/// refreshed from the derivation unless the raw-timing bit keeps them, and
/// each mode register takes the computed value only while its caller value
/// has a clear upper half.
pub open spec fn spec_timing_para_after(p: dram_parameters) -> dram_parameters {
    let t = spec_timing_primary(p);
    let s = spec_timing_secondary(p);
    dram_parameters {
        dram_tpr0: if p.dram_tpr13 & 0x2 != 0 {
            p.dram_tpr0
        } else {
            spec_pack_tpr0(t)
        },
        dram_tpr1: if p.dram_tpr13 & 0x2 != 0 {
            p.dram_tpr1
        } else {
            spec_pack_tpr1(t)
        },
        dram_tpr2: if p.dram_tpr13 & 0x2 != 0 {
            p.dram_tpr2
        } else {
            spec_pack_tpr2(t)
        },
        dram_mr0: spec_merge_mode_register(p.dram_mr0, s.mr0),
        dram_mr1: spec_merge_mode_register(p.dram_mr1, s.mr1),
        dram_mr2: spec_merge_mode_register(p.dram_mr2, s.mr2),
        dram_mr3: spec_merge_mode_register(p.dram_mr3, s.mr3),
        ..p
    }
}

/// How the timing stage changes the register file, given the value `r8` the
/// two-rank timing register read back: mode registers, timing registers,
/// interface timing, initialization delays and refresh timing, in write
/// order.
pub open spec fn timing_regs_effect(
    p: dram_parameters,
    r8: u32,
    old_regs: Map<u64, u32>,
    new_regs: Map<u64, u32>,
) -> bool {
    let t = spec_timing_primary(p);
    let s = spec_timing_secondary(p);
    let q = spec_timing_para_after(p);
    &&& new_regs == old_regs.insert(crate::bus::MR0_REG as u64, q.dram_mr0).insert(
        crate::bus::MR1_REG as u64,
        q.dram_mr1,
    ).insert(crate::bus::MR2_REG as u64, q.dram_mr2).insert(
        crate::bus::MR3_REG as u64,
        q.dram_mr3,
    ).insert(crate::bus::LP3MR11_REG as u64, (p.dram_odt_en >> 4) & 0x3).insert(
        crate::bus::DRAMTMG0_REG as u64,
        (s.twtp << 24) | (t.tfaw << 16) | (s.trasmax << 8) | t.tras,
    ).insert(crate::bus::DRAMTMG1_REG as u64, (t.txp << 16) | (s.trtp << 8) | t.trc).insert(
        crate::bus::DRAMTMG2_REG as u64,
        (s.tcwl << 24) | (s.tcl << 16) | (s.trd2wr << 8) | s.twr2rd,
    ).insert(crate::bus::DRAMTMG3_REG as u64, (s.tmrw << 16) | (s.tmrd << 12) | s.tmod).insert(
        crate::bus::DRAMTMG4_REG as u64,
        (t.trcd << 24) | (t.tccd << 16) | (t.trrd << 8) | t.trp,
    ).insert(
        crate::bus::DRAMTMG5_REG as u64,
        (s.tcksrx << 24) | (s.tcksrx << 16) | (s.tckesr << 8) | s.tcke,
    ).insert(
        crate::bus::DRAMTMG8_REG as u64,
        (r8 & 0x0fff0000) | (if p.dram_clk < 800 {
            0xf0006600u32
        } else {
            0xf0007600u32
        }) | 0x10,
    ).insert(
        crate::bus::PITMG0_REG as u64,
        (0x2u32 << 24) | (s.t_rdata_en << 16) | (0x1u32 << 8) | s.wr_latency,
    ).insert(crate::bus::PTR3_REG as u64, s.tdinit0 | (s.tdinit1 << 20)).insert(
        crate::bus::PTR4_REG as u64,
        s.tdinit2 | (s.tdinit3 << 20),
    ).insert(crate::bus::RFSHTMG_REG as u64, (t.trefi << 16) | t.trfc).insert(
        crate::bus::RFSHCTL1_REG as u64,
        0x0fff0000 & (t.trefi << 15),
    )
    &&& (old_regs.contains_key(crate::bus::DRAMTMG8_REG as u64) ==> r8 == old_regs[
        crate::bus::DRAMTMG8_REG as u64
    ])
}

/// Computes all timing settings for the configured memory type and writes
/// them to the PHY timing registers in one pass.
///
/// The caller-supplied packed timing words are used verbatim when the
/// raw-timing bit is set; otherwise they are refreshed from the derivation.
/// The mode registers follow the merge rule: a caller value whose upper 16
/// bits hold anything is authoritative.
pub fn auto_set_timing_para<H: crate::bus::DramBus>(para: &mut dram_parameters, hw: &mut H)
    requires
        0 < old(para).dram_clk <= 1_000_000,
    ensures
        *final(para) == spec_timing_para_after(*old(para)),
        final(hw).cells() == old(hw).cells(),
        final(hw).topo() == old(hw).topo(),
        exists|r8: u32|
            #[trigger] timing_regs_effect(*old(para), r8, old(hw).regs(), final(hw).regs()),
{
    let t: PrimaryTimings = if para.dram_tpr13 & 0x2 != 0 {
        let t = unpack_timings(para.dram_tpr0, para.dram_tpr1, para.dram_tpr2);
        proof {
            let w = para.dram_tpr1;
            assert((w >> 20) & 0x7 < 8) by (bit_vector);
        }
        t
    } else {
        let t = derive_primary(para.dram_type, para.dram_clk);
        let packed = pack_timings(t);
        para.dram_tpr0 = packed.0;
        para.dram_tpr1 = packed.1;
        para.dram_tpr2 = packed.2;
        t
    };
    let s = derive_secondary(para.dram_type, para.dram_clk, para.dram_tpr13, t.twtr, para.dram_mr1);

    // Update the mode-register block where the caller permits it.
    para.dram_mr0 = merge_mode_register(para.dram_mr0, s.mr0);
    para.dram_mr1 = merge_mode_register(para.dram_mr1, s.mr1);
    para.dram_mr2 = merge_mode_register(para.dram_mr2, s.mr2);
    para.dram_mr3 = merge_mode_register(para.dram_mr3, s.mr3);

    // Set the device mode registers and the termination selector.
    hw.write_reg(crate::bus::MR0_REG, para.dram_mr0);
    hw.write_reg(crate::bus::MR1_REG, para.dram_mr1);
    hw.write_reg(crate::bus::MR2_REG, para.dram_mr2);
    hw.write_reg(crate::bus::MR3_REG, para.dram_mr3);
    hw.write_reg(crate::bus::LP3MR11_REG, (para.dram_odt_en >> 4) & 0x3);

    // Set the DRAM timing registers.
    hw.write_reg(
        crate::bus::DRAMTMG0_REG,
        (s.twtp << 24) | (t.tfaw << 16) | (s.trasmax << 8) | t.tras,
    );
    hw.write_reg(crate::bus::DRAMTMG1_REG, (t.txp << 16) | (s.trtp << 8) | t.trc);
    hw.write_reg(
        crate::bus::DRAMTMG2_REG,
        (s.tcwl << 24) | (s.tcl << 16) | (s.trd2wr << 8) | s.twr2rd,
    );
    hw.write_reg(crate::bus::DRAMTMG3_REG, (s.tmrw << 16) | (s.tmrd << 12) | s.tmod);
    hw.write_reg(
        crate::bus::DRAMTMG4_REG,
        (t.trcd << 24) | (t.tccd << 16) | (t.trrd << 8) | t.trp,
    );
    hw.write_reg(
        crate::bus::DRAMTMG5_REG,
        (s.tcksrx << 24) | (s.tcksrx << 16) | (s.tckesr << 8) | s.tcke,
    );

    // Set the two-rank timing register, keeping its middle field.
    let r8 = hw.read_reg(crate::bus::DRAMTMG8_REG);
    let v8: u32 = (r8 & 0x0fff0000) | (if para.dram_clk < 800 {
        0xf0006600
    } else {
        0xf0007600
    }) | 0x10;
    hw.write_reg(crate::bus::DRAMTMG8_REG, v8);

    // Set the PHY interface timing and initialization delays.
    hw.write_reg(
        crate::bus::PITMG0_REG,
        (0x2u32 << 24) | (s.t_rdata_en << 16) | (0x1u32 << 8) | s.wr_latency,
    );
    hw.write_reg(crate::bus::PTR3_REG, s.tdinit0 | (s.tdinit1 << 20));
    hw.write_reg(crate::bus::PTR4_REG, s.tdinit2 | (s.tdinit3 << 20));

    // Set the refresh timing and mode.
    hw.write_reg(crate::bus::RFSHTMG_REG, (t.trefi << 16) | t.trfc);
    hw.write_reg(crate::bus::RFSHCTL1_REG, 0x0fff0000 & (t.trefi << 15));

    proof {
        assert(timing_regs_effect(*old(para), r8, old(hw).regs(), final(hw).regs()));
    }
}

} // verus!
