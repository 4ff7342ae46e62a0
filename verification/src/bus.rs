//! Register bus capability and memory decode model.
//!
//! Every hardware access of the initialization sequence goes through the
//! [`DramBus`] trait: a typed read/write capability for memory-mapped
//! registers and for probing live DRAM. The trait's contracts state the
//! physical premises the sequence rests on: configuration registers read
//! back the last value written to them, while status registers may return
//! anything, and the DRAM array behaves like an address space whose
//! non-existent address lines wrap around (alias) to the base.

use vstd::prelude::*;

verus! {

// System configuration block (base 0x0300_0000).
/// System LDO control register, selects the DRAM supply voltage.
pub const SYS_LDO_CTRL_REG: u32 = 0x0300_0150;

/// Resistor calibration control register.
pub const RES_CAL_CTRL_REG: u32 = 0x0300_0160;

/// 240 ohm resistor manual control register.
pub const RES240_CTRL_REG: u32 = 0x0300_0168;

/// Silicon fuse identifier; its byte 1 selects the address remap table.
pub const SID_INFO_REG: u32 = 0x0300_2228;

/// Status word whose bit 16 distinguishes a resume from a fresh boot.
pub const SYS_RESUME_FLAG_REG: u32 = 0x0700_05d4;

/// Analog power-off gating register.
pub const ANALOG_PWROFF_GATING_REG: u32 = 0x0701_0254;

/// Analog configuration register toggled around self-refresh exit.
pub const ANALOG_SYS_CFG_REG: u32 = 0x0701_0250;

// Clock control unit (base 0x0200_1000).
/// DRAM PLL control: enable, lock and divider fields.
pub const PLL_DDR_CTRL_REG: u32 = 0x0200_1010;

/// MBUS clock register; bit 30 deasserts the MBUS reset.
pub const MBUS_CLK_REG: u32 = 0x0200_1540;

/// DRAM clock register: source select, dividers, gate and update bits.
pub const DRAM_CLK_REG: u32 = 0x0200_1800;

/// DRAM bus-gating-reset register; bit 0 gates the clock, bit 16 the reset.
pub const DRAM_BGR_REG: u32 = 0x0200_180c;

// Memory controller common block (base 0x0310_2000).
/// Work mode of rank 0: memory type, DQ width and address allocation.
pub const MC_WORK_MODE_RANK0_REG: u32 = 0x0310_2000;

/// Work mode of rank 1.
pub const MC_WORK_MODE_RANK1_REG: u32 = 0x0310_2004;

/// Undocumented controller register configured before the work mode.
pub const MC_UNK08_REG: u32 = 0x0310_2008;

/// Controller clock divider: holds half the DRAM clock minus one.
pub const MC_TMR_REG: u32 = 0x0310_200c;

/// Undocumented controller register toggled after training.
pub const MC_UNK14_REG: u32 = 0x0310_2014;

/// Master access enable registers: which bus masters may reach DRAM.
pub const MC_MAER0_REG: u32 = 0x0310_2020;

pub const MC_MAER1_REG: u32 = 0x0310_2024;

pub const MC_MAER2_REG: u32 = 0x0310_2028;

/// Address remap registers: packed 5-bit lane indexes, four words.
pub const PHY_AC_MAP1_REG: u32 = 0x0310_2500;

pub const PHY_AC_MAP2_REG: u32 = 0x0310_2504;

pub const PHY_AC_MAP3_REG: u32 = 0x0310_2508;

pub const PHY_AC_MAP4_REG: u32 = 0x0310_250c;

// DRAM PHY block (base 0x0310_3000).
/// PHY initialization register: the training command word.
pub const PIR_REG: u32 = 0x0310_3000;

/// Power control register.
pub const PWRCTL_REG: u32 = 0x0310_3004;

/// Data training configuration register.
pub const DTCR_REG: u32 = 0x0310_3008;

/// Controller clock enable register.
pub const CLKEN_REG: u32 = 0x0310_300c;

/// Program status register 0: init-done and training-error bits.
pub const PGSR0_REG: u32 = 0x0310_3010;

/// Controller status register.
pub const STATR_REG: u32 = 0x0310_3018;

/// Low-power mode register 11 / on-die-termination selector.
pub const LP3MR11_REG: u32 = 0x0310_302c;

/// Device mode register 0.
pub const MR0_REG: u32 = 0x0310_3030;

pub const MR1_REG: u32 = 0x0310_3034;

pub const MR2_REG: u32 = 0x0310_3038;

pub const MR3_REG: u32 = 0x0310_303c;

/// PHY timing register 3: DRAM initialization delays 0 and 1.
pub const PTR3_REG: u32 = 0x0310_3050;

/// PHY timing register 4: DRAM initialization delays 2 and 3.
pub const PTR4_REG: u32 = 0x0310_3054;

/// DRAM timing register 0; registers 1 to 8 follow at stride 4.
pub const DRAMTMG0_REG: u32 = 0x0310_3058;

pub const DRAMTMG1_REG: u32 = 0x0310_305c;

pub const DRAMTMG2_REG: u32 = 0x0310_3060;

pub const DRAMTMG3_REG: u32 = 0x0310_3064;

pub const DRAMTMG4_REG: u32 = 0x0310_3068;

pub const DRAMTMG5_REG: u32 = 0x0310_306c;

pub const DRAMTMG8_REG: u32 = 0x0310_3078;

/// On-die-termination configuration.
pub const ODTCFG_REG: u32 = 0x0310_307c;

/// PHY interface timing register 0: read-enable and write latencies.
pub const PITMG0_REG: u32 = 0x0310_3080;

/// Refresh timing: interval and recovery.
pub const RFSHTMG_REG: u32 = 0x0310_3090;

/// Refresh control register 1.
pub const RFSHCTL1_REG: u32 = 0x0310_3094;

/// Refresh control register 0.
pub const RFSHCTL0_REG: u32 = 0x0310_309c;

/// ZQ impedance calibration configuration.
pub const ZQCR_REG: u32 = 0x0310_3140;

/// Auto self-refresh timing control.
pub const ASRTC_REG: u32 = 0x0310_30a0;

/// Auto self-refresh control.
pub const ASRC_REG: u32 = 0x0310_30a4;

/// ZQ calibration data register.
pub const ZQDR_REG: u32 = 0x0310_30b8;

/// PLL spread-spectrum control.
pub const PLL_SSCG_REG: u32 = 0x0310_30bc;

/// PHY general configuration register 0.
pub const PGCR0_REG: u32 = 0x0310_3100;

/// Mode-register command control.
pub const MRCTRL0_REG: u32 = 0x0310_3108;

/// PHY general configuration register 3.
pub const PGCR3_REG: u32 = 0x0310_310c;

/// I/O voltage-reference control for the address/command lanes.
pub const IOVCR0_REG: u32 = 0x0310_3110;

/// I/O voltage-reference control for the data lanes.
pub const IOVCR1_REG: u32 = 0x0310_3114;

/// DATX8 common configuration register.
pub const DXCCR_REG: u32 = 0x0310_311c;

/// On-die-termination rank map.
pub const ODTMAP_REG: u32 = 0x0310_3120;

/// Address/command I/O configuration register 0.
pub const ACIOCR0_REG: u32 = 0x0310_3208;

/// First I/O configuration register of byte lane 0; nine registers follow.
pub const DX0IOCR_BASE: u32 = 0x0310_3310;

/// General configuration of byte lane 0.
pub const DX0GCR0_REG: u32 = 0x0310_3344;

/// Gating status of byte lane 0.
pub const DX0GSR0_REG: u32 = 0x0310_3348;

/// First I/O configuration register of byte lane 1.
pub const DX1IOCR_BASE: u32 = 0x0310_3390;

/// General configuration of byte lane 1.
pub const DX1GCR0_REG: u32 = 0x0310_33c4;

/// Gating status of byte lane 1.
pub const DX1GSR0_REG: u32 = 0x0310_33c8;

/// Base of the DRAM array in the physical address space.
pub const RAM_BASE: u32 = 0x4000_0000;

/// Physical address-line capability of the memory chips: how many column
/// bits (within a page), whether a third bank line exists, and how many row
/// bits each rank decodes. Address lines beyond these wrap around.
#[derive(Clone, Copy, PartialEq, Eq, Structural, Debug)]
pub struct MemTopology {
    /// Bits of column plus byte-in-word addressing: log2 of the page size in
    /// bytes, between 9 and 13.
    pub page_bits: u32,
    /// Row address lines per rank, between 11 and 16.
    pub row_bits: u32,
    /// Whether the chips decode a third bank line (eight banks).
    pub eight_banks: bool,
}

/// Column plus byte address bits the controller allocates under work mode
/// `wm`: the page-size code in bits `[11:8]` plus three.
pub open spec fn col_alloc_bits(wm: u32) -> int {
    ((wm >> 8) & 0xf) + 3
}

/// Row address bits the controller allocates: bits `[7:4]` hold row count
/// minus one.
pub open spec fn row_alloc_bits(wm: u32) -> int {
    ((wm >> 4) & 0xf) + 1
}

/// Whether the controller allocates a third bank line: the bank code in
/// bits `[3:2]` is one for eight banks.
pub open spec fn bank2_allocated(wm: u32) -> bool {
    (wm >> 2) & 0x3 == 1
}

/// Whether physical address bit `b` reaches a real line of the chip under
/// work mode `wm`. The controller lays a linear address out as column bits,
/// then two bank lines, then the row field, then the third bank line when
/// allocated; a line is real while the chip decodes it.
pub open spec fn bit_kept(wm: u32, topo: MemTopology, b: int) -> bool {
    let ca = col_alloc_bits(wm);
    let ra = row_alloc_bits(wm);
    let top = ca + 2 + ra + if bank2_allocated(wm) {
        1int
    } else {
        0int
    };
    &&& 0 <= b < top
    &&& (b < ca ==> b < topo.page_bits)
    &&& (ca + 2 <= b < ca + 2 + ra ==> b - (ca + 2) < topo.row_bits)
    &&& (bank2_allocated(wm) && b == ca + 2 + ra ==> topo.eight_banks)
}

/// Mask of the low `n` address bits that reach real lines.
pub open spec fn keep_mask_upto(wm: u32, topo: MemTopology, n: int) -> u32
    decreases n,
{
    if n <= 0 {
        0u32
    } else if bit_kept(wm, topo, n - 1) {
        keep_mask_upto(wm, topo, n - 1) | (1u32 << ((n - 1) as u32))
    } else {
        keep_mask_upto(wm, topo, n - 1)
    }
}

/// Mask of all address bits that reach real lines under work mode `wm`.
pub open spec fn keep_mask(wm: u32, topo: MemTopology) -> u32 {
    keep_mask_upto(wm, topo, 32)
}

/// The cell an address selects: ignored address lines wrap around, so the
/// canonical cell index is the address with those bits cleared.
pub open spec fn canon_addr(wm: u32, topo: MemTopology, addr: u32) -> u32 {
    addr & keep_mask(wm, topo)
}

/// What a read of `addr` returns from the cell map `cells` under work mode
/// `wm`: the stored value of the selected cell. A cell never written holds
/// zero in the model, standing for "anything but the probe pattern".
pub open spec fn mem_read_spec(cells: Map<u64, u32>, wm: u32, topo: MemTopology, addr: u32) -> u32 {
    let c = canon_addr(wm, topo, addr) as u64;
    if cells.contains_key(c) {
        cells[c]
    } else {
        0
    }
}

/// Outside the addresses `except` admits, the register file `n` agrees with
/// `o`: no other register was written or lost.
pub open spec fn regs_preserved_except(
    o: Map<u64, u32>,
    n: Map<u64, u32>,
    except: spec_fn(u64) -> bool,
) -> bool {
    forall|a: u64|
        #![trigger n.contains_key(a)]
        #![trigger o.contains_key(a)]
        !except(a) ==> (n.contains_key(a) == o.contains_key(a) && (o.contains_key(a) ==> n[a]
            == o[a]))
}

/// What frame preservation gives at one address outside the exception.
pub proof fn preserved_at(
    o: Map<u64, u32>,
    n: Map<u64, u32>,
    except: spec_fn(u64) -> bool,
    a: u64,
)
    requires
        regs_preserved_except(o, n, except),
        !except(a),
    ensures
        n.contains_key(a) == o.contains_key(a),
        o.contains_key(a) ==> n[a] == o[a],
{
}

/// Capability for every hardware access of the initialization sequence.
///
/// `regs` models the configuration register file: a write stores a value,
/// and a read of a register that was written returns that value. Registers
/// the hardware itself drives (status words, fuses, lock bits) must be read
/// through [`DramBus::read_status`], of whose result nothing is promised.
/// `cells` and `topo` model the DRAM array as seen through the currently
/// programmed rank-0 work mode, with wraparound on address lines the chip
/// does not decode.
pub trait DramBus: Sized {
    /// The configuration register file: last value written per address.
    open spec fn regs(&self) -> Map<u64, u32> {
        Map::<u64, u32>::empty()
    }

    /// Contents of the DRAM array, keyed by canonical cell index.
    open spec fn cells(&self) -> Map<u64, u32> {
        Map::<u64, u32>::empty()
    }

    /// The real address-line capability of the memory chips.
    open spec fn topo(&self) -> MemTopology {
        MemTopology { page_bits: 9, row_bits: 11, eight_banks: false }
    }

    /// Writes a configuration register.
    fn write_reg(&mut self, addr: u32, val: u32)
        ensures
            final(self).regs() == old(self).regs().insert(addr as u64, val),
            final(self).cells() == old(self).cells(),
            final(self).topo() == old(self).topo(),
    ;

    /// Reads a configuration register; one that was written returns the
    /// written value.
    fn read_reg(&mut self, addr: u32) -> (r: u32)
        ensures
            final(self).regs() == old(self).regs(),
            final(self).cells() == old(self).cells(),
            final(self).topo() == old(self).topo(),
            old(self).regs().contains_key(addr as u64) ==> r == old(self).regs()[addr as u64],
    ;

    /// Reads a register the hardware drives on its own; the result carries
    /// no promise.
    fn read_status(&mut self, addr: u32) -> (r: u32)
        ensures
            final(self).regs() == old(self).regs(),
            final(self).cells() == old(self).cells(),
            final(self).topo() == old(self).topo(),
    ;

    /// Writes one 32-bit word of DRAM through the current rank-0 work mode.
    fn write_mem(&mut self, addr: u32, val: u32)
        requires
            old(self).regs().contains_key(MC_WORK_MODE_RANK0_REG as u64),
        ensures
            final(self).regs() == old(self).regs(),
            final(self).topo() == old(self).topo(),
            final(self).cells() == old(self).cells().insert(
                canon_addr(
                    old(self).regs()[MC_WORK_MODE_RANK0_REG as u64],
                    old(self).topo(),
                    addr,
                ) as u64,
                val,
            ),
    ;

    /// Reads one 32-bit word of DRAM through the current rank-0 work mode.
    fn read_mem(&mut self, addr: u32) -> (r: u32)
        requires
            old(self).regs().contains_key(MC_WORK_MODE_RANK0_REG as u64),
        ensures
            final(self).regs() == old(self).regs(),
            final(self).cells() == old(self).cells(),
            final(self).topo() == old(self).topo(),
            r == mem_read_spec(
                old(self).cells(),
                old(self).regs()[MC_WORK_MODE_RANK0_REG as u64],
                old(self).topo(),
                addr,
            ),
    ;

    /// Blocks for at least `micros` microseconds of settle time.
    fn delay_micros(&mut self, micros: u32)
        ensures
            final(self).regs() == old(self).regs(),
            final(self).cells() == old(self).cells(),
            final(self).topo() == old(self).topo(),
    ;
}

/// How many times a poll loop samples a status register before giving the
/// hardware up as absent: an unbounded spin would hang a board whose
/// hardware never answers, while a bounded wait turns that into a
/// reportable condition.
pub const POLL_BOUND: u32 = 1_000_000;

/// Polls a hardware-driven register until the bits under `mask` equal
/// `want`; reports whether they did within [`POLL_BOUND`] samples.
pub fn wait_for_status<H: DramBus>(hw: &mut H, addr: u32, mask: u32, want: u32) -> (ok: bool)
    ensures
        final(hw).regs() == old(hw).regs(),
        final(hw).cells() == old(hw).cells(),
        final(hw).topo() == old(hw).topo(),
{
    let mut tries: u32 = 0;
    while tries < POLL_BOUND
        invariant
            hw.regs() == old(hw).regs(),
            hw.cells() == old(hw).cells(),
            hw.topo() == old(hw).topo(),
        decreases POLL_BOUND - tries,
    {
        if hw.read_status(addr) & mask == want {
            return true;
        }
        tries = tries + 1;
    }
    false
}

/// Polls a configuration register until it reads back `want`, which the
/// register-file premise guarantees on the first sample.
pub fn wait_reg_value<H: DramBus>(hw: &mut H, addr: u32, want: u32)
    ensures
        final(hw).regs() == old(hw).regs(),
        final(hw).cells() == old(hw).cells(),
        final(hw).topo() == old(hw).topo(),
{
    let mut tries: u32 = 0;
    while tries < POLL_BOUND
        invariant
            hw.regs() == old(hw).regs(),
            hw.cells() == old(hw).cells(),
            hw.topo() == old(hw).topo(),
        decreases POLL_BOUND - tries,
    {
        if hw.read_reg(addr) == want {
            return ;
        }
        tries = tries + 1;
    }
}

} // verus!
