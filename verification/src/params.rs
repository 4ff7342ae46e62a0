//! DRAM configuration parameters and the typed failures of the
//! initialization sequence.

use vstd::prelude::*;

verus! {

/// Type of DDR SDRAM.
#[derive(Clone, Copy, PartialEq, Eq, Structural, Debug)]
pub enum DramType {
    /// Double-Data-Rate Two (DDR2) Synchronous Dynamic Random Access Memory.
    Ddr2,
    /// Double-Data-Rate Three (DDR3) Synchronous Dynamic Random Access Memory.
    Ddr3,
    /// Low-Power Double-Data-Rate 2 (LPDDR2).
    Lpddr2,
    /// Low-Power Double-Data-Rate 3 (LPDDR3).
    Lpddr3,
}

impl DramType {
    /// Numeric code of the memory type as the controller's work-mode
    /// register encodes it.
    pub open spec fn spec_code(self) -> u32 {
        match self {
            DramType::Ddr2 => 2,
            DramType::Ddr3 => 3,
            DramType::Lpddr2 => 6,
            DramType::Lpddr3 => 7,
        }
    }

    /// Executable form of [`DramType::spec_code`].
    #[verifier::when_used_as_spec(spec_code)]
    pub fn code(self) -> (r: u32)
        ensures
            r == self.spec_code(),
    {
        match self {
            DramType::Ddr2 => 2,
            DramType::Ddr3 => 3,
            DramType::Lpddr2 => 6,
            DramType::Lpddr3 => 7,
        }
    }
}

/// Board- and chip-specific description of the target memory.
///
/// The record is created once per boot with vendor defaults and mutated in
/// place while the controller is brought up: the autoscan passes write the
/// discovered topology into `dram_para1` / `dram_para2`, and the timing
/// derivation fills the packed timing words `dram_tpr0..2` and the mode
/// registers `dram_mr0..3`.
#[derive(Clone, Copy, PartialEq, Eq, Structural, Debug)]
#[allow(non_camel_case_types)]
pub struct dram_parameters {
    /// Target DRAM clock in MHz.
    pub dram_clk: u32,
    /// Memory type; never changes after construction.
    pub dram_type: DramType,
    /// ZQ impedance calibration tuning word.
    pub dram_zq: u32,
    /// On-die-termination enable.
    pub dram_odt_en: u32,
    /// Per-rank topology: page size, row width and bank count, 16 bits per rank.
    pub dram_para1: u32,
    /// Rank count, DQ width and total size in MB (upper half).
    pub dram_para2: u32,
    /// Device mode register 0 (caller value wins if its upper 16 bits are set).
    pub dram_mr0: u32,
    /// Device mode register 1.
    pub dram_mr1: u32,
    /// Device mode register 2.
    pub dram_mr2: u32,
    /// Device mode register 3.
    pub dram_mr3: u32,
    /// Packed timing word: tccd/tfaw/trrd/trcd/trc.
    pub dram_tpr0: u32,
    /// Packed timing word: txp/twtr/trtp/twr/trp/tras.
    pub dram_tpr1: u32,
    /// Packed timing word: trfc/trefi.
    pub dram_tpr2: u32,
    pub dram_tpr3: u32,
    pub dram_tpr4: u32,
    /// Voltage-reference tuning for the address/command lanes.
    pub dram_tpr5: u32,
    /// Voltage-reference tuning for the data lanes.
    pub dram_tpr6: u32,
    pub dram_tpr7: u32,
    pub dram_tpr8: u32,
    /// Overriding DRAM clock, used when bit 6 of `dram_tpr13` is set.
    pub dram_tpr9: u32,
    pub dram_tpr10: u32,
    /// Per-lane eye-delay compensation offsets.
    pub dram_tpr11: u32,
    /// Per-lane eye-delay compensation offsets.
    pub dram_tpr12: u32,
    /// Behaviour switches: bit 0 skips the whole autoscan, bit 1 selects
    /// caller-supplied raw timing words, bits 3:2 pick the DQS gating mode,
    /// bit 6 enables the clock override, bit 14 skips the rank/width scan,
    /// bit 15 blocks the "resolved" marking, and further bits tune
    /// electrical details.
    pub dram_tpr13: u32,
}

/// Failures the initialization sequence can report.
///
/// The conditions the hardware flow treats as fatal (polls for PLL lock or
/// PHY ready that would otherwise spin forever) are reported as
/// [`DramError::NotResponding`] after a generous bounded wait.
#[derive(Clone, Copy, PartialEq, Eq, Structural, Debug)]
pub enum DramError {
    /// ZQ calibration failed; check the external 240 ohm resistor.
    ZqCalibration,
    /// The restricted training pass for rank/width discovery reported failure.
    RankWidthScan,
    /// The per-lane gating status bits matched no known rank/width pattern.
    DqsGateDetect,
    /// A status bit the sequence polls for never appeared.
    NotResponding,
    /// The self test read a wrong value back from the low test region.
    TestMismatchLow,
    /// The self test read a wrong value back from the offset test region.
    TestMismatchHigh,
}

} // verus!
