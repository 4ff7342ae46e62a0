//! Topology autoscan: discovers rank count, DQ width, row width, bank count
//! and page size by writing a test pattern to live memory and watching at
//! which power-of-two offsets it aliases back.

use vstd::prelude::*;

use crate::bus::{
    bit_kept, canon_addr, keep_mask, keep_mask_upto, mem_read_spec, regs_preserved_except,
    wait_reg_value, DramBus, MemTopology, MC_WORK_MODE_RANK0_REG, MC_WORK_MODE_RANK1_REG,
    PGSR0_REG, RAM_BASE,
};
use crate::channel::{dqs_gate_detect, is_core_init_reg, mctl_core_init, spec_rank_mode_bits};
use crate::params::{dram_parameters, DramError};

verus! {

/// Mirror of the rank-0 work mode in the controller's second register
/// block, kept in step during the per-rank scan.
pub const MC_ALT_WORK_MODE_RANK0_REG: u32 = 0x0320_2000;

/// Mirror of the rank-1 work mode in the controller's second register
/// block.
pub const MC_ALT_WORK_MODE_RANK1_REG: u32 = 0x0320_2004;

/// The address the test-pattern word `j` is written to.
pub open spec fn pattern_addr(j: int) -> u32 {
    (RAM_BASE + 4 * j) as u32
}

/// The test-pattern word at index `j`: the address itself at odd indexes,
/// its complement at even ones.
pub open spec fn spec_pattern(j: int) -> u32 {
    if j % 2 == 1 {
        pattern_addr(j)
    } else {
        !pattern_addr(j)
    }
}

/// The cell map after the first `n` pattern words are written under work
/// mode `wm`.
pub open spec fn pattern_cells(
    cells0: Map<u64, u32>,
    wm: u32,
    topo: MemTopology,
    n: int,
) -> Map<u64, u32>
    decreases n,
{
    if n <= 0 {
        cells0
    } else {
        pattern_cells(cells0, wm, topo, n - 1).insert(
            canon_addr(wm, topo, pattern_addr(n - 1)) as u64,
            spec_pattern(n - 1),
        )
    }
}

/// Writes the 64-word alternating test pattern at the base of RAM.
pub fn dramc_write_test_pattern<H: DramBus>(hw: &mut H)
    requires
        old(hw).regs().contains_key(MC_WORK_MODE_RANK0_REG as u64),
    ensures
        final(hw).regs() == old(hw).regs(),
        final(hw).topo() == old(hw).topo(),
        final(hw).cells() == pattern_cells(
            old(hw).cells(),
            old(hw).regs()[MC_WORK_MODE_RANK0_REG as u64],
            old(hw).topo(),
            64,
        ),
{
    let mut i: u32 = 0;
    while i < 64
        invariant
            i <= 64,
            hw.regs() == old(hw).regs(),
            hw.topo() == old(hw).topo(),
            hw.regs().contains_key(MC_WORK_MODE_RANK0_REG as u64),
            hw.cells() == pattern_cells(
                old(hw).cells(),
                old(hw).regs()[MC_WORK_MODE_RANK0_REG as u64],
                old(hw).topo(),
                i as int,
            ),
        decreases 64 - i,
    {
        let ptr: u32 = RAM_BASE + 4 * i;
        let val: u32 = if i & 1 != 0 {
            ptr
        } else {
            !ptr
        };
        proof {
            assert((i & 1 != 0) == (i as int % 2 == 1)) by (bit_vector);
        }
        hw.write_mem(ptr, val);
        i = i + 1;
    }
}

/// Whether the first `count` pattern words read back intact at `offset`
/// past the base: true exactly when every word matches, that is, when the
/// probed offset aliases back onto the pattern.
pub open spec fn spec_probe(
    cells: Map<u64, u32>,
    wm: u32,
    topo: MemTopology,
    offset: u32,
    count: int,
) -> bool {
    forall|j: int|
        0 <= j < count ==> mem_read_spec(cells, wm, topo, (RAM_BASE + offset + 4 * j) as u32)
            == spec_pattern(j)
}

/// Reads `count` words at `offset` past the base of RAM and compares them
/// with the test pattern.
pub fn check_pattern_at<H: DramBus>(hw: &mut H, offset: u32, count: u32) -> (r: bool)
    requires
        old(hw).regs().contains_key(MC_WORK_MODE_RANK0_REG as u64),
        offset <= 0x3000_0000,
        count <= 64,
    ensures
        final(hw).regs() == old(hw).regs(),
        final(hw).cells() == old(hw).cells(),
        final(hw).topo() == old(hw).topo(),
        r == spec_probe(
            old(hw).cells(),
            old(hw).regs()[MC_WORK_MODE_RANK0_REG as u64],
            old(hw).topo(),
            offset,
            count as int,
        ),
{
    let mut j: u32 = 0;
    while j < count
        invariant
            j <= count,
            count <= 64,
            offset <= 0x3000_0000,
            hw.regs() == old(hw).regs(),
            hw.cells() == old(hw).cells(),
            hw.topo() == old(hw).topo(),
            hw.regs().contains_key(MC_WORK_MODE_RANK0_REG as u64),
            forall|k: int|
                0 <= k < j ==> mem_read_spec(
                    old(hw).cells(),
                    old(hw).regs()[MC_WORK_MODE_RANK0_REG as u64],
                    old(hw).topo(),
                    (RAM_BASE + offset + 4 * k) as u32,
                ) == spec_pattern(k),
        decreases count - j,
    {
        let ptr: u32 = RAM_BASE + 4 * j;
        let chk: u32 = RAM_BASE + offset + 4 * j;
        let exp: u32 = if j & 1 != 0 {
            ptr
        } else {
            !ptr
        };
        proof {
            assert((j & 1 != 0) == (j as int % 2 == 1)) by (bit_vector);
        }
        let got = hw.read_mem(chk);
        if got != exp {
            proof {
                let cells = old(hw).cells();
                let wm = old(hw).regs()[MC_WORK_MODE_RANK0_REG as u64];
                let topo = old(hw).topo();
                assert(exp == spec_pattern(j as int));
                assert(spec_probe(cells, wm, topo, offset, count as int) ==> mem_read_spec(
                    cells,
                    wm,
                    topo,
                    (RAM_BASE + offset + 4 * (j as int)) as u32,
                ) == spec_pattern(j as int));
            }
            return false;
        }
        j = j + 1;
    }
    true
}

/// Result of the row scan started at line `i`: the first probed line whose
/// offset aliases, or 16 when none of the scanned range does. Line `i` maps
/// to the offset `1 << (i + 11)`.
pub open spec fn spec_row_scan_from(
    cells: Map<u64, u32>,
    wm: u32,
    topo: MemTopology,
    i: int,
) -> int
    decreases 17 - i,
{
    if i < 11 || i >= 17 {
        16
    } else if spec_probe(cells, wm, topo, (1u32 << ((i + 11) as u32)), 64) {
        i
    } else {
        spec_row_scan_from(cells, wm, topo, i + 1)
    }
}

/// Scans row address lines 11 to 16 for the first one whose offset wraps
/// around: the largest offset where all 64 pattern words still read back
/// means that address line does not exist physically.
pub fn scan_for_addr_wrap<H: DramBus>(hw: &mut H) -> (r: u32)
    requires
        old(hw).regs().contains_key(MC_WORK_MODE_RANK0_REG as u64),
    ensures
        final(hw).regs() == old(hw).regs(),
        final(hw).cells() == old(hw).cells(),
        final(hw).topo() == old(hw).topo(),
        11 <= r <= 16,
        r == spec_row_scan_from(
            old(hw).cells(),
            old(hw).regs()[MC_WORK_MODE_RANK0_REG as u64],
            old(hw).topo(),
            11,
        ),
{
    let mut i: u32 = 11;
    while i < 17
        invariant
            11 <= i <= 17,
            hw.regs() == old(hw).regs(),
            hw.cells() == old(hw).cells(),
            hw.topo() == old(hw).topo(),
            hw.regs().contains_key(MC_WORK_MODE_RANK0_REG as u64),
            spec_row_scan_from(
                old(hw).cells(),
                old(hw).regs()[MC_WORK_MODE_RANK0_REG as u64],
                old(hw).topo(),
                11,
            ) == spec_row_scan_from(
                old(hw).cells(),
                old(hw).regs()[MC_WORK_MODE_RANK0_REG as u64],
                old(hw).topo(),
                i as int,
            ),
        decreases 17 - i,
    {
        proof {
            assert(11 <= i <= 16 ==> (1u32 << (i + 11)) <= 0x1000_0000) by (bit_vector);
        }
        if check_pattern_at(hw, 1u32 << (i + 11), 64) {
            return i;
        }
        i = i + 1;
    }
    16
}

/// Result of the page scan started at column line `i`: the first probed
/// line whose offset `1 << i` aliases, or 13 when none in the range does.
pub open spec fn spec_page_scan_from(
    cells: Map<u64, u32>,
    wm: u32,
    topo: MemTopology,
    i: int,
) -> int
    decreases 15 - i,
{
    if i < 9 || i >= 15 {
        13
    } else if spec_probe(cells, wm, topo, (1u32 << (i as u32)), 64) {
        i
    } else {
        spec_page_scan_from(cells, wm, topo, i + 1)
    }
}

/// Scans column address lines 9 to 14 for the first one whose offset wraps
/// around, falling back to 13 when none does.
pub fn scan_for_addr_wrap2<H: DramBus>(hw: &mut H) -> (r: u32)
    requires
        old(hw).regs().contains_key(MC_WORK_MODE_RANK0_REG as u64),
    ensures
        final(hw).regs() == old(hw).regs(),
        final(hw).cells() == old(hw).cells(),
        final(hw).topo() == old(hw).topo(),
        9 <= r <= 14,
        r == spec_page_scan_from(
            old(hw).cells(),
            old(hw).regs()[MC_WORK_MODE_RANK0_REG as u64],
            old(hw).topo(),
            9,
        ),
{
    let mut i: u32 = 9;
    while i < 15
        invariant
            9 <= i <= 15,
            hw.regs() == old(hw).regs(),
            hw.cells() == old(hw).cells(),
            hw.topo() == old(hw).topo(),
            hw.regs().contains_key(MC_WORK_MODE_RANK0_REG as u64),
            spec_page_scan_from(
                old(hw).cells(),
                old(hw).regs()[MC_WORK_MODE_RANK0_REG as u64],
                old(hw).topo(),
                9,
            ) == spec_page_scan_from(
                old(hw).cells(),
                old(hw).regs()[MC_WORK_MODE_RANK0_REG as u64],
                old(hw).topo(),
                i as int,
            ),
        decreases 15 - i,
    {
        proof {
            assert(9 <= i <= 14 ==> (1u32 << i) <= 0x4000) by (bit_vector);
        }
        if check_pattern_at(hw, 1u32 << i, 64) {
            return i;
        }
        i = i + 1;
    }
    13
}

/// Registers the size scan may touch: everything a controller pass touches
/// plus the work-mode mirrors.
pub open spec fn is_size_scan_reg(a: u64) -> bool {
    ||| is_core_init_reg(a)
    ||| a == MC_ALT_WORK_MODE_RANK0_REG as u64
    ||| a == MC_ALT_WORK_MODE_RANK1_REG as u64
}

/// The packed per-rank topology word after one rank's scan results are
/// stored at the 16-bit half selected by `offs`: row count at `offs + 4`,
/// bank flag at `offs + 12`, page-size code at `offs`.
pub open spec fn spec_store_rank_results(p1: u32, rows: u32, bank: u32, pg: u32, offs: u32) -> u32 {
    let a = (p1 & !(0xffu32 << ((4 + offs) as u32))) | (rows << ((4 + offs) as u32));
    let b = (a & !(0xfu32 << ((12 + offs) as u32))) | (bank << ((12 + offs) as u32));
    (b & !(0xfu32 << offs)) | (pg << offs)
}

/// The page-size code stored in the packed topology word for a page scan
/// result: zero for the 512-byte minimum, else the size in kilobytes.
pub open spec fn spec_page_code(i: int) -> u32 {
    if i == 9 {
        0u32
    } else {
        1u32 << ((i - 10) as u32)
    }
}

/// Relates one rank's scan results to the cell contents: each figure is the
/// respective scan's verdict under a work mode with the documented fields.
pub open spec fn rank_scan_effect(
    cells: Map<u64, u32>,
    topo: MemTopology,
    wmr: u32,
    wmb: u32,
    wmp: u32,
    rows: u32,
    bank: u32,
    pg: u32,
) -> bool {
    &&& row_mode_fields(wmr)
    &&& bank_mode_fields(wmb)
    &&& page_mode_fields(wmp)
    &&& rows == spec_row_scan_from(cells, wmr, topo, 11)
    &&& bank == (if spec_probe(cells, wmb, topo, 1u32 << 22, 63) {
        0u32
    } else {
        1u32
    })
    &&& pg == spec_page_code(spec_page_scan_from(cells, wmp, topo, 9))
}

/// Scans one rank: discovers its row width, bank count and page size by
/// reconfiguring the scanned rank's work mode and probing for aliases, and
/// packs the findings into the half of `dram_para1` that `offs` selects.
fn scan_one_rank<H: DramBus>(
    para: &mut dram_parameters,
    hw: &mut H,
    wm_addr: u32,
    offs: u32,
    second_rank: bool,
) -> (results: (u32, u32, u32))
    requires
        old(hw).regs().contains_key(MC_WORK_MODE_RANK0_REG as u64),
        wm_addr == MC_WORK_MODE_RANK0_REG || wm_addr == MC_WORK_MODE_RANK1_REG,
        offs == 0 || offs == 16,
    ensures
        final(hw).cells() == old(hw).cells(),
        final(hw).topo() == old(hw).topo(),
        final(hw).regs().contains_key(MC_WORK_MODE_RANK0_REG as u64),
        regs_preserved_except(
            old(hw).regs(),
            final(hw).regs(),
            |a: u64|
                a == MC_WORK_MODE_RANK0_REG as u64 || a == MC_WORK_MODE_RANK1_REG as u64 || a
                    == MC_ALT_WORK_MODE_RANK0_REG as u64 || a == MC_ALT_WORK_MODE_RANK1_REG as u64,
        ),
        *final(para) == (dram_parameters {
            dram_para1: spec_store_rank_results(
                old(para).dram_para1,
                results.0,
                results.1,
                results.2,
                offs,
            ),
            ..*old(para)
        }),
        11 <= results.0 <= 16,
        results.1 <= 1,
        results.2 == 0 || results.2 == 1 || results.2 == 2 || results.2 == 4 || results.2 == 8
            || results.2 == 16,
        wm_addr == MC_WORK_MODE_RANK0_REG && !second_rank ==> exists|wmr: u32, wmb: u32, wmp: u32|
            #[trigger] rank_scan_effect(
                old(hw).cells(),
                old(hw).topo(),
                wmr,
                wmb,
                wmp,
                results.0,
                results.1,
                results.2,
            ),
{
    // Put the scanned rank in row mode: maximum row allocation, minimal
    // column and bank allocation.
    let v = hw.read_reg(wm_addr);
    let rv = (v & 0xfffff0f3) | 0x000006f0;
    proof {
        assert(((v & 0xfffff0f3) | 0x000006f0) >> 8 & 0xf == 6 && ((v & 0xfffff0f3) | 0x000006f0)
            >> 4 & 0xf == 15 && ((v & 0xfffff0f3) | 0x000006f0) >> 2 & 0x3 == 0) by (bit_vector);
    }
    let ghost wmr_w = rv;
    hw.write_reg(wm_addr, rv);
    wait_reg_value(hw, wm_addr, rv);
    let rows = scan_for_addr_wrap(hw);
    let shft: u32 = 4 + offs;
    para.dram_para1 = (para.dram_para1 & !(0xffu32 << shft)) | (rows << shft);

    // Put the ranks in bank-probe mode: a third bank line allocated above
    // the rows.
    if second_rank {
        let v = hw.read_reg(MC_WORK_MODE_RANK0_REG);
        hw.write_reg(MC_WORK_MODE_RANK0_REG, (v & 0xfffff003) | 0x000006a4);
    }
    let v = hw.read_reg(wm_addr);
    let rv = (v & 0xfffff003) | 0x000006a4;
    proof {
        assert(((v & 0xfffff003) | 0x000006a4) >> 8 & 0xf == 6 && ((v & 0xfffff003) | 0x000006a4)
            >> 4 & 0xf == 0xa && ((v & 0xfffff003) | 0x000006a4) >> 2 & 0x3 == 1 && 1u32 << 22
            == 0x400000) by (bit_vector);
    }
    let ghost wmb_w = rv;
    hw.write_reg(wm_addr, rv);
    wait_reg_value(hw, wm_addr, rv);
    // A mismatch at the third bank line's offset means the line is real.
    let bank: u32 = if check_pattern_at(hw, 1u32 << 22, 63) {
        0
    } else {
        1
    };
    let shft: u32 = 12 + offs;
    para.dram_para1 = (para.dram_para1 & !(0xfu32 << shft)) | (bank << shft);

    // Put the ranks in page mode: maximum column allocation.
    if second_rank {
        let v = hw.read_reg(MC_WORK_MODE_RANK0_REG);
        hw.write_reg(MC_WORK_MODE_RANK0_REG, (v & 0xfffff003) | 0x00000aa0);
    }
    let v = hw.read_reg(wm_addr);
    let rv = (v & 0xfffff003) | 0x00000aa0;
    proof {
        assert(((v & 0xfffff003) | 0x00000aa0) >> 8 & 0xf == 0xa && ((v & 0xfffff003) | 0x00000aa0)
            >> 4 & 0xf == 0xa && ((v & 0xfffff003) | 0x00000aa0) >> 2 & 0x3 == 0) by (bit_vector);
    }
    let ghost wmp_w = rv;
    hw.write_reg(wm_addr, rv);
    wait_reg_value(hw, wm_addr, rv);
    let i = scan_for_addr_wrap2(hw);
    let pgsize: u32 = if i == 9 {
        0
    } else {
        let sh: u32 = i - 10;
        proof {
            assert(sh <= 4 ==> (1u32 << sh == 1 || 1u32 << sh == 2 || 1u32 << sh == 4 || 1u32 << sh
                == 8 || 1u32 << sh == 16)) by (bit_vector);
        }
        1u32 << sh
    };
    para.dram_para1 = (para.dram_para1 & !(0xfu32 << offs)) | (pgsize << offs);

    // Keep the work-mode mirrors in row configuration.
    let v = hw.read_reg(MC_ALT_WORK_MODE_RANK0_REG);
    hw.write_reg(MC_ALT_WORK_MODE_RANK0_REG, (v & 0xfffff003) | 0x000006f0);
    let v = hw.read_reg(MC_ALT_WORK_MODE_RANK1_REG);
    hw.write_reg(MC_ALT_WORK_MODE_RANK1_REG, (v & 0xfffff003) | 0x000006f0);

    proof {
        if wm_addr == MC_WORK_MODE_RANK0_REG && !second_rank {
            assert(rank_scan_effect(
                old(hw).cells(),
                old(hw).topo(),
                wmr_w,
                wmb_w,
                wmp_w,
                rows,
                bank,
                pgsize,
            ));
        }
    }
    (rows, bank, pgsize)
}

/// The packed per-rank topology word the scan discovers for a chip of the
/// given shape, in the low half: its row width, its bank flag and its
/// page-size code.
pub open spec fn spec_discovered_para1(t: MemTopology) -> u32 {
    spec_store_rank_results(
        0,
        t.row_bits,
        if t.eight_banks {
            1u32
        } else {
            0u32
        },
        spec_page_code(t.page_bits as int),
        0,
    )
}

/// The true capacity in megabytes of a single-rank chip of the given
/// shape: two to the power of its page, bank and row address bits, less
/// the twenty bits of a megabyte.
pub open spec fn spec_chip_size_mb(t: MemTopology) -> u32 {
    1u32 << ((t.page_bits + t.row_bits + (if t.eight_banks {
        1int
    } else {
        0int
    }) - 18) as u32)
}

/// The size computation applied to a work mode carrying the discovered
/// topology of a single-rank chip returns the chip's true size.
pub proof fn lemma_size_of_discovered(low: u32, t: MemTopology)
    requires
        low & 0xfff == spec_rank_mode_bits(spec_discovered_para1(t), 0, 0),
        9 <= t.page_bits <= 13,
        11 <= t.row_bits <= 16,
    ensures
        low & 0x3 == 0,
        spec_size_fields_sum(low) >= 14,
        spec_dram_size_mb(low, 0) == spec_chip_size_mb(t),
{
    let rows = t.row_bits;
    let j: u32 = if t.eight_banks {
        1u32
    } else {
        0u32
    };
    let pg = spec_page_code(t.page_bits as int);
    assert(1u32 << 0 == 1 && 1u32 << 1 == 2 && 1u32 << 2 == 4 && 1u32 << 3 == 8 && 0x600u32 >> 8
        == 6 && 0x700u32 >> 8 == 7 && 0x800u32 >> 8 == 8 && 0x900u32 >> 8 == 9 && 0xa00u32 >> 8
        == 10) by (bit_vector);
    assert(pg == 0 || pg == 1 || pg == 2 || pg == 4 || pg == 8);
    let d = spec_discovered_para1(t);
    assert(d == ((((0u32 & !(0xffu32 << 4)) | (rows << 4)) & !(0xfu32 << 12)) | (j << 12)) & !(
    0xfu32 << 0) | (pg << 0));
    let dv = ((((0u32 & !(0xffu32 << 4)) | (rows << 4)) & !(0xfu32 << 12)) | (j << 12)) & !(
    0xfu32 << 0) | (pg << 0);
    assert(((dv >> 12) << 2) & 0x4 == (j << 2) && dv >> 4 == (rows | (j << 8)) && dv & 0xf == pg
        && (rows | (j << 8)) >= 11 && (0u32 >> 12) & 0x3 == 0) by (bit_vector)
        requires
            dv == ((((0u32 & !(0xffu32 << 4)) | (rows << 4)) & !(0xfu32 << 12)) | (j << 12)) & !(
            0xfu32 << 0) | (pg << 0) && 11 <= rows <= 16 && j <= 1 && (pg == 0 || pg == 1 || pg == 2
                || pg == 4 || pg == 8),
    ;
    let f = spec_rank_mode_bits(d, 0, 0);
    let pagecode: u32 = if pg == 8 {
        0xa00
    } else if pg == 4 {
        0x900
    } else if pg == 2 {
        0x800
    } else if pg == 1 {
        0x700
    } else {
        0x600
    };
    assert((((rows | (j << 8)) - 1) as u32) << 4 & 0xff == (((rows - 1) as u32) << 4))
        by (bit_vector)
        requires
            11 <= rows <= 16 && j <= 1,
    ;
    assert(f == (0u32 | (j << 2) | (((rows - 1) as u32) << 4) | pagecode));
    assert((low >> 8) & 0xf == pagecode >> 8 && (low >> 4) & 0xf == rows - 1 && (low >> 2) & 0x3
        == j && low & 0x3 == 0 && pagecode >> 8 >= 6) by (bit_vector)
        requires
            low & 0xfff == (0u32 | (j << 2) | (((rows - 1) as u32) << 4) | pagecode) && 11 <= rows
                <= 16 && j <= 1 && (pagecode == 0x600 || pagecode == 0x700 || pagecode == 0x800
                || pagecode == 0x900 || pagecode == 0xa00),
    ;
    assert(pagecode >> 8 == t.page_bits - 3);
    assert(spec_size_fields_sum(low) == t.page_bits - 3 + (rows - 1) + j);
}

/// Sizes the memory: runs one controller pass, writes the test pattern and
/// scans each rank's address lines, recording row width, bank count and
/// page size in `dram_para1`.
///
/// On a blank array whose topology the caller left open, the discovery is
/// exact: the packed word afterwards describes the chip itself.
pub fn auto_scan_dram_size<H: DramBus>(para: &mut dram_parameters, hw: &mut H) -> (r: Result<
    (),
    DramError,
>)
    requires
        crate::channel::core_init_ready(*old(para)),
    ensures
        final(hw).topo() == old(hw).topo(),
        regs_preserved_except(old(hw).regs(), final(hw).regs(), |a: u64| is_size_scan_reg(a)),
        match r {
            Ok(()) => {
                &&& 12 <= final(para).dram_clk <= 1_000_000
                &&& final(para).dram_tpr13 == old(para).dram_tpr13
                &&& final(para).dram_tpr9 == old(para).dram_tpr9
                &&& final(para).dram_para2 == old(para).dram_para2
                &&& final(para).dram_type == old(para).dram_type
                &&& (old(hw).cells() == Map::<u64, u32>::empty() && old(para).dram_para1 == 0
                    && old(para).dram_para2 == 0 && 9 <= old(hw).topo().page_bits <= 13 && 11 <= old(
                    hw,
                ).topo().row_bits <= 16) ==> final(para).dram_para1 == spec_discovered_para1(
                    old(hw).topo(),
                )
            },
            Err(e) => (e == DramError::ZqCalibration || e == DramError::NotResponding)
                && final(para).dram_tpr13 == old(para).dram_tpr13
                && final(para).dram_tpr9 == old(para).dram_tpr9,
        },
{
    let ghost g0 = hw.regs();
    match mctl_core_init(para, hw) {
        Ok(()) => (),
        Err(e) => {
            return Err(e);
        },
    }
    let ghost g1 = hw.regs();

    // Write the test pattern at the base of RAM.
    dramc_write_test_pattern(hw);

    let maxrank: u32 = if para.dram_para2 & 0xf000 == 0 {
        1
    } else {
        2
    };
    let ghost wm0 = hw.regs()[MC_WORK_MODE_RANK0_REG as u64];
    let ghost topo = hw.topo();
    let results = scan_one_rank(para, hw, MC_WORK_MODE_RANK0_REG, 0, false);
    proof {
        if old(hw).cells() == Map::<u64, u32>::empty() && old(para).dram_para1 == 0 && old(
            para,
        ).dram_para2 == 0 && 9 <= topo.page_bits <= 13 && 11 <= topo.row_bits <= 16 {
            // With the topology open, the work mode carries the degenerate
            // row configuration, so the pattern footprint is aligned.
            assert((0xffffffffu32 << 4) & 0xff == 0xf0 && ((0u32 | 0u32) | 0xf0u32) | 0x600u32
                == 0x6f0 && (0u32 >> 12) & 0x3 == 0 && ((0u32 >> 12) << 2) & 0x4 == 0 && 0u32 >> 4
                == 0 && 0u32 & 0xf == 0 && 0u32 & 0xf000 == 0 && (wm0 & 0xfff == 0x6f0 ==> (wm0
                >> 8) & 0xf == 6 && (wm0 >> 4) & 0xf == 15 && (wm0 >> 2) & 0x3 == 0))
                by (bit_vector);
            assert(spec_rank_mode_bits(0, 0, 0) == 0x6f0);
            assert(row_mode_fields(wm0));
            let cells = pattern_cells(Map::<u64, u32>::empty(), wm0, topo, 64);
            let (wmr, wmb, wmp): (u32, u32, u32) = choose|wmr: u32, wmb: u32, wmp: u32|
                rank_scan_effect(cells, topo, wmr, wmb, wmp, results.0, results.1, results.2);
            lemma_row_scan_exact(wm0, wmr, topo);
            lemma_bank_probe_exact(wm0, wmb, topo);
            lemma_page_scan_exact(wm0, wmp, topo);
            assert(results.0 == topo.row_bits);
            assert(results.1 == (if topo.eight_banks {
                1u32
            } else {
                0u32
            }));
            assert(results.2 == spec_page_code(topo.page_bits as int));
            assert(para.dram_para1 == spec_discovered_para1(topo));
        }
    }
    let ghost g2 = hw.regs();
    if maxrank == 2 {
        scan_one_rank(para, hw, MC_WORK_MODE_RANK1_REG, 16, true);
    }
    proof {
        let ghost g3 = hw.regs();
        assert forall|a: u64| !is_size_scan_reg(a) implies (hw.regs().contains_key(a)
            == g0.contains_key(a) && (g0.contains_key(a) ==> hw.regs()[a] == g0[a])) by {
            assert(!is_core_init_reg(a));
            assert(g1.contains_key(a) == g0.contains_key(a) && (g0.contains_key(a) ==> g1[a]
                == g0[a]));
            assert(g2.contains_key(a) == g1.contains_key(a) && (g1.contains_key(a) ==> g2[a]
                == g1[a]));
        }
    }
    Ok(())
}

/// Discovers the rank count and DQ width: forces a degenerate dual-rank,
/// full-width configuration with the DQS probe mode, runs a controller
/// pass, and reads the per-lane gating status off the trained PHY. The
/// findings land in `dram_para2`; every other parameter is restored.
pub fn auto_scan_dram_rank_width<H: DramBus>(para: &mut dram_parameters, hw: &mut H) -> (r: Result<
    (),
    DramError,
>)
    requires
        old(para).dram_clk <= 1_000_000,
        old(para).dram_tpr13 & 0x40 != 0 ==> 12 <= old(para).dram_tpr9 <= 1_000_000,
        old(para).dram_tpr13 & 0x40 == 0 ==> 12 <= old(para).dram_clk,
    ensures
        final(hw).cells() == old(hw).cells(),
        final(hw).topo() == old(hw).topo(),
        regs_preserved_except(old(hw).regs(), final(hw).regs(), |a: u64| is_core_init_reg(a)),
        match r {
            Ok(()) => {
                &&& final(para).dram_tpr13 == old(para).dram_tpr13
                &&& final(para).dram_para1 == old(para).dram_para1
                &&& final(para).dram_tpr9 == old(para).dram_tpr9
                &&& final(para).dram_type == old(para).dram_type
                &&& 12 <= final(para).dram_clk <= 1_000_000
                &&& (old(para).dram_para2 == 0 ==> final(para).dram_para2 <= 0xffff)
                &&& exists|pgsr: u32, dx0: u32, dx1: u32|
                    #[trigger] crate::channel::dqs_detect_effect(
                        pgsr,
                        dx0,
                        dx1,
                        (old(para).dram_para2 & 0xfffffff0) | 0x1000,
                        final(para).dram_para2,
                        Ok::<(), DramError>(()),
                    )
            },
            Err(e) => (e == DramError::ZqCalibration || e == DramError::NotResponding || e
                == DramError::RankWidthScan || e == DramError::DqsGateDetect)
                && final(para).dram_para1 == 0x00b000b0
                && final(para).dram_tpr13 == (old(para).dram_tpr13 & 0xfffffff7) | 0x5,
        },
{
    let s1 = para.dram_tpr13;
    let s2 = para.dram_para1;

    // Force two ranks, full width, and DQS probe mode.
    para.dram_para1 = 0x00b000b0;
    para.dram_para2 = (para.dram_para2 & 0xfffffff0) | 0x1000;
    para.dram_tpr13 = (s1 & 0xfffffff7) | 0x5;
    proof {
        assert(((s1 & 0xfffffff7) | 0x5) & 0x40 == s1 & 0x40 && (((s1 & 0xfffffff7) | 0x5) >> 2)
            & 0x3 == 1) by (bit_vector);
    }
    match mctl_core_init(para, hw) {
        Ok(()) => (),
        Err(e) => {
            return Err(e);
        },
    }
    if hw.read_status(PGSR0_REG) & (1u32 << 20) != 0 {
        return Err(DramError::RankWidthScan);
    }
    let ghost pre_dqs = *para;
    match dqs_gate_detect(para, hw) {
        Ok(()) => (),
        Err(e) => {
            return Err(e);
        },
    }
    para.dram_tpr13 = s1;
    para.dram_para1 = s2;
    proof {
        let w2: u32 = (old(para).dram_para2 & 0xfffffff0) | 0x1000;
        assert(pre_dqs.dram_para2 == w2);
        let (p, d0, d1): (u32, u32, u32) = choose|p: u32, d0: u32, d1: u32|
            crate::channel::dqs_detect_effect(
                p,
                d0,
                d1,
                pre_dqs.dram_para2,
                para.dram_para2,
                Ok::<(), DramError>(()),
            );
        assert(crate::channel::dqs_detect_effect(
            p,
            d0,
            d1,
            w2,
            para.dram_para2,
            Ok::<(), DramError>(()),
        ));
        assert(exists|pgsr: u32, dx0: u32, dx1: u32|
            #[trigger] crate::channel::dqs_detect_effect(
                pgsr,
                dx0,
                dx1,
                w2,
                para.dram_para2,
                Ok::<(), DramError>(()),
            ));
        if old(para).dram_para2 == 0 {
            assert((0u32 & 0xfffffff0) | 0x1000 == 0x1000 && 0x1000u32 & 0xffff0ff0 <= 0xffff && (
            0x1000u32 & 0xffff0ff0) | 0x1 <= 0xffff && (0x1000u32 & 0xfffffff0) | 0x1001 <= 0xffff
                && (0x1000u32 & 0xfffffff0) | 0x1000 <= 0xffff) by (bit_vector);
        }
    }
    Ok(())
}

/// Determines the SDRAM topology: the rank/width scan runs first when
/// needed, then the size scan, and once both are through the resolved bits
/// are set in `dram_tpr13` so a re-initialization skips the probing.
pub fn auto_scan_dram_config<H: DramBus>(para: &mut dram_parameters, hw: &mut H) -> (r: Result<
    (),
    DramError,
>)
    requires
        old(para).dram_clk <= 1_000_000,
        old(para).dram_tpr13 & 0x40 != 0 ==> 12 <= old(para).dram_tpr9 <= 1_000_000,
        old(para).dram_tpr13 & 0x40 == 0 ==> 12 <= old(para).dram_clk,
        (old(para).dram_tpr13 >> 2) & 0x3 == 2 ==> (old(para).dram_tpr13 >> 16) & 0x1f >= 2,
    ensures
        final(hw).topo() == old(hw).topo(),
        regs_preserved_except(old(hw).regs(), final(hw).regs(), |a: u64| is_size_scan_reg(a)),
        match r {
            Ok(()) => {
                &&& final(para).dram_tpr13 == (if old(para).dram_tpr13 & 0x8000 == 0 {
                    old(para).dram_tpr13 | 0x6003
                } else {
                    old(para).dram_tpr13
                })
                &&& final(para).dram_tpr9 == old(para).dram_tpr9
                &&& final(para).dram_type == old(para).dram_type
                &&& (old(para).dram_tpr13 & 0x1 == 0 || old(para).dram_tpr13 & 0x4000 == 0) ==> 12
                    <= final(para).dram_clk <= 1_000_000
                &&& (old(para).dram_tpr13 & 0x1 != 0 && old(para).dram_tpr13 & 0x4000 != 0)
                    ==> final(para).dram_clk == old(para).dram_clk
                &&& (old(para).dram_para2 == 0 ==> final(para).dram_para2 <= 0xffff)
                &&& (old(para).dram_tpr13 & 0x1 == 0 && old(hw).cells() == Map::<u64, u32>::empty()
                    && old(para).dram_para1 == 0 && old(para).dram_para2 == 0 && 9 <= old(
                    hw,
                ).topo().page_bits <= 13 && 11 <= old(hw).topo().row_bits <= 16
                    && final(para).dram_para2 == 0) ==> final(para).dram_para1
                    == spec_discovered_para1(old(hw).topo())
            },
            Err(e) => (e == DramError::ZqCalibration || e == DramError::NotResponding || e
                == DramError::RankWidthScan || e == DramError::DqsGateDetect)
                && (final(para).dram_tpr13 == old(para).dram_tpr13
                || final(para).dram_tpr13 == (old(para).dram_tpr13 & 0xfffffff7) | 0x5),
        },
{
    let ghost g0 = hw.regs();
    if para.dram_tpr13 & 0x4000 == 0 {
        match auto_scan_dram_rank_width(para, hw) {
            Ok(()) => (),
            Err(e) => {
                proof {
                    scan_config_frame(g0, hw.regs(), hw.regs());
                }
                return Err(e);
            },
        }
    }
    let ghost g1 = hw.regs();
    if para.dram_tpr13 & 0x1 == 0 {
        match auto_scan_dram_size(para, hw) {
            Ok(()) => (),
            Err(e) => {
                proof {
                    scan_config_frame(g0, g1, hw.regs());
                }
                return Err(e);
            },
        }
    }
    if para.dram_tpr13 & 0x8000 == 0 {
        para.dram_tpr13 = para.dram_tpr13 | 0x6003;
    }
    proof {
        scan_config_frame(g0, g1, hw.regs());
    }
    Ok(())
}

/// Chains the rank/width frame with the size-scan frame.
proof fn scan_config_frame(g0: Map<u64, u32>, g1: Map<u64, u32>, g2: Map<u64, u32>)
    requires
        regs_preserved_except(g0, g1, |a: u64| is_core_init_reg(a)),
        regs_preserved_except(g1, g2, |a: u64| is_size_scan_reg(a)),
    ensures
        regs_preserved_except(g0, g2, |a: u64| is_size_scan_reg(a)),
{
    assert forall|a: u64| !is_size_scan_reg(a) implies (g2.contains_key(a) == g0.contains_key(a)
        && (g0.contains_key(a) ==> g2[a] == g0[a])) by {
        assert(!is_core_init_reg(a));
        assert(g1.contains_key(a) == g0.contains_key(a) && (g0.contains_key(a) ==> g1[a] == g0[a]));
    }
}

/// The sum of the page, row and bank fields of a work-mode word, the log2
/// of the rank size in bytes less the fixed offsets.
pub open spec fn spec_size_fields_sum(w: u32) -> int {
    ((w >> 8) & 0xf) + ((w >> 4) & 0xf) + ((w >> 2) & 0x3)
}

/// The memory size in megabytes the two work-mode words describe: each
/// rank contributes two to the power of its page, row and bank allocation
/// less the twenty bits of a megabyte already counted; a second rank with a
/// clear rank field doubles the first.
pub open spec fn spec_dram_size_mb(low: u32, high: u32) -> u32 {
    let s0 = 1u32 << ((spec_size_fields_sum(low) - 14) as u32);
    if low & 0x3 == 0 {
        s0
    } else if high & 0x3 == 0 {
        (2 * s0) as u32
    } else {
        (s0 + (1u32 << ((spec_size_fields_sum(high) - 14) as u32))) as u32
    }
}

/// Reads the address allocation back from the work-mode registers and
/// computes the total usable memory in megabytes.
///
/// A rank whose fields describe less than one megabyte reports zero rather
/// than letting the exponent underflow.
pub fn dramc_get_dram_size<H: DramBus>(hw: &mut H) -> (r: u32)
    requires
        old(hw).regs().contains_key(MC_WORK_MODE_RANK0_REG as u64),
    ensures
        final(hw).regs() == old(hw).regs(),
        final(hw).cells() == old(hw).cells(),
        final(hw).topo() == old(hw).topo(),
        r <= 0x10_0000,
        ({
            let low = old(hw).regs()[MC_WORK_MODE_RANK0_REG as u64];
            &&& (spec_size_fields_sum(low) < 14 ==> r == 0)
            &&& (spec_size_fields_sum(low) >= 14 && low & 0x3 == 0 ==> r == spec_dram_size_mb(
                low,
                0,
            ))
            &&& (spec_size_fields_sum(low) >= 14 && low & 0x3 != 0 && old(
                hw,
            ).regs().contains_key(MC_WORK_MODE_RANK1_REG as u64) ==> {
                let high = old(hw).regs()[MC_WORK_MODE_RANK1_REG as u64];
                &&& (high & 0x3 == 0 ==> r == spec_dram_size_mb(low, high))
                &&& (high & 0x3 != 0 && spec_size_fields_sum(high) >= 14 ==> r
                    == spec_dram_size_mb(low, high))
                &&& (high & 0x3 != 0 && spec_size_fields_sum(high) < 14 ==> r == 0)
            })
        }),
{
    let low = hw.read_reg(MC_WORK_MODE_RANK0_REG);
    proof {
        assert(((low >> 8) & 0xf) <= 15 && ((low >> 4) & 0xf) <= 15 && ((low >> 2) & 0x3) <= 3)
            by (bit_vector);
    }
    let mut temp: u32 = (low >> 8) & 0xf;
    temp = temp + ((low >> 4) & 0xf);
    temp = temp + ((low >> 2) & 0x3);
    if temp < 14 {
        return 0;
    }
    temp = temp - 14;
    proof {
        assert(temp <= 19 ==> 1u32 << temp <= 0x80000) by (bit_vector);
    }
    let size0: u32 = 1u32 << temp;

    if low & 0x3 == 0 {
        return size0;
    }
    let high = hw.read_reg(MC_WORK_MODE_RANK1_REG);
    if high & 0x3 == 0 {
        // Two identical ranks.
        return 2 * size0;
    }
    proof {
        assert(((high >> 8) & 0xf) <= 15 && ((high >> 4) & 0xf) <= 15 && ((high >> 2) & 0x3) <= 3)
            by (bit_vector);
    }
    let mut t2: u32 = (high >> 8) & 0xf;
    t2 = t2 + ((high >> 4) & 0xf);
    t2 = t2 + ((high >> 2) & 0x3);
    if t2 < 14 {
        return 0;
    }
    t2 = t2 - 14;
    proof {
        assert(t2 <= 19 ==> 1u32 << t2 <= 0x80000) by (bit_vector);
    }
    let size1: u32 = 1u32 << t2;
    size0 + size1
}

/// The cell map after the first `n` write pairs of the self test: the low
/// pattern word at the base region and the offset pattern word at half the
/// memory size, and nothing else.
pub open spec fn wr_test_cells(
    cells0: Map<u64, u32>,
    wm: u32,
    topo: MemTopology,
    offs: u32,
    n: int,
) -> Map<u64, u32>
    decreases n,
{
    if n <= 0 {
        cells0
    } else {
        wr_test_cells(cells0, wm, topo, offs, n - 1).insert(
            canon_addr(wm, topo, (RAM_BASE + 4 * (n - 1)) as u32) as u64,
            (0x01234567 + (n - 1)) as u32,
        ).insert(
            canon_addr(wm, topo, (RAM_BASE + 4 * (n - 1) + offs) as u32) as u64,
            (0xfedcba98 + (n - 1)) as u32,
        )
    }
}

/// Whether both test regions hold their expected values: the low pattern at
/// the base of RAM and the offset pattern at half the memory size.
pub open spec fn spec_wr_test_ok(
    cells: Map<u64, u32>,
    wm: u32,
    topo: MemTopology,
    offs: u32,
    len: u32,
) -> bool {
    forall|i: int|
        #![trigger mem_read_spec(cells, wm, topo, (RAM_BASE + 4 * i) as u32)]
        0 <= i < len ==> mem_read_spec(cells, wm, topo, (RAM_BASE + 4 * i) as u32) == (0x01234567
            + i) as u32 && mem_read_spec(cells, wm, topo, (RAM_BASE + offs + 4 * i) as u32) == (
        0xfedcba98 + i) as u32
}

/// Writes two distinct counting patterns, one at the base of RAM and one at
/// half the discovered size, and reads both back. A mismatch means the two
/// regions alias or the array does not retain data.
pub fn dramc_simple_wr_test<H: DramBus>(hw: &mut H, mem_mb: u32, len: u32) -> (r: Result<
    (),
    DramError,
>)
    requires
        old(hw).regs().contains_key(MC_WORK_MODE_RANK0_REG as u64),
        mem_mb <= 0x4000,
        len <= 0x0123_4568,
    ensures
        final(hw).regs() == old(hw).regs(),
        final(hw).topo() == old(hw).topo(),
        final(hw).cells() == wr_test_cells(
            old(hw).cells(),
            old(hw).regs()[MC_WORK_MODE_RANK0_REG as u64],
            old(hw).topo(),
            ((mem_mb >> 1) as u32) << 18,
            len as int,
        ),
        r == Ok::<(), DramError>(()) <==> spec_wr_test_ok(
            final(hw).cells(),
            final(hw).regs()[MC_WORK_MODE_RANK0_REG as u64],
            final(hw).topo(),
            ((mem_mb >> 1) as u32) << 18,
            len,
        ),
        r is Err ==> r == Err::<(), DramError>(DramError::TestMismatchLow) || r == Err::<
            (),
            DramError,
        >(DramError::TestMismatchHigh),
{
    let offs: u32 = (mem_mb >> 1) << 18;
    proof {
        assert(mem_mb <= 0x4000 ==> ((mem_mb >> 1) << 18) <= 0x8000_0000) by (bit_vector);
    }
    let patt1: u32 = 0x01234567;
    let patt2: u32 = 0xfedcba98;

    let mut i: u32 = 0;
    while i < len
        invariant
            i <= len,
            len <= 0x0123_4568,
            offs <= 0x8000_0000,
            offs == ((mem_mb >> 1) as u32) << 18,
            patt1 == 0x01234567,
            patt2 == 0xfedcba98,
            hw.regs() == old(hw).regs(),
            hw.topo() == old(hw).topo(),
            hw.regs().contains_key(MC_WORK_MODE_RANK0_REG as u64),
            hw.cells() == wr_test_cells(
                old(hw).cells(),
                old(hw).regs()[MC_WORK_MODE_RANK0_REG as u64],
                old(hw).topo(),
                offs,
                i as int,
            ),
        decreases len - i,
    {
        let addr: u32 = RAM_BASE + 4 * i;
        hw.write_mem(addr, patt1 + i);
        hw.write_mem(addr + offs, patt2 + i);
        i = i + 1;
    }
    let ghost cs = hw.cells();
    let mut i: u32 = 0;
    while i < len
        invariant
            i <= len,
            len <= 0x0123_4568,
            offs <= 0x8000_0000,
            offs == ((mem_mb >> 1) as u32) << 18,
            patt1 == 0x01234567,
            patt2 == 0xfedcba98,
            hw.regs() == old(hw).regs(),
            hw.topo() == old(hw).topo(),
            hw.cells() == cs,
            cs == wr_test_cells(
                old(hw).cells(),
                old(hw).regs()[MC_WORK_MODE_RANK0_REG as u64],
                old(hw).topo(),
                offs,
                len as int,
            ),
            hw.regs().contains_key(MC_WORK_MODE_RANK0_REG as u64),
            forall|k: int|
                #![trigger mem_read_spec(hw.cells(), hw.regs()[MC_WORK_MODE_RANK0_REG as u64], hw.topo(), (RAM_BASE + 4 * k) as u32)]
                0 <= k < i ==> mem_read_spec(
                    hw.cells(),
                    hw.regs()[MC_WORK_MODE_RANK0_REG as u64],
                    hw.topo(),
                    (RAM_BASE + 4 * k) as u32,
                ) == (0x01234567 + k) as u32 && mem_read_spec(
                    hw.cells(),
                    hw.regs()[MC_WORK_MODE_RANK0_REG as u64],
                    hw.topo(),
                    (RAM_BASE + (offs as int) + 4 * k) as u32,
                ) == (0xfedcba98 + k) as u32,
        decreases len - i,
    {
        let addr: u32 = RAM_BASE + 4 * i;
        let val = hw.read_mem(addr);
        if val != patt1 + i {
            proof {
                let wm = hw.regs()[MC_WORK_MODE_RANK0_REG as u64];
                assert(spec_wr_test_ok(hw.cells(), wm, hw.topo(), offs, len) ==> mem_read_spec(
                    hw.cells(),
                    wm,
                    hw.topo(),
                    (RAM_BASE + 4 * (i as int)) as u32,
                ) == (0x01234567 + i as int) as u32);
            }
            return Err(DramError::TestMismatchLow);
        }
        let val = hw.read_mem(addr + offs);
        if val != patt2 + i {
            proof {
                let wm = hw.regs()[MC_WORK_MODE_RANK0_REG as u64];
                assert(spec_wr_test_ok(hw.cells(), wm, hw.topo(), offs, len) ==> mem_read_spec(
                    hw.cells(),
                    wm,
                    hw.topo(),
                    (RAM_BASE + (offs as int) + 4 * (i as int)) as u32,
                ) == (0xfedcba98 + i as int) as u32);
            }
            return Err(DramError::TestMismatchHigh);
        }
        proof {
            assert(mem_read_spec(
                hw.cells(),
                hw.regs()[MC_WORK_MODE_RANK0_REG as u64],
                hw.topo(),
                (RAM_BASE + 4 * (i as int)) as u32,
            ) == (0x01234567 + i as int) as u32);
            assert(mem_read_spec(
                hw.cells(),
                hw.regs()[MC_WORK_MODE_RANK0_REG as u64],
                hw.topo(),
                (RAM_BASE + (offs as int) + 4 * (i as int)) as u32,
            ) == (0xfedcba98 + i as int) as u32);
        }
        i = i + 1;
    }
    Ok(())
}

/// Bit `b` of the partial keep mask is set exactly when `b` lies below `n`
/// and reaches a real address line.
proof fn lemma_keep_mask_upto_bit(wm: u32, topo: MemTopology, n: int, b: u32)
    requires
        0 <= n <= 32,
        b < 32,
    ensures
        ((keep_mask_upto(wm, topo, n) >> b) & 1 == 1) <==> (b < n && bit_kept(wm, topo, b as int)),
    decreases n,
{
    if n <= 0 {
        assert((0u32 >> b) & 1 != 1) by (bit_vector);
    } else {
        lemma_keep_mask_upto_bit(wm, topo, n - 1, b);
        let m = keep_mask_upto(wm, topo, n - 1);
        let k: u32 = (n - 1) as u32;
        if bit_kept(wm, topo, n - 1) {
            if b == k {
                assert(((m | (1u32 << k)) >> b) & 1 == 1) by (bit_vector)
                    requires
                        b == k && k < 32,
                ;
            } else {
                assert(((m | (1u32 << k)) >> b) & 1 == (m >> b) & 1) by (bit_vector)
                    requires
                        b != k && k < 32 && b < 32,
                ;
            }
        }
    }
}

/// Bit `b` of the keep mask is set exactly when address bit `b` reaches a
/// real line.
proof fn lemma_keep_mask_bit(wm: u32, topo: MemTopology, b: u32)
    requires
        b < 32,
    ensures
        ((keep_mask(wm, topo) >> b) & 1 == 1) <==> bit_kept(wm, topo, b as int),
{
    lemma_keep_mask_upto_bit(wm, topo, 32, b);
}

/// Work-mode fields of the row scan configuration: 512-byte pages, sixteen
/// row lines, four banks.
pub open spec fn row_mode_fields(wm: u32) -> bool {
    (wm >> 8) & 0xf == 6 && (wm >> 4) & 0xf == 15 && (wm >> 2) & 0x3 == 0
}

/// Work-mode fields of the page scan configuration: 8-kilobyte pages,
/// eleven row lines, four banks.
pub open spec fn page_mode_fields(wm: u32) -> bool {
    (wm >> 8) & 0xf == 0xa && (wm >> 4) & 0xf == 0xa && (wm >> 2) & 0x3 == 0
}

/// Work-mode fields of the bank probe configuration: 512-byte pages, eleven
/// row lines, a third bank line allocated above the rows at bit 22.
pub open spec fn bank_mode_fields(wm: u32) -> bool {
    (wm >> 8) & 0xf == 6 && (wm >> 4) & 0xf == 0xa && (wm >> 2) & 0x3 == 1
}

/// Whether a work mode keeps the pattern footprint where it was written:
/// address bits 2 to 7 reach real lines and bit 30 wraps, so every pattern
/// word sits in the cell its low bits name.
spec fn footprint_aligned(wm: u32, topo: MemTopology) -> bool {
    &&& forall|b: int| 2 <= b <= 7 ==> bit_kept(wm, topo, b)
    &&& !bit_kept(wm, topo, 30)
}

/// The three scan configurations all keep the pattern footprint, for any
/// chip with at least 512-byte pages.
proof fn lemma_mode_footprint(wm: u32, topo: MemTopology)
    requires
        9 <= topo.page_bits,
        row_mode_fields(wm) || page_mode_fields(wm) || bank_mode_fields(wm),
    ensures
        footprint_aligned(wm, topo),
{
}

/// Under an aligned work mode, the canonical cell of pattern word `j` is
/// its low address bits.
proof fn lemma_canon_pattern(wm: u32, topo: MemTopology, j: int)
    requires
        0 <= j < 64,
        footprint_aligned(wm, topo),
    ensures
        canon_addr(wm, topo, pattern_addr(j)) == (4 * j) as u32,
{
    let mask = keep_mask(wm, topo);
    lemma_keep_mask_bit(wm, topo, 2);
    lemma_keep_mask_bit(wm, topo, 3);
    lemma_keep_mask_bit(wm, topo, 4);
    lemma_keep_mask_bit(wm, topo, 5);
    lemma_keep_mask_bit(wm, topo, 6);
    lemma_keep_mask_bit(wm, topo, 7);
    lemma_keep_mask_bit(wm, topo, 30);
    let ju: u32 = j as u32;
    assert((((0x4000_0000u32 + 4 * ju) as u32) & mask) == (4 * ju) as u32) by (bit_vector)
        requires
            ju < 64 && (mask >> 2) & 1 == 1 && (mask >> 3) & 1 == 1 && (mask >> 4) & 1 == 1 && (
            mask >> 5) & 1 == 1 && (mask >> 6) & 1 == 1 && (mask >> 7) & 1 == 1 && (mask >> 30) & 1
                != 1,
    ;
}

/// The cell key of pattern word `j` under an aligned work mode.
spec fn word_key(j: int) -> u64 {
    (4 * j) as u64
}

/// Looking the pattern cells up: every pattern word sits under its low
/// address bits, and nothing else was written.
proof fn lemma_pattern_cells_upto(wm: u32, topo: MemTopology, n: int)
    requires
        0 <= n <= 64,
        footprint_aligned(wm, topo),
    ensures
        forall|j: int|
            0 <= j < n ==> #[trigger] pattern_cells(
                Map::<u64, u32>::empty(),
                wm,
                topo,
                n,
            ).contains_key((4 * j) as u64) && pattern_cells(Map::<u64, u32>::empty(), wm, topo, n)[(
                4 * j) as u64] == spec_pattern(j),
        forall|c: u64|
            #[trigger] pattern_cells(Map::<u64, u32>::empty(), wm, topo, n).contains_key(c)
                ==> exists|j: int| 0 <= j < n && c == #[trigger] word_key(j),
    decreases n,
{
    if n > 0 {
        lemma_pattern_cells_upto(wm, topo, n - 1);
        lemma_canon_pattern(wm, topo, n - 1);
        let prev = pattern_cells(Map::<u64, u32>::empty(), wm, topo, n - 1);
        let cur = pattern_cells(Map::<u64, u32>::empty(), wm, topo, n);
        assert(cur == prev.insert((4 * (n - 1)) as u64, spec_pattern(n - 1)));
        assert forall|c: u64| #[trigger] cur.contains_key(c) implies exists|j: int|
            0 <= j < n && c == #[trigger] word_key(j) by {
            if c == (4 * (n - 1)) as u64 {
                assert(0 <= n - 1 < n && c == word_key(n - 1));
            } else {
                assert(prev.contains_key(c));
            }
        }
    }
}

/// What one probe read returns from the pattern cells: the pattern word
/// itself when the probed bit wraps, and an untouched cell when it reaches
/// a real line.
proof fn lemma_probe_read(wm_w: u32, wm_r: u32, topo: MemTopology, k: u32, j: int)
    requires
        9 <= k < 30,
        0 <= j < 64,
        footprint_aligned(wm_w, topo),
        footprint_aligned(wm_r, topo),
    ensures
        !bit_kept(wm_r, topo, k as int) ==> mem_read_spec(
            pattern_cells(Map::<u64, u32>::empty(), wm_w, topo, 64),
            wm_r,
            topo,
            (RAM_BASE + (1u32 << k) + 4 * j) as u32,
        ) == spec_pattern(j),
        bit_kept(wm_r, topo, k as int) ==> mem_read_spec(
            pattern_cells(Map::<u64, u32>::empty(), wm_w, topo, 64),
            wm_r,
            topo,
            (RAM_BASE + (1u32 << k) + 4 * j) as u32,
        ) == 0,
{
    let cells = pattern_cells(Map::<u64, u32>::empty(), wm_w, topo, 64);
    lemma_pattern_cells_upto(wm_w, topo, 64);
    lemma_canon_pattern(wm_r, topo, j);
    let mask = keep_mask(wm_r, topo);
    lemma_keep_mask_bit(wm_r, topo, 2);
    lemma_keep_mask_bit(wm_r, topo, 3);
    lemma_keep_mask_bit(wm_r, topo, 4);
    lemma_keep_mask_bit(wm_r, topo, 5);
    lemma_keep_mask_bit(wm_r, topo, 6);
    lemma_keep_mask_bit(wm_r, topo, 7);
    lemma_keep_mask_bit(wm_r, topo, 30);
    lemma_keep_mask_bit(wm_r, topo, k);
    let ju: u32 = j as u32;
    if !bit_kept(wm_r, topo, k as int) {
        assert((((0x4000_0000u32 + (1u32 << k) + 4 * ju) as u32) & mask) == ((0x4000_0000u32 + 4
            * ju) as u32) & mask) by (bit_vector)
            requires
                ju < 64 && 9 <= k < 30 && (mask >> k) & 1 != 1,
        ;
    } else {
        assert((((0x4000_0000u32 + (1u32 << k) + 4 * ju) as u32) & mask) == (((4 * ju) as u32) | (
        1u32 << k))) by (bit_vector)
            requires
                ju < 64 && 9 <= k < 30 && (mask >> k) & 1 == 1 && (mask >> 2) & 1 == 1 && (mask
                    >> 3) & 1 == 1 && (mask >> 4) & 1 == 1 && (mask >> 5) & 1 == 1 && (mask >> 6)
                    & 1 == 1 && (mask >> 7) & 1 == 1 && (mask >> 30) & 1 != 1,
        ;
        let key: u32 = ((4 * ju) as u32) | (1u32 << k);
        assert(key >= 512) by (bit_vector)
            requires
                key == ((4 * ju) as u32) | (1u32 << k) && 9 <= k < 30,
        ;
        assert forall|jj: int| 0 <= jj < 64 implies key as u64 != word_key(jj) by {
            assert(4 * jj < 256);
        }
        assert(!cells.contains_key(key as u64));
    }
}

/// A probe at a wrapped bit reads the whole pattern back; one at a real bit
/// finds the first word missing.
proof fn lemma_probe_outcome(wm_w: u32, wm_r: u32, topo: MemTopology, k: u32, count: int)
    requires
        9 <= k < 30,
        1 <= count <= 64,
        footprint_aligned(wm_w, topo),
        footprint_aligned(wm_r, topo),
    ensures
        spec_probe(
            pattern_cells(Map::<u64, u32>::empty(), wm_w, topo, 64),
            wm_r,
            topo,
            1u32 << k,
            count,
        ) == !bit_kept(wm_r, topo, k as int),
{
    let cells = pattern_cells(Map::<u64, u32>::empty(), wm_w, topo, 64);
    if bit_kept(wm_r, topo, k as int) {
        lemma_probe_read(wm_w, wm_r, topo, k, 0);
        assert(spec_pattern(0) == !(0x4000_0000u32));
        assert(!(0x4000_0000u32) != 0) by (bit_vector);
        assert(mem_read_spec(cells, wm_r, topo, (RAM_BASE + (1u32 << k) + 4 * 0) as u32) != spec_pattern(0));
        assert(!spec_probe(cells, wm_r, topo, 1u32 << k, count));
    } else {
        assert forall|j: int| 0 <= j < count implies mem_read_spec(
            cells,
            wm_r,
            topo,
            (RAM_BASE + (1u32 << k) + 4 * j) as u32,
        ) == spec_pattern(j) by {
            lemma_probe_read(wm_w, wm_r, topo, k, j);
        }
    }
}

/// Row-width discovery is exact: with the test pattern freshly written on a
/// blank array, the row scan returns exactly the chip's row width, whatever
/// aligned mode wrote the pattern and regardless of any other scan having
/// read the array before, since scans only read.
pub proof fn lemma_row_scan_exact(wm_w: u32, wm_r: u32, topo: MemTopology)
    requires
        row_mode_fields(wm_w) || page_mode_fields(wm_w) || bank_mode_fields(wm_w),
        row_mode_fields(wm_r),
        9 <= topo.page_bits <= 13,
        11 <= topo.row_bits <= 16,
    ensures
        spec_row_scan_from(
            pattern_cells(Map::<u64, u32>::empty(), wm_w, topo, 64),
            wm_r,
            topo,
            11,
        ) == topo.row_bits,
{
    lemma_mode_footprint(wm_w, topo);
    lemma_mode_footprint(wm_r, topo);
    lemma_row_scan_step(wm_w, wm_r, topo, 11);
}

/// The row scan from line `i` returns the row width when no smaller probed
/// line is real.
proof fn lemma_row_scan_step(wm_w: u32, wm_r: u32, topo: MemTopology, i: int)
    requires
        row_mode_fields(wm_r),
        footprint_aligned(wm_w, topo),
        footprint_aligned(wm_r, topo),
        9 <= topo.page_bits <= 13,
        11 <= topo.row_bits <= 16,
        11 <= i <= topo.row_bits,
    ensures
        spec_row_scan_from(
            pattern_cells(Map::<u64, u32>::empty(), wm_w, topo, 64),
            wm_r,
            topo,
            i,
        ) == topo.row_bits,
    decreases topo.row_bits - i,
{
    let ku: u32 = (i + 11) as u32;
    lemma_probe_outcome(wm_w, wm_r, topo, ku, 64);
    // Probed bit i + 11 is row line i: real exactly below the row width.
    assert(bit_kept(wm_r, topo, (i + 11) as int) <==> i < topo.row_bits);
    if i < topo.row_bits {
        lemma_row_scan_step(wm_w, wm_r, topo, i + 1);
    }
}

/// Page-size discovery is exact: the page scan returns exactly the chip's
/// page width.
pub proof fn lemma_page_scan_exact(wm_w: u32, wm_r: u32, topo: MemTopology)
    requires
        row_mode_fields(wm_w) || page_mode_fields(wm_w) || bank_mode_fields(wm_w),
        page_mode_fields(wm_r),
        9 <= topo.page_bits <= 13,
        11 <= topo.row_bits <= 16,
    ensures
        spec_page_scan_from(
            pattern_cells(Map::<u64, u32>::empty(), wm_w, topo, 64),
            wm_r,
            topo,
            9,
        ) == topo.page_bits,
{
    lemma_mode_footprint(wm_w, topo);
    lemma_mode_footprint(wm_r, topo);
    lemma_page_scan_step(wm_w, wm_r, topo, 9);
}

/// The page scan from column line `i` returns the page width when no
/// smaller probed line is real.
proof fn lemma_page_scan_step(wm_w: u32, wm_r: u32, topo: MemTopology, i: int)
    requires
        page_mode_fields(wm_r),
        footprint_aligned(wm_w, topo),
        footprint_aligned(wm_r, topo),
        9 <= topo.page_bits <= 13,
        11 <= topo.row_bits <= 16,
        9 <= i <= topo.page_bits,
    ensures
        spec_page_scan_from(
            pattern_cells(Map::<u64, u32>::empty(), wm_w, topo, 64),
            wm_r,
            topo,
            i,
        ) == topo.page_bits,
    decreases topo.page_bits - i,
{
    if i == 13 {
        // The fallback: thirteen column bits without a wraparound found.
        assert(spec_page_scan_from(
            pattern_cells(Map::<u64, u32>::empty(), wm_w, topo, 64),
            wm_r,
            topo,
            13,
        ) == 13) by {
            let cells = pattern_cells(Map::<u64, u32>::empty(), wm_w, topo, 64);
            lemma_probe_outcome(wm_w, wm_r, topo, 13, 64);
            lemma_probe_outcome(wm_w, wm_r, topo, 14, 64);
            assert(bit_kept(wm_r, topo, 13));
            assert(bit_kept(wm_r, topo, 14));
            assert(spec_page_scan_from(cells, wm_r, topo, 15) == 13);
            assert(spec_page_scan_from(cells, wm_r, topo, 14) == 13);
        }
    } else {
        let ku: u32 = i as u32;
        lemma_probe_outcome(wm_w, wm_r, topo, ku, 64);
        assert(bit_kept(wm_r, topo, i as int) <==> i < topo.page_bits);
        if i < topo.page_bits {
            lemma_page_scan_step(wm_w, wm_r, topo, i + 1);
        }
    }
}

/// Bank-count discovery is exact: the one-shot probe at the third bank
/// line's offset reads the pattern back exactly on a four-bank part, where
/// the line wraps around.
pub proof fn lemma_bank_probe_exact(wm_w: u32, wm_r: u32, topo: MemTopology)
    requires
        row_mode_fields(wm_w) || page_mode_fields(wm_w) || bank_mode_fields(wm_w),
        bank_mode_fields(wm_r),
        9 <= topo.page_bits <= 13,
        11 <= topo.row_bits <= 16,
    ensures
        spec_probe(
            pattern_cells(Map::<u64, u32>::empty(), wm_w, topo, 64),
            wm_r,
            topo,
            1u32 << 22,
            63,
        ) == !topo.eight_banks,
{
    lemma_mode_footprint(wm_w, topo);
    lemma_mode_footprint(wm_r, topo);
    lemma_probe_outcome(wm_w, wm_r, topo, 22, 63);
    // Bit 22 sits just above the eleven allocated row lines: the third
    // bank line, real exactly on an eight-bank part.
    assert(bit_kept(wm_r, topo, 22) <==> topo.eight_banks);
}

} // verus!
