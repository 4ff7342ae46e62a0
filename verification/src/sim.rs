//! A simulated hardware bus: a register file backed by a map, scripted
//! status registers, and a DRAM array with the wraparound semantics of the
//! decode model. Every method is verified against the [`DramBus`]
//! contracts, so the initialization sequence can be exercised and its
//! topology discovery proved against a memory of known shape.

use std::collections::HashMap;

use vstd::prelude::*;

use crate::bus::{
    bit_kept, canon_addr, keep_mask, keep_mask_upto, mem_read_spec, DramBus, MemTopology,
    DX0GSR0_REG, DX1GSR0_REG, MC_WORK_MODE_RANK0_REG, PGSR0_REG, PLL_DDR_CTRL_REG, SID_INFO_REG,
    STATR_REG, SYS_RESUME_FLAG_REG,
};

verus! {

/// Whether address bit `b` reaches a real line under work mode `wm`.
fn bit_kept_exec(wm: u32, topo: MemTopology, b: u32) -> (r: bool)
    requires
        b < 32,
    ensures
        r == bit_kept(wm, topo, b as int),
{
    proof {
        assert((wm >> 8) & 0xf < 16 && (wm >> 4) & 0xf < 16) by (bit_vector);
    }
    let ca: u32 = ((wm >> 8) & 0xf) + 3;
    let ra: u32 = ((wm >> 4) & 0xf) + 1;
    let b2: bool = (wm >> 2) & 0x3 == 1;
    let top: u32 = ca + 2 + ra + (if b2 {
        1
    } else {
        0
    });
    b < top && (b >= ca || b < topo.page_bits) && (!(ca + 2 <= b && b < ca + 2 + ra) || b - (ca + 2)
        < topo.row_bits) && (!(b2 && b == ca + 2 + ra) || topo.eight_banks)
}

/// The canonical cell index of `addr` under work mode `wm`: the address
/// with every wrapped-around bit cleared.
pub fn canon_addr_exec(wm: u32, topo: MemTopology, addr: u32) -> (r: u32)
    ensures
        r == canon_addr(wm, topo, addr),
{
    let mut mask: u32 = 0;
    let mut b: u32 = 0;
    while b < 32
        invariant
            b <= 32,
            mask == keep_mask_upto(wm, topo, b as int),
        decreases 32 - b,
    {
        if bit_kept_exec(wm, topo, b) {
            mask = mask | (1u32 << b);
        }
        b = b + 1;
    }
    addr & mask
}

/// Simulated hardware: configuration registers land in a map and read back
/// exactly; the scripted fields below answer reads of the status registers
/// the PHY drives on its own; and the memory array wraps addresses through
/// the decode model for a chosen topology.
pub struct SimBus {
    cfg: HashMap<u64, u32>,
    mem: HashMap<u64, u32>,
    topology: MemTopology,
    /// Value every read of the program status register returns.
    pub pgsr0: u32,
    /// Value every read of the controller status register returns.
    pub statr: u32,
    /// Gating status of byte lane 0.
    pub dx0_gsr: u32,
    /// Gating status of byte lane 1.
    pub dx1_gsr: u32,
    /// Resume flag word; bit 16 set means resume rather than fresh boot.
    pub resume_flag: u32,
    /// Silicon fuse identifier word.
    pub sid: u32,
}

impl SimBus {
    /// A fresh simulated board: empty register file, blank memory of the
    /// given topology, and status registers scripted for an untrained PHY
    /// whose polls succeed at once.
    pub fn new(topology: MemTopology, pgsr0: u32, dx0_gsr: u32, dx1_gsr: u32, sid: u32) -> (r:
        SimBus)
        ensures
            r.regs() == Map::<u64, u32>::empty(),
            r.cells() == Map::<u64, u32>::empty(),
            r.topo() == topology,
    {
        SimBus {
            cfg: HashMap::new(),
            mem: HashMap::new(),
            topology,
            pgsr0,
            statr: 1,
            dx0_gsr,
            dx1_gsr,
            resume_flag: 0,
            sid,
        }
    }

    /// The last value written to a configuration register, for inspection.
    pub fn reg(&self, addr: u32) -> (r: Option<u32>)
        ensures
            match r {
                Some(v) => self.regs().contains_key(addr as u64) && v == self.regs()[addr as u64],
                None => !self.regs().contains_key(addr as u64),
            },
    {
        match self.cfg.get(&(addr as u64)) {
            Some(v) => Some(*v),
            None => None,
        }
    }

    /// The word stored at `addr` as the current work mode reads it.
    pub fn mem_word(&self, addr: u32) -> (r: u32)
        ensures
            self.regs().contains_key(MC_WORK_MODE_RANK0_REG as u64) ==> r == mem_read_spec(
                self.cells(),
                self.regs()[MC_WORK_MODE_RANK0_REG as u64],
                self.topo(),
                addr,
            ),
    {
        let wm: u32 = match self.cfg.get(&(MC_WORK_MODE_RANK0_REG as u64)) {
            Some(v) => *v,
            None => 0,
        };
        let c: u32 = canon_addr_exec(wm, self.topology, addr);
        match self.mem.get(&(c as u64)) {
            Some(v) => *v,
            None => 0,
        }
    }
}

impl DramBus for SimBus {
    closed spec fn regs(&self) -> Map<u64, u32> {
        self.cfg@
    }

    closed spec fn cells(&self) -> Map<u64, u32> {
        self.mem@
    }

    closed spec fn topo(&self) -> MemTopology {
        self.topology
    }

    fn write_reg(&mut self, addr: u32, val: u32) {
        self.cfg.insert(addr as u64, val);
    }

    fn read_reg(&mut self, addr: u32) -> (r: u32) {
        match self.cfg.get(&(addr as u64)) {
            Some(v) => *v,
            None => 0,
        }
    }

    fn read_status(&mut self, addr: u32) -> (r: u32) {
        if addr == PGSR0_REG {
            self.pgsr0
        } else if addr == STATR_REG {
            self.statr
        } else if addr == DX0GSR0_REG {
            self.dx0_gsr
        } else if addr == DX1GSR0_REG {
            self.dx1_gsr
        } else if addr == SYS_RESUME_FLAG_REG {
            self.resume_flag
        } else if addr == SID_INFO_REG {
            self.sid
        } else if addr == PLL_DDR_CTRL_REG {
            // The PLL reports lock (bit 28) as soon as it is programmed.
            let base: u32 = match self.cfg.get(&(addr as u64)) {
                Some(v) => *v,
                None => 0,
            };
            base | 0x1000_0000
        } else {
            match self.cfg.get(&(addr as u64)) {
                Some(v) => *v,
                None => 0,
            }
        }
    }

    fn write_mem(&mut self, addr: u32, val: u32) {
        let wm: u32 = match self.cfg.get(&(MC_WORK_MODE_RANK0_REG as u64)) {
            Some(v) => *v,
            None => 0,
        };
        let c: u32 = canon_addr_exec(wm, self.topology, addr);
        self.mem.insert(c as u64, val);
    }

    fn read_mem(&mut self, addr: u32) -> (r: u32) {
        let wm: u32 = match self.cfg.get(&(MC_WORK_MODE_RANK0_REG as u64)) {
            Some(v) => *v,
            None => 0,
        };
        let c: u32 = canon_addr_exec(wm, self.topology, addr);
        match self.mem.get(&(c as u64)) {
            Some(v) => *v,
            None => 0,
        }
    }

    fn delay_micros(&mut self, micros: u32) {
    }
}

} // verus!
