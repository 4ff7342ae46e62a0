//! Hand-off record for the next boot stage, laid out as the supervisor
//! binary interface expects it.

use vstd::prelude::*;

use crate::config::Mode;

verus! {

/// Magic word identifying the dynamic information record.
pub const DYNAMIC_INFO_MAGIC: usize = 0x4942534f;

/// Version of the record layout this crate writes.
pub const DYNAMIC_INFO_VERSION_2: usize = 2;

/// Privilege code of machine mode.
pub const RISCV_MODE_MACHINE: usize = 3;

/// Privilege code of supervisor mode.
pub const RISCV_MODE_SUPERVISOR: usize = 1;

/// Privilege code of user mode.
pub const RISCV_MODE_USER: usize = 0;

/// Dynamic information handed to the next stage: where to jump, in which
/// privilege mode, and on which hart.
#[derive(Clone, Copy, PartialEq, Eq, Structural, Debug)]
pub struct DynamicInfo {
    pub magic: usize,
    pub version: usize,
    pub next_addr: usize,
    pub next_mode: usize,
    pub options: usize,
    pub boot_hart: usize,
}

impl DynamicInfo {
    /// Creates dynamic information with version 2, next address 0, user
    /// mode and boot hart 0.
    pub fn new() -> (r: DynamicInfo)
        ensures
            r.magic == DYNAMIC_INFO_MAGIC,
            r.version == DYNAMIC_INFO_VERSION_2,
            r.next_addr == 0,
            r.next_mode == 0,
            r.options == 0,
            r.boot_hart == 0,
    {
        DynamicInfo {
            magic: DYNAMIC_INFO_MAGIC,
            version: DYNAMIC_INFO_VERSION_2,
            next_addr: 0,
            next_mode: 0,
            options: 0,
            boot_hart: 0,
        }
    }

    /// The same record with the boot hart replaced.
    pub fn with_boot_hart(self, boot_hart: usize) -> (r: DynamicInfo)
        ensures
            r == (DynamicInfo { boot_hart, ..self }),
    {
        DynamicInfo { boot_hart, ..self }
    }

    /// The same record aimed at `next_addr` in the privilege mode `next_mode`
    /// selects.
    pub fn with_next_stage(self, next_mode: Mode, next_addr: usize) -> (r: DynamicInfo)
        ensures
            r == (DynamicInfo { next_mode: next_mode.spec_code(), next_addr, ..self }),
    {
        DynamicInfo { next_mode: next_mode.code(), next_addr, ..self }
    }

    /// The same record aimed at `next_addr` in machine mode.
    pub fn with_machine(self, next_addr: usize) -> (r: DynamicInfo)
        ensures
            r == (DynamicInfo { next_mode: RISCV_MODE_MACHINE, next_addr, ..self }),
    {
        DynamicInfo { next_mode: RISCV_MODE_MACHINE, next_addr, ..self }
    }

    /// The same record aimed at `next_addr` in supervisor mode.
    pub fn with_supervisor(self, next_addr: usize) -> (r: DynamicInfo)
        ensures
            r == (DynamicInfo { next_mode: RISCV_MODE_SUPERVISOR, next_addr, ..self }),
    {
        DynamicInfo { next_mode: RISCV_MODE_SUPERVISOR, next_addr, ..self }
    }

    /// The same record aimed at `next_addr` in user mode.
    pub fn with_user(self, next_addr: usize) -> (r: DynamicInfo)
        ensures
            r == (DynamicInfo { next_mode: RISCV_MODE_USER, next_addr, ..self }),
    {
        DynamicInfo { next_mode: RISCV_MODE_USER, next_addr, ..self }
    }
}

} // verus!
