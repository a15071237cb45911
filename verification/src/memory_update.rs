use vstd::prelude::*;

verus! {

/// Where an observed value lives: main memory or a register-file slot.
#[derive(Clone, Copy, PartialEq, Eq, Structural, Debug)]
pub enum MemoryType {
    Mem,
    Reg,
}

/// One observation record for a host: `value` now stands at `address` within
/// the given location kind. Stack slots are reported as register addresses
/// 0 through 15, the program counter as address 16, the stack pointer as 17.
#[derive(Clone, Copy, PartialEq, Eq, Structural, Debug)]
pub struct MemoryUpdate {
    pub memory_type: MemoryType,
    pub address: u16,
    pub value: u16,
}

} // verus!
