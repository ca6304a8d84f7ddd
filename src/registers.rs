use vstd::prelude::*;

verus! {

/// The CPU's registers, the flags aside.
#[derive(Debug, Clone, Copy, PartialEq, Eq, Structural)]
pub struct Registers {
    pub a: u8,
    pub b: u8,
    pub c: u8,
    pub d: u8,
    pub e: u8,
    pub h: u8,
    pub l: u8,
    /// The program counter.
    pub pc: u16,
    /// The stack pointer.
    pub sp: u16,
    /// The last fetched opcode.
    pub ir: u8,
}

impl Default for Registers {
    /// All zero but SP, which starts at 0xFFFF.
    fn default() -> (r: Self)
        ensures
            r == (Registers { a: 0, b: 0, c: 0, d: 0, e: 0, h: 0, l: 0, pc: 0, sp: 0xFFFF, ir: 0 }),
    {
        Registers { a: 0, b: 0, c: 0, d: 0, e: 0, h: 0, l: 0, pc: 0, sp: 0xFFFF, ir: 0 }
    }
}

} // verus!
