//! What a build runs on: the processor, the byte order and the system.
use vstd::prelude::*;

verus! {

/// A processor family and width.
#[derive(Debug, Clone, Copy, PartialEq, Eq, Structural)]
pub enum Machine {
    X86,
    X86Wide,
    Aarch64,
    PowerPc,
    PowerPcWide,
    RiscV,
    RiscVWide,
    Arm,
    Other,
}

/// A processor and the choices a build makes for it.
#[derive(Debug, Clone, Copy, PartialEq, Eq, Structural)]
pub struct Target {
    pub machine: Machine,
    pub little_endian: bool,
    /// Whether the vector kernels are built.
    pub simd: bool,
    /// Whether a 32-bit ARM build may use ARMv7 instructions.
    pub v7: bool,
    /// Whether the build runs with no system under it.
    pub freestanding: bool,
    pub linux: bool,
}

impl Machine {
    pub open spec fn x86(self) -> bool {
        self is X86 || self is X86Wide
    }

    pub open spec fn powerpc(self) -> bool {
        self is PowerPc || self is PowerPcWide
    }

    pub open spec fn riscv(self) -> bool {
        self is RiscV || self is RiscVWide
    }

    /// Whether this is x86, of either width.
    pub fn is_x86(self) -> (yes: bool)
        ensures
            yes == self.x86(),
    {
        matches!(self, Machine::X86 | Machine::X86Wide)
    }

    /// Whether this is PowerPC, of either width.
    pub fn is_powerpc(self) -> (yes: bool)
        ensures
            yes == self.powerpc(),
    {
        matches!(self, Machine::PowerPc | Machine::PowerPcWide)
    }

    /// Whether this is RISC-V, of either width.
    pub fn is_riscv(self) -> (yes: bool)
        ensures
            yes == self.riscv(),
    {
        matches!(self, Machine::RiscV | Machine::RiscVWide)
    }
}

} // verus!
