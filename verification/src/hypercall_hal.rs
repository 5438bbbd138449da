//! Which hypercall instruction a vendor's processors define.
//!
//! Intel's virtualization defines `VMCALL`, AMD's `VMMCALL`, and each is an
//! invalid opcode on the other's processors unless a hypervisor chooses to
//! emulate it. So the instruction is chosen at run time, from the vendor's
//! signature, and an unknown vendor gets none: guessing costs the machine.
use crate::arch::x86::CpuidTable;
use crate::bytes::bytes_are;
use crate::cpu::vendor_signature;
use vstd::prelude::*;

verus! {

/// The hypercall instruction of a vendor.
#[derive(Debug, Clone, Copy, PartialEq, Eq, Structural)]
pub enum HypercallInsn {
    Vmcall,
    Vmmcall,
}

impl HypercallInsn {
    pub open spec fn mnemonic(self) -> Seq<char> {
        match self {
            HypercallInsn::Vmcall => "vmcall"@,
            HypercallInsn::Vmmcall => "vmmcall"@,
        }
    }

    /// The mnemonic, lower case.
    pub fn name(self) -> (name: &'static str)
        ensures
            name@ == self.mnemonic(),
    {
        match self {
            HypercallInsn::Vmcall => "vmcall",
            HypercallInsn::Vmmcall => "vmmcall",
        }
    }
}

/// The instruction each vendor defines.
pub open spec fn defined_by(signature: Seq<u8>) -> Option<HypercallInsn> {
    if signature == crate::bytes::ascii("GenuineIntel"@) || signature == crate::bytes::ascii(
        "  Shanghai  "@,
    ) || signature == crate::bytes::ascii("CentaurHauls"@) {
        Some(HypercallInsn::Vmcall)
    } else if signature == crate::bytes::ascii("AuthenticAMD"@) || signature
        == crate::bytes::ascii("HygonGenuine"@) {
        Some(HypercallInsn::Vmmcall)
    } else {
        None
    }
}

/// The instruction for the vendor string that `CPUID` returns, or `None` for
/// a vendor this does not know.
pub fn for_vendor_signature(signature: &[u8; 12]) -> (insn: Option<HypercallInsn>)
    ensures
        insn == defined_by(signature@),
{
    let bytes: &[u8] = signature.as_slice();
    if bytes_are(bytes, "GenuineIntel") || bytes_are(bytes, "  Shanghai  ") || bytes_are(
        bytes,
        "CentaurHauls",
    ) {
        Some(HypercallInsn::Vmcall)
    } else if bytes_are(bytes, "AuthenticAMD") || bytes_are(bytes, "HygonGenuine") {
        Some(HypercallInsn::Vmmcall)
    } else {
        None
    }
}

/// The instruction for the processor these leaves were read from.
pub fn detect(cpu: &CpuidTable) -> (insn: Option<HypercallInsn>)
    ensures
        insn == defined_by(crate::cpu::signature_of(*cpu)),
{
    for_vendor_signature(&vendor_signature(cpu))
}

} // verus!
