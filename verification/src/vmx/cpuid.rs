//! CPUID-based VMX feature detection.
use vstd::prelude::*;

verus! {

/// The four registers CPUID answers with.
#[derive(Debug, Clone, Copy)]
struct CpuidRegisters {
    pub eax: u32,
    pub ebx: u32,
    pub ecx: u32,
    pub edx: u32,
}

/// CPUID leaf 1 reports VMX in ECX bit 5.
pub open spec fn ecx_reports_vmx(ecx: u32) -> bool {
    (ecx / 32) % 2 == 1
}

/// Runs CPUID with `leaf` in EAX (and 0 in ECX) on the current processor.
///
/// Calls `core::arch::x86_64::__cpuid`. Nothing is claimed about the
/// registers: they describe the processor the code runs on.
#[verifier::external_body]
fn cpuid(leaf: u32) -> (regs: CpuidRegisters) {
    let r = core::arch::x86_64::__cpuid(leaf);
    CpuidRegisters { eax: r.eax, ebx: r.ebx, ecx: r.ecx, edx: r.edx }
}

/// Decides VMX support from the ECX value of CPUID leaf 1: bit 5 set.
pub fn ecx_has_vmx(ecx: u32) -> (supported: bool)
    ensures
        supported == ecx_reports_vmx(ecx),
        supported == (ecx & 0x20u32 != 0),
{
    assert(((ecx >> 5u32) & 1u32 == 1u32) == (ecx & 0x20u32 != 0)) by (bit_vector);
    assert(((ecx >> 5u32) & 1u32 == 1u32) == ((ecx / 32) % 2 == 1)) by (bit_vector);
    ecx >> 5 & 1 == 1
}

/// Checks CPUID.1:ECX.VMX\[bit 5\] to determine whether the CPU implements
/// VMX (Intel VT-x).
///
/// The answer is [`ecx_has_vmx`] of the ECX value that CPUID leaf 1 gives on
/// the running processor; what that value is depends on the processor, so
/// nothing more is stated.
pub fn is_vmx_supported() -> (supported: bool) {
    let regs = cpuid(1);
    ecx_has_vmx(regs.ecx)
}

} // verus!
