//! VMX (Intel VT-x) support detection.
//!
//! Checking whether the CPU can enter VMX operation requires two
//! independent checks:
//!
//! 1. [`cpuid::is_vmx_supported`]: CPUID.1:ECX.VMX\[bit 5\] is set.
//! 2. [`msr::feature_control_vmx_enabled`]: IA32_FEATURE_CONTROL MSR
//!    (0x3A) has the lock bit set and the "VMX outside SMX" bit set.
//!
//! [`detect_after_cpuid`] and [`detect_with_feature_control`] combine them.
//! The CPUID check must run before the MSR check: IA32_FEATURE_CONTROL is
//! only guaranteed to exist on CPUs that support VMX or SMX, so reading it
//! on a CPU that doesn't (per CPUID) risks a #GP with no exception handler
//! installed yet.
pub mod cpuid;
pub mod msr;
pub mod cr;
pub mod vmxon;
pub mod vmcs;
pub mod segment;

use vstd::prelude::*;

verus! {

/// Overall VMX support/readiness state for the current CPU.
#[derive(Debug, Clone, Copy, PartialEq, Eq, Structural)]
pub enum VmxCapabilities {
    /// CPUID reports VMX and IA32_FEATURE_CONTROL allows entering VMX operation.
    Supported,
    /// CPUID does not report the VMX feature bit.
    NotSupportedByCpu,
    /// CPUID reports VMX, but IA32_FEATURE_CONTROL disables it (e.g. locked
    /// by BIOS/firmware with the VMX-outside-SMX bit clear).
    DisabledByFirmware,
}

/// The capability state that a CPUID answer and an IA32_FEATURE_CONTROL
/// value describe together.
pub open spec fn capabilities(vmx_supported: bool, feature_control: u64) -> VmxCapabilities {
    if !vmx_supported {
        VmxCapabilities::NotSupportedByCpu
    } else if msr::feature_control_allows_vmx(feature_control) {
        VmxCapabilities::Supported
    } else {
        VmxCapabilities::DisabledByFirmware
    }
}

/// What detection needs next once CPUID has answered.
#[derive(Debug, Clone, Copy, PartialEq, Eq, Structural)]
pub enum DetectStep {
    /// Detection is over with this result; no MSR may be read.
    Done(VmxCapabilities),
    /// Read IA32_FEATURE_CONTROL and pass it to [`detect_with_feature_control`].
    ReadFeatureControl,
}

/// First half of the full VMX support/enablement check: decides on the
/// CPUID answer alone.
///
/// IA32_FEATURE_CONTROL is asked for only when CPUID confirms VMX support,
/// since the MSR isn't guaranteed to exist otherwise.
pub fn detect_after_cpuid(vmx_supported: bool) -> (step: DetectStep)
    ensures
        step is ReadFeatureControl <==> vmx_supported,
        !vmx_supported ==> step == DetectStep::Done(VmxCapabilities::NotSupportedByCpu),
{
    if !vmx_supported {
        DetectStep::Done(VmxCapabilities::NotSupportedByCpu)
    } else {
        DetectStep::ReadFeatureControl
    }
}

/// Second half of the check, for a CPU whose CPUID reports VMX: decides on
/// the IA32_FEATURE_CONTROL value read.
pub fn detect_with_feature_control(feature_control: u64) -> (caps: VmxCapabilities)
    ensures
        caps == capabilities(true, feature_control),
{
    if msr::feature_control_vmx_enabled(feature_control) {
        VmxCapabilities::Supported
    } else {
        VmxCapabilities::DisabledByFirmware
    }
}

/// The two halves of detection together give [`capabilities`]: when CPUID
/// reports no VMX the answer is `NotSupportedByCpu` without any MSR value,
/// and otherwise the answer is the one for the IA32_FEATURE_CONTROL value.
pub proof fn detection_agrees_with_capabilities(vmx_supported: bool, feature_control: u64)
    ensures
        !vmx_supported ==> capabilities(vmx_supported, feature_control)
            == VmxCapabilities::NotSupportedByCpu,
        capabilities(vmx_supported, feature_control) == VmxCapabilities::Supported
            <==> vmx_supported && msr::feature_control_allows_vmx(feature_control),
{
}

} // verus!
