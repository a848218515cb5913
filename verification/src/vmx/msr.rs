//! IA32_FEATURE_CONTROL MSR checks gating VMX enablement, and how a 64-bit
//! MSR value travels through the EDX:EAX register pair.
use vstd::prelude::*;

verus! {

/// MSR address of IA32_FEATURE_CONTROL.
pub const IA32_FEATURE_CONTROL: u32 = 0x3A;

/// Bit 0: lock bit. Once set, the MSR is read-only until reset.
pub const LOCK_BIT: u64 = 0x1;

/// Bit 2: enable VMX outside SMX operation.
pub const VMX_OUTSIDE_SMX_BIT: u64 = 0x4;

/// IA32_VMX_BASIC. Bits 0..=30: VMCS revision identifier (bit 31 is always 0).
/// Bit 55: when set, the `IA32_VMX_TRUE_*_CTLS` MSRs exist and should be
/// preferred over the non-TRUE variants when configuring the VMCS later.
pub const IA32_VMX_BASIC: u32 = 0x480;

/// Bits that must be 1 in CR0 while in VMX operation.
pub const IA32_VMX_CR0_FIXED0: u32 = 0x486;

/// Bits that may be 1 in CR0 while in VMX operation (a 0 here means "must be 0").
pub const IA32_VMX_CR0_FIXED1: u32 = 0x487;

/// Bits that must be 1 in CR4 while in VMX operation.
pub const IA32_VMX_CR4_FIXED0: u32 = 0x488;

/// Bits that may be 1 in CR4 while in VMX operation (a 0 here means "must be 0").
pub const IA32_VMX_CR4_FIXED1: u32 = 0x489;

/// Bit `bit` of `value` is set.
pub open spec fn bit_set_u64(value: u64, bit: u64) -> bool {
    (value >> bit) & 1u64 == 1u64
}

/// An IA32_FEATURE_CONTROL value allows VMXON outside SMX: it is locked
/// (bit 0) and has VMX-outside-SMX enabled (bit 2).
pub open spec fn feature_control_allows_vmx(value: u64) -> bool {
    value % 2 == 1 && (value / 4) % 2 == 1
}

/// Returns whether an IA32_FEATURE_CONTROL value enables VMX for operation
/// outside SMX.
///
/// The MSR must be locked and the VMX-outside-SMX bit (bit 2) must be set.
pub fn feature_control_vmx_enabled(value: u64) -> (enabled: bool)
    ensures
        enabled == feature_control_allows_vmx(value),
        enabled == (value & LOCK_BIT != 0 && value & VMX_OUTSIDE_SMX_BIT != 0),
{
    assert((value & 0x1u64 != 0) == (value % 2 == 1)) by (bit_vector);
    assert((value & 0x4u64 != 0) == ((value / 4) % 2 == 1)) by (bit_vector);
    let locked = value & LOCK_BIT != 0;
    let vmx_enabled = value & VMX_OUTSIDE_SMX_BIT != 0;

    locked && vmx_enabled
}

/// The 64-bit value that RDMSR returns as EDX (`high`) : EAX (`low`).
pub open spec fn msr_from_halves(low: u32, high: u32) -> int {
    high * 0x1_0000_0000 + low
}

/// Joins the EDX:EAX halves that RDMSR leaves behind into the MSR value.
pub fn msr_value(low: u32, high: u32) -> (value: u64)
    ensures
        value == msr_from_halves(low, high),
{
    let h = high as u64;
    let l = low as u64;
    assert((h << 32u64) | l == h * 0x1_0000_0000u64 + l) by (bit_vector)
        requires
            h < 0x1_0000_0000u64,
            l < 0x1_0000_0000u64,
    ;
    (h << 32) | l
}

/// Splits an MSR value into the (EAX, EDX) pair that WRMSR takes: low 32
/// bits in EAX, high 32 bits in EDX.
pub fn msr_halves(value: u64) -> (halves: (u32, u32))
    ensures
        halves.0 == value % 0x1_0000_0000,
        halves.1 == value / 0x1_0000_0000,
{
    assert(value as u32 == value % 0x1_0000_0000u64) by (bit_vector);
    assert((value >> 32u64) == value / 0x1_0000_0000u64) by (bit_vector);
    (value as u32, (value >> 32) as u32)
}

/// Splitting an MSR value for WRMSR and joining the halves as RDMSR does
/// gives the value back, and joining then splitting gives the halves back.
pub proof fn msr_halves_round_trip(value: u64, low: u32, high: u32)
    ensures
        msr_from_halves(
            (value % 0x1_0000_0000) as u32,
            (value / 0x1_0000_0000) as u32,
        ) == value,
        msr_from_halves(low, high) % 0x1_0000_0000 == low,
        msr_from_halves(low, high) / 0x1_0000_0000 == high,
{
}

} // verus!
