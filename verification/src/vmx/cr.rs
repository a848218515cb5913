//! Control register values needed for VMX.
use vstd::prelude::*;
use crate::vmx::msr::bit_set_u64;

verus! {

/// CR4 bit 13: VMX-enable. VMXON raises #UD while this is clear.
pub const CR4_VMXE: u64 = 0x2000;

/// The CR4 value with CR4.VMXE set, leaving every other bit untouched.
pub fn enable_vmxe(cr4: u64) -> (new_cr4: u64)
    ensures
        new_cr4 == cr4 | CR4_VMXE,
        bit_set_u64(new_cr4, 13),
        forall|bit: u64| bit < 64 && bit != 13 ==> #[trigger] bit_set_u64(new_cr4, bit)
            == bit_set_u64(cr4, bit),
{
    let new_cr4 = cr4 | CR4_VMXE;
    assert(((new_cr4 >> 13u64) & 1u64 == 1u64)) by (bit_vector)
        requires
            new_cr4 == cr4 | 0x2000u64,
    ;
    assert(forall|bit: u64|
        bit < 64 && bit != 13 ==> ((new_cr4 >> bit) & 1u64 == 1u64) == ((cr4 >> bit) & 1u64
            == 1u64)) by (bit_vector)
        requires
            new_cr4 == cr4 | 0x2000u64,
    ;
    new_cr4
}

/// Enabling VMXE twice is the same as enabling it once.
pub proof fn enable_vmxe_idempotent(cr4: u64)
    ensures
        (cr4 | CR4_VMXE) | CR4_VMXE == cr4 | CR4_VMXE,
{
    assert((cr4 | 0x2000u64) | 0x2000u64 == cr4 | 0x2000u64) by (bit_vector);
}

} // verus!
