use aleph0::vmx::cr::{enable_vmxe, CR4_VMXE};
use aleph0::vmx::vmcs::check_rflags;
use aleph0::vmx::vmxon::{
    apply_fixed_bits, vmcs_revision_id, vmxon_outcome, VmxOnAction, VmxOnError, VmxOnEvent,
    VmxOnStage, VMXON_REGION_SIZE,
};

#[test]
fn enable_vmxe_sets_bit_13_only() {
    assert_eq!(CR4_VMXE, 1 << 13);
    assert_eq!(enable_vmxe(0), 0x2000);
    assert_eq!(enable_vmxe(0x0000_0000_0037_06F0), 0x0000_0000_0037_26F0);
    assert_eq!(enable_vmxe(0x2000), 0x2000);
    assert_eq!(enable_vmxe(0xFFFF_FFFF_FFFF_DFFF), u64::MAX);
    assert_eq!(enable_vmxe(enable_vmxe(0x20)), enable_vmxe(0x20));
}

#[test]
fn fixed_bits_force_cr0_into_range() {
    // Typical IA32_VMX_CR0_FIXED0/1: PE, NE, PG must be 1; everything above
    // bit 31 must be 0.
    let fixed0 = 0x8000_0021u64;
    let fixed1 = 0xFFFF_FFFFu64;
    assert_eq!(apply_fixed_bits(0x0000_0000_6000_0010, fixed0, fixed1), 0x0000_0000_E000_0031);
    assert_eq!(apply_fixed_bits(0xFFFF_FFFF_0000_0000, fixed0, fixed1), 0x8000_0021);
    let once = apply_fixed_bits(0x1234_5678_9ABC_DEF0, fixed0, fixed1);
    assert_eq!(once & fixed0, fixed0);
    assert_eq!(once & !fixed1, 0);
    assert_eq!(apply_fixed_bits(once, fixed0, fixed1), once);
}

#[test]
fn fixed_bits_force_cr4_into_range() {
    // Typical IA32_VMX_CR4_FIXED0/1: VMXE must be 1.
    let fixed0 = 0x2000u64;
    let fixed1 = 0x0037_27FFu64;
    assert_eq!(apply_fixed_bits(0x0000_0000_0000_06F0, fixed0, fixed1), 0x26F0);
    assert_eq!(apply_fixed_bits(0x0000_0000_0040_26F0, fixed0, fixed1), 0x26F0);
}

#[test]
fn allowed_value_stays_unchanged() {
    assert_eq!(apply_fixed_bits(0x8000_0031, 0x8000_0021, 0xFFFF_FFFF), 0x8000_0031);
}

#[test]
fn revision_id_is_low_31_bits_of_vmx_basic() {
    assert_eq!(vmcs_revision_id(0x00DA_0400_0000_0004), 4);
    assert_eq!(vmcs_revision_id(0xFFFF_FFFF_FFFF_FFFF), 0x7FFF_FFFF);
    assert_eq!(vmcs_revision_id(0x8000_0000), 0);
    assert_eq!(vmcs_revision_id(0x0000_0001_0000_0011), 0x11);
}

#[test]
fn vmxon_flags_decode() {
    assert_eq!(vmxon_outcome(0), Ok(()));
    assert_eq!(vmxon_outcome(0x2), Ok(()));
    assert_eq!(vmxon_outcome(0x246 & !0x40), Ok(()));
    assert_eq!(vmxon_outcome(0x1), Err(VmxOnError::VmFailInvalid));
    assert_eq!(vmxon_outcome(0x41), Err(VmxOnError::VmFailInvalid));
    assert_eq!(vmxon_outcome(0x40), Err(VmxOnError::VmFailValid));
    assert_eq!(vmxon_outcome(0x246), Err(VmxOnError::VmFailValid));
}

#[test]
fn vmxon_decodes_like_every_vmx_instruction() {
    for rflags in [0u64, 1, 2, 0x40, 0x41, 0x246, 0x247, u64::MAX] {
        assert_eq!(vmxon_outcome(rflags).is_ok(), check_rflags(rflags).is_ok());
        assert_eq!(
            vmxon_outcome(rflags) == Err(VmxOnError::VmFailInvalid),
            check_rflags(rflags) == Err(aleph0::vmx::vmcs::VmcsError::VmFailInvalid)
        );
    }
}

fn step(stage: VmxOnStage, event: VmxOnEvent) -> VmxOnStage {
    stage.advance(event).unwrap()
}

#[test]
fn vmxon_sequence_in_order() {
    assert_eq!(VMXON_REGION_SIZE, 4096);
    let mut stage = VmxOnStage::Start;
    assert_eq!(stage.next_action(), Some(VmxOnAction::EnableVmxe));
    assert!(stage.outcome().is_none());
    stage = step(stage, VmxOnEvent::Completed);
    assert_eq!(stage.next_action(), Some(VmxOnAction::ApplyFixedBits));
    stage = step(stage, VmxOnEvent::Completed);
    assert_eq!(stage.next_action(), Some(VmxOnAction::AllocateRegion));
    stage = step(stage, VmxOnEvent::Allocated(Some(0x7_F000)));
    assert_eq!(stage.next_action(), Some(VmxOnAction::WriteRevisionId { phys_addr: 0x7_F000 }));
    stage = step(stage, VmxOnEvent::Completed);
    assert_eq!(stage.next_action(), Some(VmxOnAction::ExecuteVmxon { phys_addr: 0x7_F000 }));
    stage = step(stage, VmxOnEvent::Executed(Ok(())));
    assert_eq!(stage.next_action(), None);
    match stage.outcome() {
        Some(Ok(region)) => assert_eq!(*region.phys_addr_ref(), 0x7_F000),
        _ => panic!("entering should have succeeded"),
    }
}

#[test]
fn vmxon_allocation_failure() {
    let stage = step(step(step(VmxOnStage::Start, VmxOnEvent::Completed), VmxOnEvent::Completed),
        VmxOnEvent::Allocated(None));
    assert_eq!(stage, VmxOnStage::Finished(Err(VmxOnError::AllocationFailed)));
    assert_eq!(stage.next_action(), None);
    assert!(matches!(stage.outcome(), Some(Err(VmxOnError::AllocationFailed))));
}

#[test]
fn vmxon_failure_is_reported() {
    for error in [VmxOnError::VmFailInvalid, VmxOnError::VmFailValid] {
        let stage = VmxOnStage::RevisionIdWritten { phys_addr: 0x1000 };
        let stage = step(stage, VmxOnEvent::Executed(Err(error)));
        assert_eq!(stage, VmxOnStage::Finished(Err(error)));
        assert!(matches!(stage.outcome(), Some(Err(e)) if e == error));
    }
}

#[test]
fn vmxon_ignores_answers_to_other_actions() {
    assert_eq!(VmxOnStage::Start.advance(VmxOnEvent::Allocated(Some(0x1000))), None);
    assert_eq!(VmxOnStage::FixedBitsApplied.advance(VmxOnEvent::Completed), None);
    assert_eq!(
        VmxOnStage::RegionAllocated { phys_addr: 0x1000 }.advance(VmxOnEvent::Executed(Ok(()))),
        None
    );
    assert_eq!(VmxOnStage::Finished(Ok(0x1000)).advance(VmxOnEvent::Completed), None);
}
