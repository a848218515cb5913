use aleph0::vmx::vmcs::{
    check_rflags, instruction_error_from_field, vm_instruction_error_name, vmread_result,
    SelfTestAction, SelfTestEvent, SelfTestStage, VmcsError, GUEST_RIP, SELF_TEST_PATTERN,
    VMCS_REGION_SIZE, VM_INSTRUCTION_ERROR,
};

#[test]
fn rflags_success_and_failures() {
    assert_eq!(check_rflags(0), Ok(()));
    assert_eq!(check_rflags(0x2), Ok(()));
    assert_eq!(check_rflags(0x1), Err(VmcsError::VmFailInvalid));
    assert_eq!(check_rflags(0x40), Err(VmcsError::VmFailValid));
    assert_eq!(check_rflags(0x41), Err(VmcsError::VmFailInvalid));
    assert_eq!(check_rflags(0x246), Err(VmcsError::VmFailValid));
    assert_eq!(check_rflags(0x8BF & !0x41), Ok(()));
}

#[test]
fn vmread_delivers_value_on_success() {
    assert_eq!(vmread_result(0x2, 0xDEAD), Ok(0xDEAD));
    assert_eq!(vmread_result(0x1, 0xDEAD), Err(VmcsError::VmFailInvalid));
    assert_eq!(vmread_result(0x40, 0xDEAD), Err(VmcsError::VmFailValid));
}

#[test]
fn instruction_error_is_low_32_bits() {
    assert_eq!(VM_INSTRUCTION_ERROR, 0x4400);
    assert_eq!(instruction_error_from_field(Ok(12)), Ok(12));
    assert_eq!(instruction_error_from_field(Ok(0xFFFF_FFFF_0000_000B)), Ok(11));
    assert_eq!(
        instruction_error_from_field(Err(VmcsError::VmFailInvalid)),
        Err(VmcsError::VmFailInvalid)
    );
}

#[test]
fn instruction_error_names() {
    assert_eq!(vm_instruction_error_name(2), "VMCLEAR with invalid physical address");
    assert_eq!(vm_instruction_error_name(3), "VMCLEAR with VMXON pointer");
    assert_eq!(vm_instruction_error_name(4), "VMLAUNCH with non-clear VMCS");
    assert_eq!(vm_instruction_error_name(5), "VMRESUME with non-launched VMCS");
    assert_eq!(vm_instruction_error_name(7), "VM entry with invalid control field(s)");
    assert_eq!(vm_instruction_error_name(8), "VM entry with invalid host-state field(s)");
    assert_eq!(vm_instruction_error_name(9), "VMPTRLD with invalid physical address");
    assert_eq!(vm_instruction_error_name(10), "VMPTRLD with VMXON pointer");
    assert_eq!(
        vm_instruction_error_name(11),
        "VMPTRLD with incorrect VMCS revision identifier"
    );
    assert_eq!(
        vm_instruction_error_name(12),
        "VMREAD/VMWRITE from/to unsupported VMCS component"
    );
    assert_eq!(vm_instruction_error_name(13), "VMWRITE to read-only VMCS component");
    assert_eq!(vm_instruction_error_name(15), "VMXON executed in VMX root operation");
    for unknown in [0u32, 1, 6, 14, 16, 28, u32::MAX] {
        assert_eq!(vm_instruction_error_name(unknown), "unknown VM-instruction error");
    }
}

#[test]
fn self_test_pattern_catches_truncated_writes() {
    assert_ne!(SELF_TEST_PATTERN >> 32, 0);
    assert_ne!(SELF_TEST_PATTERN & 0xFFFF_FFFF, 0);
    assert_eq!(SELF_TEST_PATTERN >> 47, 0);
}

fn step(stage: SelfTestStage, event: SelfTestEvent) -> SelfTestStage {
    stage.advance(event).unwrap()
}

#[test]
fn self_test_full_path() {
    assert_eq!(VMCS_REGION_SIZE, 4096);
    let a = 0x20_0000u64;
    let mut stage = SelfTestStage::Start;
    assert_eq!(stage.next_action(), Some(SelfTestAction::AllocateRegion));
    stage = step(stage, SelfTestEvent::Allocated(Some(a)));
    assert_eq!(stage.next_action(), Some(SelfTestAction::WriteRevisionId { phys_addr: a }));
    stage = step(stage, SelfTestEvent::Completed);
    assert_eq!(stage.next_action(), Some(SelfTestAction::Vmclear { phys_addr: a }));
    stage = step(stage, SelfTestEvent::Executed(Ok(())));
    assert_eq!(stage.next_action(), Some(SelfTestAction::Vmptrld { phys_addr: a }));
    stage = step(stage, SelfTestEvent::Executed(Ok(())));
    assert_eq!(
        stage.next_action(),
        Some(SelfTestAction::Vmwrite { field: GUEST_RIP, value: SELF_TEST_PATTERN })
    );
    stage = step(stage, SelfTestEvent::Executed(Ok(())));
    assert_eq!(stage.next_action(), Some(SelfTestAction::Vmread { field: GUEST_RIP }));
    assert!(stage.outcome().is_none());
    stage = step(stage, SelfTestEvent::ReadBack(Ok(SELF_TEST_PATTERN)));
    assert_eq!(stage.next_action(), None);
    match stage.outcome() {
        Some(Ok(region)) => assert_eq!(*region.phys_addr_ref(), a),
        _ => panic!("self test should have passed"),
    }
}

#[test]
fn self_test_read_back_mismatch() {
    let stage = SelfTestStage::PatternWritten { phys_addr: 0x1000 };
    let stage = step(stage, SelfTestEvent::ReadBack(Ok(0xDEAD_BEEF)));
    assert_eq!(stage, SelfTestStage::Finished(Err(VmcsError::SelfTestMismatch)));
    assert!(matches!(stage.outcome(), Some(Err(VmcsError::SelfTestMismatch))));
}

#[test]
fn self_test_failures_end_the_test() {
    assert_eq!(
        step(SelfTestStage::Start, SelfTestEvent::Allocated(None)),
        SelfTestStage::Finished(Err(VmcsError::AllocationFailed))
    );
    assert_eq!(
        step(
            SelfTestStage::RevisionIdWritten { phys_addr: 0x1000 },
            SelfTestEvent::Executed(Err(VmcsError::VmFailInvalid))
        ),
        SelfTestStage::Finished(Err(VmcsError::VmFailInvalid))
    );
    assert_eq!(
        step(
            SelfTestStage::Cleared { phys_addr: 0x1000 },
            SelfTestEvent::Executed(Err(VmcsError::VmFailValid))
        ),
        SelfTestStage::Finished(Err(VmcsError::VmFailValid))
    );
    assert_eq!(
        step(
            SelfTestStage::Current { phys_addr: 0x1000 },
            SelfTestEvent::Executed(Err(VmcsError::VmFailValid))
        ),
        SelfTestStage::Finished(Err(VmcsError::VmFailValid))
    );
    assert_eq!(
        step(
            SelfTestStage::PatternWritten { phys_addr: 0x1000 },
            SelfTestEvent::ReadBack(Err(VmcsError::VmFailInvalid))
        ),
        SelfTestStage::Finished(Err(VmcsError::VmFailInvalid))
    );
}

#[test]
fn self_test_ignores_answers_to_other_actions() {
    assert_eq!(SelfTestStage::Start.advance(SelfTestEvent::Completed), None);
    assert_eq!(
        SelfTestStage::RegionAllocated { phys_addr: 0x1000 }
            .advance(SelfTestEvent::Executed(Ok(()))),
        None
    );
    assert_eq!(
        SelfTestStage::PatternWritten { phys_addr: 0x1000 }
            .advance(SelfTestEvent::Executed(Ok(()))),
        None
    );
    assert_eq!(SelfTestStage::Finished(Ok(0x1000)).advance(SelfTestEvent::Completed), None);
}
