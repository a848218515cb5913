use aleph0::vmx::cpuid::{ecx_has_vmx, is_vmx_supported};
use aleph0::vmx::msr::{
    feature_control_vmx_enabled, msr_halves, msr_value, IA32_FEATURE_CONTROL, LOCK_BIT,
    VMX_OUTSIDE_SMX_BIT,
};
use aleph0::vmx::{detect_after_cpuid, detect_with_feature_control, DetectStep, VmxCapabilities};

#[test]
fn vmx_bit_is_ecx_bit_5() {
    assert!(ecx_has_vmx(0x20));
    assert!(ecx_has_vmx(0xFFFF_FFFF));
    assert!(!ecx_has_vmx(0));
    assert!(!ecx_has_vmx(0xFFFF_FFDF));
    assert!(!ecx_has_vmx(0x10));
    assert!(!ecx_has_vmx(0x40));
}

#[test]
fn is_vmx_supported_reads_cpuid_leaf_1() {
    let ecx = core::arch::x86_64::__cpuid(1).ecx;
    assert_eq!(is_vmx_supported(), ecx & 0x20 != 0);
}

#[test]
fn detection_without_cpuid_support_reads_no_msr() {
    assert_eq!(
        detect_after_cpuid(false),
        DetectStep::Done(VmxCapabilities::NotSupportedByCpu)
    );
    assert_eq!(detect_after_cpuid(true), DetectStep::ReadFeatureControl);
}

#[test]
fn detection_by_feature_control() {
    assert_eq!(detect_with_feature_control(0x5), VmxCapabilities::Supported);
    assert_eq!(detect_with_feature_control(0xFFFF_FFFF_FFFF_FFFF), VmxCapabilities::Supported);
    assert_eq!(detect_with_feature_control(0x1), VmxCapabilities::DisabledByFirmware);
    assert_eq!(detect_with_feature_control(0x4), VmxCapabilities::DisabledByFirmware);
    assert_eq!(detect_with_feature_control(0x0), VmxCapabilities::DisabledByFirmware);
    assert_eq!(detect_with_feature_control(0x3), VmxCapabilities::DisabledByFirmware);
}

#[test]
fn feature_control_needs_lock_and_outside_smx() {
    assert_eq!(IA32_FEATURE_CONTROL, 0x3A);
    assert!(feature_control_vmx_enabled(LOCK_BIT | VMX_OUTSIDE_SMX_BIT));
    assert!(feature_control_vmx_enabled(0x7));
    assert!(!feature_control_vmx_enabled(LOCK_BIT));
    assert!(!feature_control_vmx_enabled(VMX_OUTSIDE_SMX_BIT));
    assert!(!feature_control_vmx_enabled(0x2));
    assert!(!feature_control_vmx_enabled(0));
}

#[test]
fn msr_halves_join_as_edx_eax() {
    assert_eq!(msr_value(0xDEAD_BEEF, 0x1234_5678), 0x1234_5678_DEAD_BEEF);
    assert_eq!(msr_value(0, 0), 0);
    assert_eq!(msr_value(0xFFFF_FFFF, 0), 0xFFFF_FFFF);
    assert_eq!(msr_value(0, 1), 0x1_0000_0000);
}

#[test]
fn msr_value_splits_into_eax_edx() {
    assert_eq!(msr_halves(0x1234_5678_DEAD_BEEF), (0xDEAD_BEEF, 0x1234_5678));
    assert_eq!(msr_halves(0xFFFF_FFFF_FFFF_FFFF), (0xFFFF_FFFF, 0xFFFF_FFFF));
    assert_eq!(msr_halves(0x1_0000_0000), (0, 1));
}

#[test]
fn msr_split_then_join_round_trips() {
    for value in [0u64, 1, 0x3A, 0x8000_0000_0000_0000, 0x0012_3456_789A_BCDE, u64::MAX] {
        let (low, high) = msr_halves(value);
        assert_eq!(msr_value(low, high), value);
    }
    for (low, high) in [(0u32, 0u32), (1, 0xFFFF_FFFF), (0xCAFE_BABE, 0x0BAD_F00D)] {
        assert_eq!(msr_halves(msr_value(low, high)), (low, high));
    }
}
