use aleph0::vmx::segment::{
    descriptor_address, descriptor_base, DescriptorTable, SegmentState, IA32_FS_BASE,
    IA32_GS_BASE,
};

#[test]
fn sgdt_bytes_decode_little_endian() {
    let bytes = [0x7F, 0x00, 0x00, 0x10, 0x32, 0x54, 0x76, 0x98, 0x00, 0x00];
    let table = DescriptorTable::from_bytes(&bytes);
    assert_eq!(table.limit, 0x7F);
    assert_eq!(table.base, 0x0000_9876_5432_1000);

    let bytes = [0xFF, 0xFF, 0xEF, 0xCD, 0xAB, 0x89, 0x67, 0x45, 0x23, 0x01];
    let table = DescriptorTable::from_bytes(&bytes);
    assert_eq!(table.limit, 0xFFFF);
    assert_eq!(table.base, 0x0123_4567_89AB_CDEF);

    let table = DescriptorTable::from_bytes(&[0xFF; 10]);
    assert_eq!(table.limit, u16::MAX);
    assert_eq!(table.base, u64::MAX);
}

#[test]
fn null_selectors_have_no_descriptor() {
    let gdt = DescriptorTable { base: 0x1000, limit: 0x7F };
    for selector in 0u16..8 {
        assert_eq!(descriptor_address(&gdt, selector), None);
    }
}

#[test]
fn selector_is_byte_offset_into_gdt() {
    let gdt = DescriptorTable { base: 0x1000, limit: 0x7F };
    assert_eq!(descriptor_address(&gdt, 0x08), Some(0x1008));
    assert_eq!(descriptor_address(&gdt, 0x40), Some(0x1040));
    assert_eq!(descriptor_address(&gdt, 0x43), Some(0x1040));
    assert_eq!(descriptor_address(&gdt, 0x4F), Some(0x1048));
    assert_eq!(descriptor_address(&gdt, 0xFFFF), Some(0x1000 + 0xFFF8));
}

#[test]
fn tss_descriptor_base_is_gathered_from_four_fields() {
    let descriptor = [
        0x67, 0x00, // limit 15:0
        0x34, 0x12, // base 15:0
        0x56, // base 23:16
        0x89, 0x00, // attributes, limit 19:16
        0x78, // base 31:24
        0xEF, 0xBE, 0xAD, 0xDE, // base 63:32
        0x00, 0x00, 0x00, 0x00,
    ];
    assert_eq!(descriptor_base(&descriptor), 0xDEAD_BEEF_7856_1234);
    assert_eq!(descriptor_base(&[0u8; 16]), 0);
    let mut ones = [0xFFu8; 16];
    ones[5] = 0;
    ones[6] = 0;
    assert_eq!(descriptor_base(&ones), u64::MAX);
}

#[test]
fn segment_state_holds_values() {
    assert_eq!(IA32_FS_BASE, 0xC000_0100);
    assert_eq!(IA32_GS_BASE, 0xC000_0101);
    let table = DescriptorTable { base: 0x2000, limit: 0xFFF };
    let state = SegmentState {
        cs: 0x38,
        ss: 0x30,
        ds: 0x30,
        es: 0x30,
        fs: 0x30,
        gs: 0x30,
        tr: 0x40,
        fs_base: 0,
        gs_base: 0,
        tr_base: 0x3000,
        gdtr: table,
        idtr: table,
    };
    let copy = state;
    assert_eq!(copy.tr, 0x40);
    assert_eq!(copy.gdtr.base, 0x2000);
    assert_eq!(copy.idtr.limit, 0xFFF);
}
