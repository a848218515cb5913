//! The CPU's segmentation state.
//!
//! Long mode barely uses segmentation (most bases are 0 and limits are
//! ignored) but the registers still exist, and VM entry checks the values
//! written into the VMCS for both host and guest. So the state has to be read
//! out of the running CPU and copied in.
//!
//! Three kinds of value are needed per segment:
//!
//! * the **selector**: an index into the GDT, held in CS/SS/DS/ES/FS/GS/TR;
//! * the **base**: the real 64-bit start address. Only FS, GS and TR matter
//!   in long mode; the rest are architecturally 0.
//! * the **limit** and **access rights**: needed for guest state later, not
//!   for host state.
//!
//! Host state has two extra rules the CPU enforces at VM entry, both common
//! causes of "invalid host state" (error 8):
//!
//! * every host selector must have its RPL and TI bits (the low 3) clear;
//! * the host TR selector must not be 0: it has to point at a real TSS.
use vstd::prelude::*;

verus! {

/// MSR holding the FS segment base. Unlike the selector, this is live in
/// long mode: operating systems use FS/GS for per-thread and per-CPU data.
pub const IA32_FS_BASE: u32 = 0xC000_0100;

/// MSR holding the GS segment base.
pub const IA32_GS_BASE: u32 = 0xC000_0101;

/// Contents of GDTR or IDTR: where a descriptor table starts and how big it is.
#[derive(Debug, Clone, Copy)]
pub struct DescriptorTable {
    /// Address of the first descriptor.
    pub base: u64,
    /// Size of the table in bytes, minus one.
    pub limit: u16,
}

/// The little-endian value of the two bytes at `start`.
pub open spec fn le_u16_at(bytes: Seq<u8>, start: int) -> int {
    bytes[start] + bytes[start + 1] * 0x100
}

/// The little-endian value of the four bytes at `start`.
pub open spec fn le_u32_at(bytes: Seq<u8>, start: int) -> int {
    le_u16_at(bytes, start) + le_u16_at(bytes, start + 2) * 0x1_0000
}

/// The little-endian value of the eight bytes at `start`.
pub open spec fn le_u64_at(bytes: Seq<u8>, start: int) -> int {
    le_u32_at(bytes, start) + le_u32_at(bytes, start + 4) * 0x1_0000_0000
}

impl DescriptorTable {
    /// Decodes the 10 bytes that SGDT or SIDT stores: the limit in bytes
    /// 0..2, then the base in bytes 2..10, both little-endian.
    pub fn from_bytes(bytes: &[u8; 10]) -> (table: DescriptorTable)
        ensures
            table.limit == le_u16_at(bytes@, 0),
            table.base == le_u64_at(bytes@, 2),
    {
        let limit: u16 = bytes[0] as u16 + (bytes[1] as u16) * 0x100;
        let low: u64 = bytes[2] as u64 + (bytes[3] as u64) * 0x100 + (bytes[4] as u64) * 0x1_0000
            + (bytes[5] as u64) * 0x100_0000;
        let high: u64 = bytes[6] as u64 + (bytes[7] as u64) * 0x100 + (bytes[8] as u64) * 0x1_0000
            + (bytes[9] as u64) * 0x100_0000;
        DescriptorTable { base: low + high * 0x1_0000_0000, limit }
    }
}

/// Where the descriptor that `selector` names lives in `gdt`; `None` for
/// the null descriptor.
///
/// The low 3 bits are RPL and TI, so 0x01..0x03 also name the null
/// descriptor. The selector's index is bits 15:3, and each descriptor is 8
/// bytes, so with those bits clear the selector is the byte offset of the
/// descriptor in the table.
pub fn descriptor_address(gdt: &DescriptorTable, selector: u16) -> (address: Option<u64>)
    requires
        selector < 8 || gdt.base + (selector / 8) * 8 <= u64::MAX,
    ensures
        selector < 8 ==> address is None,
        selector >= 8 ==> address == Some((gdt.base + (selector / 8) * 8) as u64),
        selector >= 8 ==> address == Some((gdt.base + (selector & 0xFFF8u16)) as u64),
{
    let index = (selector >> 3) as u64;
    assert((selector >> 3u16) == selector / 8) by (bit_vector);
    assert((selector / 8) * 8 == (selector & 0xFFF8u16)) by (bit_vector);
    if index == 0 {
        return None;
    }
    Some(gdt.base + index * 8)
}

/// Extracts a segment's base address from its 16-byte long-mode system
/// descriptor (a TSS descriptor), which scatters the base across four
/// fields:
///
/// ```text
/// bytes 2..4    base 15:0
/// byte  4       base 23:16
/// byte  7       base 31:24
/// bytes 8..12   base 63:32
/// ```
///
/// Needed for TR, whose base is not available from any register or MSR: it
/// has to be read out of the descriptor the selector points at.
pub fn descriptor_base(descriptor: &[u8; 16]) -> (base: u64)
    ensures
        base == le_u16_at(descriptor@, 2) + descriptor@[4] * 0x1_0000 + descriptor@[7]
            * 0x100_0000 + le_u32_at(descriptor@, 8) * 0x1_0000_0000,
{
    let low: u64 = descriptor[2] as u64 + (descriptor[3] as u64) * 0x100;
    let mid: u64 = descriptor[4] as u64;
    let high: u64 = descriptor[7] as u64;
    let upper: u64 = descriptor[8] as u64 + (descriptor[9] as u64) * 0x100 + (descriptor[10] as u64)
        * 0x1_0000 + (descriptor[11] as u64) * 0x100_0000;
    low + mid * 0x1_0000 + high * 0x100_0000 + upper * 0x1_0000_0000
}

/// Everything about the current segmentation state, for printing or for
/// filling in the VMCS.
#[derive(Debug, Clone, Copy)]
pub struct SegmentState {
    pub cs: u16,
    pub ss: u16,
    pub ds: u16,
    pub es: u16,
    pub fs: u16,
    pub gs: u16,
    pub tr: u16,
    pub fs_base: u64,
    pub gs_base: u64,
    pub tr_base: u64,
    pub gdtr: DescriptorTable,
    pub idtr: DescriptorTable,
}

} // verus!
