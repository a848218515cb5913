//! The Virtual Machine Control Structure (VMCS).
//!
//! A VMCS describes one virtual CPU: the guest's register state, the host
//! state to return to on a VM exit, and which events cause those exits.
//! One VMCS per vCPU; one "current" VMCS per logical processor.
//!
//! The region looks exactly like the VMXON region (4 KiB, 4 KiB-aligned,
//! revision identifier in the first four bytes) but it is used differently.
//! Apart from that revision identifier, it is never touched with ordinary
//! loads and stores: the internal layout is undocumented and the CPU caches
//! fields internally. VMREAD and VMWRITE are the only legal access.
//!
//! Lifecycle, driven by [`SelfTestStage`]:
//!
//! 1. allocate a zeroed page and write the revision identifier into it;
//! 2. VMCLEAR it: initialise it and flush any cached data the CPU holds for
//!    that physical address. Required once before first use, even on a
//!    freshly zeroed page;
//! 3. VMPTRLD it: make it the *current* VMCS. From here on VMREAD/VMWRITE
//!    act on it implicitly, with no address operand;
//! 4. VMWRITE the fields, then (a later step) VMLAUNCH.
//!
//! Fields are addressed by a 32-bit **encoding**, not by an offset. The
//! encoding packs the field's width, type (control / read-only / guest /
//! host) and index; see the constants below.
//!
//! Like VMXON, these instructions report failure through RFLAGS rather than
//! exceptions: CF=1 is VMfailInvalid, ZF=1 is VMfailValid. The difference is
//! that once a current VMCS exists, VMfailValid also stores a numeric reason
//! readable through the VM_INSTRUCTION_ERROR field.
use vstd::prelude::*;

verus! {

/// VMCS region size. Architecturally at most 4 KiB; one page is the norm.
pub const VMCS_REGION_SIZE: usize = 4096;

// Encoding layout: bit 0 = access type (0 = full, 1 = high half of a 64-bit
// field), bits 9:1 = index, bits 11:10 = type (0 control, 1 read-only data,
// 2 guest state, 3 host state), bits 14:13 = width (0 = 16-bit, 1 = 64-bit,
// 2 = 32-bit, 3 = natural).

/// Read-only: why the last VMX instruction failed (valid after VMfailValid).
pub const VM_INSTRUCTION_ERROR: u32 = 0x4400;

/// Read-only: why the last VM exit happened.
pub const VM_EXIT_REASON: u32 = 0x4402;

/// Guest RSP (natural width).
pub const GUEST_RSP: u32 = 0x681C;

/// Guest RIP (natural width).
pub const GUEST_RIP: u32 = 0x681E;

/// Guest RFLAGS (natural width).
pub const GUEST_RFLAGS: u32 = 0x6820;

/// Host RSP: the stack the CPU switches to on every VM exit.
pub const HOST_RSP: u32 = 0x6C14;

/// Host RIP: the exit handler the CPU jumps to on every VM exit.
pub const HOST_RIP: u32 = 0x6C16;

/// Must be set to `!0` unless shadow VMCS is in use. A classic omission:
/// leaving it zero makes VM entry fail with an invalid-guest-state exit.
pub const VMCS_LINK_POINTER: u32 = 0x2800;

/// RFLAGS.CF, bit 0.
const RFLAGS_CF: u64 = 0x1;

/// RFLAGS.ZF, bit 6.
const RFLAGS_ZF: u64 = 0x40;

/// Why a VMCS operation failed.
#[derive(Debug, Clone, Copy, PartialEq, Eq, Structural)]
pub enum VmcsError {
    /// UEFI could not provide a page.
    AllocationFailed,
    /// CF=1: the instruction failed with no current VMCS to record why.
    VmFailInvalid,
    /// ZF=1: the instruction failed and stored a reason in the current VMCS;
    /// read it through the VM_INSTRUCTION_ERROR field.
    VmFailValid,
    /// The self test read back something other than what it wrote. Both
    /// instructions reported success, so this is not a VMX failure.
    SelfTestMismatch,
}

/// RFLAGS.CF (bit 0) is set.
pub open spec fn carry_flag(rflags: u64) -> bool {
    rflags % 2 == 1
}

/// RFLAGS.ZF (bit 6) is set.
pub open spec fn zero_flag(rflags: u64) -> bool {
    (rflags / 0x40) % 2 == 1
}

/// Decodes the RFLAGS value a VMX instruction leaves behind.
///
/// Every VMX instruction reports its outcome the same way: all flags clear on
/// success, CF set for VMfailInvalid, ZF set for VMfailValid. CF is tested
/// first, so with both set the outcome is VMfailInvalid.
pub fn check_rflags(rflags: u64) -> (outcome: Result<(), VmcsError>)
    ensures
        outcome == Err::<(), VmcsError>(VmcsError::VmFailInvalid) <==> carry_flag(rflags),
        outcome == Err::<(), VmcsError>(VmcsError::VmFailValid) <==> !carry_flag(rflags)
            && zero_flag(rflags),
        outcome == Ok::<(), VmcsError>(()) <==> !carry_flag(rflags) && !zero_flag(rflags),
{
    assert((rflags & 0x1u64 != 0) == (rflags % 2 == 1)) by (bit_vector);
    assert((rflags & 0x40u64 != 0) == ((rflags / 0x40) % 2 == 1)) by (bit_vector);
    if rflags & RFLAGS_CF != 0 {
        Err(VmcsError::VmFailInvalid)
    } else if rflags & RFLAGS_ZF != 0 {
        Err(VmcsError::VmFailValid)
    } else {
        Ok(())
    }
}

/// What VMREAD delivers: the field's value when the flags report success,
/// the decoded failure otherwise.
pub fn vmread_result(rflags: u64, value: u64) -> (outcome: Result<u64, VmcsError>)
    ensures
        outcome == Ok::<u64, VmcsError>(value) <==> !carry_flag(rflags) && !zero_flag(rflags),
        outcome == Err::<u64, VmcsError>(VmcsError::VmFailInvalid) <==> carry_flag(rflags),
        outcome == Err::<u64, VmcsError>(VmcsError::VmFailValid) <==> !carry_flag(rflags)
            && zero_flag(rflags),
{
    match check_rflags(rflags) {
        Ok(()) => Ok(value),
        Err(e) => Err(e),
    }
}

/// The numeric reason the last VMX instruction failed, from what VMREAD of
/// the 32-bit VM_INSTRUCTION_ERROR field delivered. VMREAD zero-extends the
/// field, so its low 32 bits are the number; a failed VMREAD is passed on.
pub fn instruction_error_from_field(field: Result<u64, VmcsError>) -> (error: Result<u32, VmcsError>)
    ensures
        match field {
            Ok(value) => error == Ok::<u32, VmcsError>((value % 0x1_0000_0000) as u32),
            Err(e) => error == Err::<u32, VmcsError>(e),
        },
{
    match field {
        Ok(value) => {
            assert(value as u32 == value % 0x1_0000_0000u64) by (bit_vector);
            Ok(value as u32)
        },
        Err(e) => Err(e),
    }
}

/// The name Intel SDM Vol. 3, "VM-Instruction Error Numbers", gives to an
/// error number that this code can reach; "unknown VM-instruction error"
/// for every other number.
pub open spec fn instruction_error_name(error: u32) -> Seq<char> {
    if error == 2 {
        "VMCLEAR with invalid physical address"@
    } else if error == 3 {
        "VMCLEAR with VMXON pointer"@
    } else if error == 4 {
        "VMLAUNCH with non-clear VMCS"@
    } else if error == 5 {
        "VMRESUME with non-launched VMCS"@
    } else if error == 7 {
        "VM entry with invalid control field(s)"@
    } else if error == 8 {
        "VM entry with invalid host-state field(s)"@
    } else if error == 9 {
        "VMPTRLD with invalid physical address"@
    } else if error == 10 {
        "VMPTRLD with VMXON pointer"@
    } else if error == 11 {
        "VMPTRLD with incorrect VMCS revision identifier"@
    } else if error == 12 {
        "VMREAD/VMWRITE from/to unsupported VMCS component"@
    } else if error == 13 {
        "VMWRITE to read-only VMCS component"@
    } else if error == 15 {
        "VMXON executed in VMX root operation"@
    } else {
        "unknown VM-instruction error"@
    }
}

/// Human-readable name for a VM-instruction error number.
///
/// Numbers from Intel SDM Vol. 3, "VM-Instruction Error Numbers"; only the
/// ones reachable from this code are spelled out.
pub fn vm_instruction_error_name(error: u32) -> (name: &'static str)
    ensures
        name@ == instruction_error_name(error),
{
    match error {
        2 => "VMCLEAR with invalid physical address",
        3 => "VMCLEAR with VMXON pointer",
        4 => "VMLAUNCH with non-clear VMCS",
        5 => "VMRESUME with non-launched VMCS",
        7 => "VM entry with invalid control field(s)",
        8 => "VM entry with invalid host-state field(s)",
        9 => "VMPTRLD with invalid physical address",
        10 => "VMPTRLD with VMXON pointer",
        11 => "VMPTRLD with incorrect VMCS revision identifier",
        12 => "VMREAD/VMWRITE from/to unsupported VMCS component",
        13 => "VMWRITE to read-only VMCS component",
        15 => "VMXON executed in VMX root operation",
        _ => "unknown VM-instruction error",
    }
}

/// A 4 KiB, 4 KiB-aligned VMCS region.
pub struct VmcsRegion {
    /// Physical address of the region. Equal to the virtual address under UEFI.
    phys_addr: u64,
}

impl View for VmcsRegion {
    type V = u64;

    /// The region's physical address.
    closed spec fn view(&self) -> u64 {
        self.phys_addr
    }
}

impl VmcsRegion {
    /// Address of the field holding the physical address, for the memory
    /// operand that VMCLEAR and VMPTRLD take.
    pub fn phys_addr_ref(&self) -> (addr: &u64)
        ensures
            *addr == self@,
    {
        &self.phys_addr
    }
}

/// The value the self test writes to GUEST_RIP and expects back.
///
/// Bits set in both halves, so a write that only lands in the low 32 bits
/// is caught. Canonical (bits 63:47 clear), which GUEST_RIP will need once
/// VM entry starts checking it.
pub const SELF_TEST_PATTERN: u64 = 0x0000_7FFF_DEAD_BEEF;

/// How far the VMCS self test has got: allocate, make current, write a
/// field, read it back. Requires the CPU to already be in VMX operation.
#[derive(Debug, Clone, Copy, PartialEq, Eq)]
pub enum SelfTestStage {
    /// Nothing done yet.
    Start,
    /// A zeroed page at `phys_addr` holds the region.
    RegionAllocated { phys_addr: u64 },
    /// The revision identifier is in the region's first four bytes.
    RevisionIdWritten { phys_addr: u64 },
    /// VMCLEAR succeeded on the region.
    Cleared { phys_addr: u64 },
    /// VMPTRLD succeeded: the region is the current VMCS.
    Current { phys_addr: u64 },
    /// VMWRITE of the pattern to GUEST_RIP succeeded.
    PatternWritten { phys_addr: u64 },
    /// The test is over: the region's address, or why it failed.
    Finished(Result<u64, VmcsError>),
}

/// The work the self test asks of the processor or the firmware next.
#[derive(Debug, Clone, Copy, PartialEq, Eq)]
pub enum SelfTestAction {
    /// Allocate and zero one page; answer with [`SelfTestEvent::Allocated`].
    AllocateRegion,
    /// Write the VMCS revision identifier (from IA32_VMX_BASIC) into the
    /// region's first four bytes; answer with [`SelfTestEvent::Completed`].
    WriteRevisionId { phys_addr: u64 },
    /// Execute VMCLEAR on the region; answer with [`SelfTestEvent::Executed`].
    Vmclear { phys_addr: u64 },
    /// Execute VMPTRLD on the region; answer with [`SelfTestEvent::Executed`].
    Vmptrld { phys_addr: u64 },
    /// Execute VMWRITE; answer with [`SelfTestEvent::Executed`].
    Vmwrite { field: u32, value: u64 },
    /// Execute VMREAD; answer with [`SelfTestEvent::ReadBack`].
    Vmread { field: u32 },
}

/// What came of the action the self test asked for.
#[derive(Debug, Clone, Copy, PartialEq, Eq)]
pub enum SelfTestEvent {
    /// The physical address of the zeroed page, or `None` when the firmware
    /// could not provide one.
    Allocated(Option<u64>),
    /// The revision identifier has been written.
    Completed,
    /// The outcome of VMCLEAR, VMPTRLD or VMWRITE.
    Executed(Result<(), VmcsError>),
    /// The outcome of VMREAD.
    ReadBack(Result<u64, VmcsError>),
}

impl SelfTestStage {
    /// The action that this stage asks for; `None` once the test is over.
    pub open spec fn action_spec(self) -> Option<SelfTestAction> {
        match self {
            SelfTestStage::Start => Some(SelfTestAction::AllocateRegion),
            SelfTestStage::RegionAllocated { phys_addr } => Some(
                SelfTestAction::WriteRevisionId { phys_addr },
            ),
            SelfTestStage::RevisionIdWritten { phys_addr } => Some(
                SelfTestAction::Vmclear { phys_addr },
            ),
            SelfTestStage::Cleared { phys_addr } => Some(SelfTestAction::Vmptrld { phys_addr }),
            SelfTestStage::Current { phys_addr } => Some(
                SelfTestAction::Vmwrite { field: GUEST_RIP, value: SELF_TEST_PATTERN },
            ),
            SelfTestStage::PatternWritten { .. } => Some(SelfTestAction::Vmread { field: GUEST_RIP }),
            SelfTestStage::Finished(_) => None,
        }
    }

    /// The stage that `event`, the answer to this stage's action, leads to;
    /// `None` when `event` does not answer that action.
    pub open spec fn step_spec(self, event: SelfTestEvent) -> Option<SelfTestStage> {
        match (self, event) {
            (SelfTestStage::Start, SelfTestEvent::Allocated(page)) => Some(
                match page {
                    Some(phys_addr) => SelfTestStage::RegionAllocated { phys_addr },
                    None => SelfTestStage::Finished(Err(VmcsError::AllocationFailed)),
                },
            ),
            (SelfTestStage::RegionAllocated { phys_addr }, SelfTestEvent::Completed) => Some(
                SelfTestStage::RevisionIdWritten { phys_addr },
            ),
            (SelfTestStage::RevisionIdWritten { phys_addr }, SelfTestEvent::Executed(r)) => Some(
                match r {
                    Ok(()) => SelfTestStage::Cleared { phys_addr },
                    Err(e) => SelfTestStage::Finished(Err(e)),
                },
            ),
            (SelfTestStage::Cleared { phys_addr }, SelfTestEvent::Executed(r)) => Some(
                match r {
                    Ok(()) => SelfTestStage::Current { phys_addr },
                    Err(e) => SelfTestStage::Finished(Err(e)),
                },
            ),
            (SelfTestStage::Current { phys_addr }, SelfTestEvent::Executed(r)) => Some(
                match r {
                    Ok(()) => SelfTestStage::PatternWritten { phys_addr },
                    Err(e) => SelfTestStage::Finished(Err(e)),
                },
            ),
            (SelfTestStage::PatternWritten { phys_addr }, SelfTestEvent::ReadBack(r)) => Some(
                match r {
                    Ok(value) => if value == SELF_TEST_PATTERN {
                        SelfTestStage::Finished(Ok(phys_addr))
                    } else {
                        SelfTestStage::Finished(Err(VmcsError::SelfTestMismatch))
                    },
                    Err(e) => SelfTestStage::Finished(Err(e)),
                },
            ),
            _ => None,
        }
    }

    /// The action that this stage asks for; `None` once the test is over.
    pub fn next_action(&self) -> (action: Option<SelfTestAction>)
        ensures
            action == self.action_spec(),
    {
        match *self {
            SelfTestStage::Start => Some(SelfTestAction::AllocateRegion),
            SelfTestStage::RegionAllocated { phys_addr } => Some(
                SelfTestAction::WriteRevisionId { phys_addr },
            ),
            SelfTestStage::RevisionIdWritten { phys_addr } => Some(
                SelfTestAction::Vmclear { phys_addr },
            ),
            SelfTestStage::Cleared { phys_addr } => Some(SelfTestAction::Vmptrld { phys_addr }),
            SelfTestStage::Current { .. } => Some(
                SelfTestAction::Vmwrite { field: GUEST_RIP, value: SELF_TEST_PATTERN },
            ),
            SelfTestStage::PatternWritten { .. } => Some(SelfTestAction::Vmread { field: GUEST_RIP }),
            SelfTestStage::Finished(_) => None,
        }
    }

    /// Moves on with `event`, the answer to this stage's action. A failure
    /// ends the test with that failure; so does a read-back value other than
    /// [`SELF_TEST_PATTERN`], as `SelfTestMismatch`. `None` when `event`
    /// does not answer this stage's action.
    pub fn advance(self, event: SelfTestEvent) -> (next: Option<SelfTestStage>)
        ensures
            next == self.step_spec(event),
    {
        match (self, event) {
            (SelfTestStage::Start, SelfTestEvent::Allocated(page)) => Some(
                match page {
                    Some(phys_addr) => SelfTestStage::RegionAllocated { phys_addr },
                    None => SelfTestStage::Finished(Err(VmcsError::AllocationFailed)),
                },
            ),
            (SelfTestStage::RegionAllocated { phys_addr }, SelfTestEvent::Completed) => Some(
                SelfTestStage::RevisionIdWritten { phys_addr },
            ),
            (SelfTestStage::RevisionIdWritten { phys_addr }, SelfTestEvent::Executed(r)) => Some(
                match r {
                    Ok(()) => SelfTestStage::Cleared { phys_addr },
                    Err(e) => SelfTestStage::Finished(Err(e)),
                },
            ),
            (SelfTestStage::Cleared { phys_addr }, SelfTestEvent::Executed(r)) => Some(
                match r {
                    Ok(()) => SelfTestStage::Current { phys_addr },
                    Err(e) => SelfTestStage::Finished(Err(e)),
                },
            ),
            (SelfTestStage::Current { phys_addr }, SelfTestEvent::Executed(r)) => Some(
                match r {
                    Ok(()) => SelfTestStage::PatternWritten { phys_addr },
                    Err(e) => SelfTestStage::Finished(Err(e)),
                },
            ),
            (SelfTestStage::PatternWritten { phys_addr }, SelfTestEvent::ReadBack(r)) => Some(
                match r {
                    Ok(value) => if value == SELF_TEST_PATTERN {
                        SelfTestStage::Finished(Ok(phys_addr))
                    } else {
                        SelfTestStage::Finished(Err(VmcsError::SelfTestMismatch))
                    },
                    Err(e) => SelfTestStage::Finished(Err(e)),
                },
            ),
            _ => None,
        }
    }

    /// The result of a finished test: the tested region, or why the test
    /// failed. `None` while the test is still running.
    pub fn outcome(&self) -> (result: Option<Result<VmcsRegion, VmcsError>>)
        ensures
            match *self {
                SelfTestStage::Finished(Ok(phys_addr)) => result matches Some(Ok(region))
                    && region@ == phys_addr,
                SelfTestStage::Finished(Err(e)) => result == Some(
                    Err::<VmcsRegion, VmcsError>(e),
                ),
                _ => result is None,
            },
    {
        match *self {
            SelfTestStage::Finished(Ok(phys_addr)) => Some(Ok(VmcsRegion { phys_addr })),
            SelfTestStage::Finished(Err(e)) => Some(Err(e)),
            _ => None,
        }
    }
}

/// `event` is the kind of answer that `action` asks for: `Allocated` for
/// the allocation, `Completed` for the revision identifier write,
/// `Executed` for VMCLEAR, VMPTRLD and VMWRITE, `ReadBack` for VMREAD.
pub open spec fn self_test_answers(action: SelfTestAction, event: SelfTestEvent) -> bool {
    match action {
        SelfTestAction::AllocateRegion => event is Allocated,
        SelfTestAction::WriteRevisionId { .. } => event is Completed,
        SelfTestAction::Vmclear { .. } => event is Executed,
        SelfTestAction::Vmptrld { .. } => event is Executed,
        SelfTestAction::Vmwrite { .. } => event is Executed,
        SelfTestAction::Vmread { .. } => event is ReadBack,
    }
}

/// The self test asks for work exactly until it is finished, whatever its
/// result, and a stage moves on exactly on an answer to the action it asks
/// for: a finished stage asks for nothing and accepts no answer.
pub proof fn self_test_asks_until_finished(stage: SelfTestStage, event: SelfTestEvent)
    ensures
        (stage.action_spec() is None <==> stage is Finished),
        (stage.step_spec(event) is Some <==> (stage.action_spec() matches Some(action)
            && self_test_answers(action, event))),
{
}

/// Every failure ends the self test with that failure: a missing page as
/// `AllocationFailed`, a failed VMCLEAR, VMPTRLD, VMWRITE or VMREAD with
/// the error it reported. A value read back other than the pattern ends it
/// as `SelfTestMismatch`, the pattern itself in success. No other answer
/// ends the test, and `SelfTestMismatch` is reported only for such a value
/// (or where the answer itself carried that error).
pub proof fn self_test_failures_end_the_test(stage: SelfTestStage, event: SelfTestEvent)
    requires
        (stage.step_spec(event) is Some),
    ensures
        (event == SelfTestEvent::Allocated(None) ==> stage.step_spec(event) == Some(
            SelfTestStage::Finished(Err(VmcsError::AllocationFailed)),
        )),
        (event matches SelfTestEvent::Executed(Err(e)) ==> stage.step_spec(event) == Some(
            SelfTestStage::Finished(Err(e)),
        )),
        (event matches SelfTestEvent::ReadBack(Err(e)) ==> stage.step_spec(event) == Some(
            SelfTestStage::Finished(Err(e)),
        )),
        (event matches SelfTestEvent::ReadBack(Ok(value)) ==> stage.step_spec(event) == Some(
            if value == SELF_TEST_PATTERN {
                SelfTestStage::Finished(Ok(stage->PatternWritten_phys_addr))
            } else {
                SelfTestStage::Finished(Err(VmcsError::SelfTestMismatch))
            },
        )),
        (stage.step_spec(event) matches Some(SelfTestStage::Finished(Err(e))) ==> {
            ||| event == SelfTestEvent::Allocated(None) && e == VmcsError::AllocationFailed
            ||| event == SelfTestEvent::Executed(Err(e))
            ||| event == SelfTestEvent::ReadBack(Err(e))
            ||| event matches SelfTestEvent::ReadBack(Ok(value)) && value != SELF_TEST_PATTERN
                && e == VmcsError::SelfTestMismatch
        }),
        (stage.step_spec(event) == Some(SelfTestStage::Finished(Err(VmcsError::SelfTestMismatch)))
            ==> (stage is PatternWritten && (event matches SelfTestEvent::ReadBack(Ok(value))
            && value != SELF_TEST_PATTERN)) || event == SelfTestEvent::Executed(
            Err(VmcsError::SelfTestMismatch),
        ) || event == SelfTestEvent::ReadBack(Err(VmcsError::SelfTestMismatch))),
{
}

/// The stages a self test passes through from `stage` when the answers are
/// `events`, ending at the first answer that does not fit.
pub open spec fn self_test_run(stage: SelfTestStage, events: Seq<SelfTestEvent>) -> Seq<
    SelfTestStage,
>
    decreases events.len(),
{
    if events.len() == 0 {
        seq![stage]
    } else {
        match stage.step_spec(events[0]) {
            Some(next) => seq![stage] + self_test_run(next, events.drop_first()),
            None => seq![stage],
        }
    }
}

/// Each stage of a run follows from the one before it and the answer given
/// there.
proof fn self_test_run_is_chain(stage: SelfTestStage, events: Seq<SelfTestEvent>)
    ensures
        self_test_run(stage, events).len() >= 1,
        self_test_run(stage, events).len() <= events.len() + 1,
        self_test_run(stage, events)[0] == stage,
        forall|i: int|
            0 < i < self_test_run(stage, events).len() ==> self_test_run(stage, events)[i
                - 1].step_spec(events[i - 1]) == Some(
                #[trigger] self_test_run(stage, events)[i],
            ),
    decreases events.len(),
{
    if events.len() > 0 {
        match stage.step_spec(events[0]) {
            Some(next) => {
                self_test_run_is_chain(next, events.drop_first());
                let rest = self_test_run(next, events.drop_first());
                let run = self_test_run(stage, events);
                assert(run == seq![stage] + rest);
                assert forall|i: int| 0 < i < run.len() implies run[i - 1].step_spec(events[i - 1])
                    == Some(#[trigger] run[i]) by {
                    if i > 1 {
                        assert(rest[i - 2].step_spec(events.drop_first()[i - 2]) == Some(rest[i - 1]));
                    }
                }
            },
            None => {},
        }
    }
}

/// The self test succeeds only in one way: the firmware provided a page, the
/// revision identifier was written, VMCLEAR, VMPTRLD and VMWRITE of the
/// pattern to GUEST_RIP all succeeded, and VMREAD of GUEST_RIP gave the
/// pattern back; the actions asked for were exactly those, in that order,
/// all on that page. Conversely those answers always end in success.
pub proof fn self_test_succeeds_only_on_full_path(
    events: Seq<SelfTestEvent>,
    i: int,
    phys_addr: u64,
)
    requires
        0 <= i < self_test_run(SelfTestStage::Start, events).len(),
        self_test_run(SelfTestStage::Start, events)[i] == SelfTestStage::Finished(Ok(phys_addr)),
    ensures
        i == 6,
        events[0] == SelfTestEvent::Allocated(Some(phys_addr)),
        events[1] == SelfTestEvent::Completed,
        events[2] == SelfTestEvent::Executed(Ok(())),
        events[3] == SelfTestEvent::Executed(Ok(())),
        events[4] == SelfTestEvent::Executed(Ok(())),
        events[5] == SelfTestEvent::ReadBack(Ok(SELF_TEST_PATTERN)),
        self_test_run(SelfTestStage::Start, events)[0].action_spec() == Some(
            SelfTestAction::AllocateRegion,
        ),
        self_test_run(SelfTestStage::Start, events)[1].action_spec() == Some(
            SelfTestAction::WriteRevisionId { phys_addr },
        ),
        self_test_run(SelfTestStage::Start, events)[2].action_spec() == Some(
            SelfTestAction::Vmclear { phys_addr },
        ),
        self_test_run(SelfTestStage::Start, events)[3].action_spec() == Some(
            SelfTestAction::Vmptrld { phys_addr },
        ),
        self_test_run(SelfTestStage::Start, events)[4].action_spec() == Some(
            SelfTestAction::Vmwrite { field: GUEST_RIP, value: SELF_TEST_PATTERN },
        ),
        self_test_run(SelfTestStage::Start, events)[5].action_spec() == Some(
            SelfTestAction::Vmread { field: GUEST_RIP },
        ),
{
    let run = self_test_run(SelfTestStage::Start, events);
    self_test_run_is_chain(SelfTestStage::Start, events);
    assert(i > 0);
    assert(run[i - 1].step_spec(events[i - 1]) == Some(run[i]));
    assert(run[i - 1] == SelfTestStage::PatternWritten { phys_addr });
    assert(i - 1 > 0);
    assert(run[i - 2].step_spec(events[i - 2]) == Some(run[i - 1]));
    assert(run[i - 2] == SelfTestStage::Current { phys_addr });
    assert(i - 2 > 0);
    assert(run[i - 3].step_spec(events[i - 3]) == Some(run[i - 2]));
    assert(run[i - 3] == SelfTestStage::Cleared { phys_addr });
    assert(i - 3 > 0);
    assert(run[i - 4].step_spec(events[i - 4]) == Some(run[i - 3]));
    assert(run[i - 4] == SelfTestStage::RevisionIdWritten { phys_addr });
    assert(i - 4 > 0);
    assert(run[i - 5].step_spec(events[i - 5]) == Some(run[i - 4]));
    assert(run[i - 5] == SelfTestStage::RegionAllocated { phys_addr });
    assert(i - 5 > 0);
    assert(run[i - 6].step_spec(events[i - 6]) == Some(run[i - 5]));
    assert(run[i - 6] == SelfTestStage::Start);
    if i - 6 > 0 {
        assert(run[i - 7].step_spec(events[i - 7]) == Some(run[i - 6]));
    }
    assert(i == 6);
    step_into_running_stage(run[2], events[2], run[3]);
    step_into_running_stage(run[3], events[3], run[4]);
    step_into_running_stage(run[4], events[4], run[5]);
}

/// VMPTRLD is executed only on a region whose revision identifier was
/// written and which VMCLEAR then initialised successfully: whenever a run
/// from the start asks for VMPTRLD, the actions asked for before were
/// exactly allocation, the revision identifier write and VMCLEAR, on the
/// same region, and each was reported done.
pub proof fn vmptrld_only_after_revision_id_and_vmclear(
    events: Seq<SelfTestEvent>,
    i: int,
    phys_addr: u64,
)
    requires
        0 <= i < self_test_run(SelfTestStage::Start, events).len(),
        self_test_run(SelfTestStage::Start, events)[i].action_spec() == Some(
            SelfTestAction::Vmptrld { phys_addr },
        ),
    ensures
        i == 3,
        self_test_run(SelfTestStage::Start, events)[0].action_spec() == Some(
            SelfTestAction::AllocateRegion,
        ),
        self_test_run(SelfTestStage::Start, events)[1].action_spec() == Some(
            SelfTestAction::WriteRevisionId { phys_addr },
        ),
        self_test_run(SelfTestStage::Start, events)[2].action_spec() == Some(
            SelfTestAction::Vmclear { phys_addr },
        ),
        events[0] == SelfTestEvent::Allocated(Some(phys_addr)),
        events[1] == SelfTestEvent::Completed,
        events[2] == SelfTestEvent::Executed(Ok(())),
{
    let run = self_test_run(SelfTestStage::Start, events);
    self_test_run_is_chain(SelfTestStage::Start, events);
    assert(run[i] == SelfTestStage::Cleared { phys_addr });
    assert(i > 0);
    assert(run[i - 1].step_spec(events[i - 1]) == Some(run[i]));
    assert(run[i - 1] == SelfTestStage::RevisionIdWritten { phys_addr });
    assert(i - 1 > 0);
    assert(run[i - 2].step_spec(events[i - 2]) == Some(run[i - 1]));
    assert(run[i - 2] == SelfTestStage::RegionAllocated { phys_addr });
    assert(i - 2 > 0);
    assert(run[i - 3].step_spec(events[i - 3]) == Some(run[i - 2]));
    assert(run[i - 3] == SelfTestStage::Start);
    if i - 3 > 0 {
        assert(run[i - 4].step_spec(events[i - 4]) == Some(run[i - 3]));
    }
    step_into_running_stage(run[2], events[2], run[3]);
}

/// The only answer that moves a self test from one instruction to the next
/// is the success of that instruction.
proof fn step_into_running_stage(stage: SelfTestStage, event: SelfTestEvent, next: SelfTestStage)
    requires
        stage.step_spec(event) == Some(next),
        next is Cleared || next is Current || next is PatternWritten,
    ensures
        event == SelfTestEvent::Executed(Ok(())),
{
    match event {
        SelfTestEvent::Executed(r) => {
            match r {
                Ok(u) => {
                    assert(u == ());
                },
                Err(_) => {},
            }
        },
        _ => {},
    }
}

/// The answers of a working processor and firmware (a page, success of
/// every instruction, the pattern read back) end the self test in success
/// on that page.
pub proof fn self_test_full_path_succeeds(events: Seq<SelfTestEvent>, phys_addr: u64)
    requires
        events == seq![
            SelfTestEvent::Allocated(Some(phys_addr)),
            SelfTestEvent::Completed,
            SelfTestEvent::Executed(Ok(())),
            SelfTestEvent::Executed(Ok(())),
            SelfTestEvent::Executed(Ok(())),
            SelfTestEvent::ReadBack(Ok(SELF_TEST_PATTERN)),
        ],
    ensures
        self_test_run(SelfTestStage::Start, events).len() == 7,
        self_test_run(SelfTestStage::Start, events)[6] == SelfTestStage::Finished(Ok(phys_addr)),
{
    let e1 = events.drop_first();
    let e2 = e1.drop_first();
    let e3 = e2.drop_first();
    let e4 = e3.drop_first();
    let e5 = e4.drop_first();
    let e6 = e5.drop_first();
    assert(e6.len() == 0);
    let r6 = self_test_run(SelfTestStage::Finished(Ok(phys_addr)), e6);
    let r5 = self_test_run(SelfTestStage::PatternWritten { phys_addr }, e5);
    let r4 = self_test_run(SelfTestStage::Current { phys_addr }, e4);
    let r3 = self_test_run(SelfTestStage::Cleared { phys_addr }, e3);
    let r2 = self_test_run(SelfTestStage::RevisionIdWritten { phys_addr }, e2);
    let r1 = self_test_run(SelfTestStage::RegionAllocated { phys_addr }, e1);
    assert(r6.len() == 1);
    assert(r5 == seq![SelfTestStage::PatternWritten { phys_addr }] + r6);
    assert(r4 == seq![SelfTestStage::Current { phys_addr }] + r5);
    assert(r3 == seq![SelfTestStage::Cleared { phys_addr }] + r4);
    assert(r2 == seq![SelfTestStage::RevisionIdWritten { phys_addr }] + r3);
    assert(r1 == seq![SelfTestStage::RegionAllocated { phys_addr }] + r2);
    assert(self_test_run(SelfTestStage::Start, events) == seq![SelfTestStage::Start] + r1);
}

} // verus!
