//! Entering VMX root operation (VMXON).
//!
//! Order matters; [`VmxOnStage`] drives the steps one at a time:
//!
//! 1. set CR4.VMXE. VMXON is #UD without it;
//! 2. make CR0/CR4 satisfy `IA32_VMX_CR{0,4}_FIXED{0,1}`: for each register
//!    `value = (value | fixed0) & fixed1` ([`apply_fixed_bits`]). VMXON
//!    fails with VmFailInvalid if this is skipped;
//! 3. allocate one 4 KiB page, 4 KiB-aligned, zeroed. UEFI page allocation
//!    already guarantees page alignment, and UEFI identity-maps memory, so
//!    the pointer is also the physical address;
//! 4. write the VMCS revision identifier, bits 0..=30 of `IA32_VMX_BASIC`
//!    ([`vmcs_revision_id`]), to the first 4 bytes of the region;
//! 5. execute VMXON. The instruction takes a *memory* operand holding the
//!    64-bit physical address ([`VmxOnRegion::phys_addr_ref`]). Then RFLAGS
//!    tells the outcome ([`vmxon_outcome`]): CF=1 is VmFailInvalid (bad
//!    region, alignment or revision id), ZF=1 is VmFailValid (already in
//!    VMX operation, error number 15).
//!
//! Memory type: `LOADER_DATA` is fine while Boot Services are alive. If the
//! hypervisor is meant to survive `ExitBootServices`, this must become
//! `RUNTIME_SERVICES_DATA` (or a reserved type) so the OS never reclaims it.
use vstd::prelude::*;
use crate::vmx::vmcs::{carry_flag, zero_flag};

verus! {

/// VMXON region size. Architecturally at most 4 KiB; one page is the norm.
pub const VMXON_REGION_SIZE: usize = 4096;

/// A 4 KiB, 4 KiB-aligned region handed to VMXON.
///
/// The region must stay allocated for as long as the CPU is in VMX
/// operation.
pub struct VmxOnRegion {
    /// Physical address of the region. Equal to the virtual address under UEFI.
    phys_addr: u64,
}

impl View for VmxOnRegion {
    type V = u64;

    /// The region's physical address.
    closed spec fn view(&self) -> u64 {
        self.phys_addr
    }
}

impl VmxOnRegion {
    /// Physical address to hand to VMXON.
    pub fn phys_addr_ref(&self) -> (addr: &u64)
        ensures
            *addr == self@,
    {
        &self.phys_addr
    }
}

/// Why entering VMX operation failed.
#[derive(Debug, Clone, Copy, PartialEq, Eq, Structural)]
pub enum VmxOnError {
    /// UEFI could not provide a page.
    AllocationFailed,
    /// VMXON reported VmFailInvalid (CF=1).
    VmFailInvalid,
    /// VMXON reported VmFailValid (ZF=1): typically already in VMX operation.
    VmFailValid,
}

/// VMCS revision identifier from `IA32_VMX_BASIC` bits 0..=30.
pub fn vmcs_revision_id(vmx_basic: u64) -> (revision_id: u32)
    ensures
        revision_id == vmx_basic % 0x8000_0000,
        revision_id < 0x8000_0000,
{
    assert((vmx_basic & 0x7FFF_FFFFu64) == vmx_basic % 0x8000_0000u64) by (bit_vector);
    (vmx_basic & 0x7FFF_FFFF) as u32
}

/// A control register value is allowed in VMX operation under the
/// `fixed0`/`fixed1` MSR pair: every bit set in `fixed0` is set, and every
/// bit clear in `fixed1` is clear.
pub open spec fn satisfies_fixed_bits(value: u64, fixed0: u64, fixed1: u64) -> bool {
    &&& value & fixed0 == fixed0
    &&& value & !fixed1 == 0
}

/// Forces a CR0 or CR4 value into the range the CPU requires for VMX
/// operation: the bits of `fixed0` set, the bits clear in `fixed1` cleared.
///
/// Where the MSR pair is consistent (every must-be-1 bit may be 1), the
/// result is allowed in VMX operation; the bits that the pair leaves free
/// keep their value; and a value that is already allowed is left as it is.
pub fn apply_fixed_bits(value: u64, fixed0: u64, fixed1: u64) -> (fixed: u64)
    ensures
        fixed == (value | fixed0) & fixed1,
        fixed0 & !fixed1 == 0 ==> satisfies_fixed_bits(fixed, fixed0, fixed1),
        fixed & (!fixed0 & fixed1) == value & (!fixed0 & fixed1),
        satisfies_fixed_bits(value, fixed0, fixed1) ==> fixed == value,
{
    let fixed = (value | fixed0) & fixed1;
    assert(fixed0 & !fixed1 == 0 ==> fixed & fixed0 == fixed0 && fixed & !fixed1 == 0)
        by (bit_vector)
        requires
            fixed == (value | fixed0) & fixed1,
    ;
    assert(fixed & (!fixed0 & fixed1) == value & (!fixed0 & fixed1)) by (bit_vector)
        requires
            fixed == (value | fixed0) & fixed1,
    ;
    assert(value & fixed0 == fixed0 && value & !fixed1 == 0 ==> fixed == value) by (bit_vector)
        requires
            fixed == (value | fixed0) & fixed1,
    ;
    fixed
}

/// Applying the fixed bits a second time changes nothing.
pub proof fn apply_fixed_bits_idempotent(value: u64, fixed0: u64, fixed1: u64)
    ensures
        (((value | fixed0) & fixed1) | fixed0) & fixed1 == (value | fixed0) & fixed1,
{
    assert((((value | fixed0) & fixed1) | fixed0) & fixed1 == (value | fixed0) & fixed1)
        by (bit_vector);
}

/// What VMXON reported through RFLAGS: CF=1 is VmFailInvalid, otherwise
/// ZF=1 is VmFailValid, otherwise success.
pub fn vmxon_outcome(rflags: u64) -> (outcome: Result<(), VmxOnError>)
    ensures
        outcome == Err::<(), VmxOnError>(VmxOnError::VmFailInvalid) <==> carry_flag(rflags),
        outcome == Err::<(), VmxOnError>(VmxOnError::VmFailValid) <==> !carry_flag(rflags)
            && zero_flag(rflags),
        outcome == Ok::<(), VmxOnError>(()) <==> !carry_flag(rflags) && !zero_flag(rflags),
{
    assert((rflags & 0x1u64 != 0) == (rflags % 2 == 1)) by (bit_vector);
    assert((rflags & 0x40u64 != 0) == ((rflags / 0x40) % 2 == 1)) by (bit_vector);
    let zero_flag = (rflags & 0x40) != 0;
    let carry_flag = (rflags & 0x1) != 0;

    if carry_flag {
        return Err(VmxOnError::VmFailInvalid);
    }
    if zero_flag {
        return Err(VmxOnError::VmFailValid);
    }
    Ok(())
}

/// How far entering VMX root operation has got.
#[derive(Debug, Clone, Copy, PartialEq, Eq)]
pub enum VmxOnStage {
    /// Nothing done yet.
    Start,
    /// CR4.VMXE is set.
    VmxeEnabled,
    /// CR0 and CR4 satisfy the VMX fixed bits.
    FixedBitsApplied,
    /// A zeroed page at `phys_addr` holds the VMXON region.
    RegionAllocated { phys_addr: u64 },
    /// The revision identifier is in the region's first four bytes.
    RevisionIdWritten { phys_addr: u64 },
    /// Entering is over: the region's address, or why it failed.
    Finished(Result<u64, VmxOnError>),
}

/// The work that entering VMX root operation asks for next.
#[derive(Debug, Clone, Copy, PartialEq, Eq)]
pub enum VmxOnAction {
    /// Set CR4.VMXE ([`crate::vmx::cr::enable_vmxe`]); answer with
    /// [`VmxOnEvent::Completed`].
    EnableVmxe,
    /// Force CR0 and CR4 into their fixed ranges ([`apply_fixed_bits`]);
    /// answer with [`VmxOnEvent::Completed`].
    ApplyFixedBits,
    /// Allocate and zero one page; answer with [`VmxOnEvent::Allocated`].
    AllocateRegion,
    /// Write [`vmcs_revision_id`] into the region's first four bytes; answer
    /// with [`VmxOnEvent::Completed`].
    WriteRevisionId { phys_addr: u64 },
    /// Execute VMXON on the region; answer with [`VmxOnEvent::Executed`].
    ExecuteVmxon { phys_addr: u64 },
}

/// What came of the action that entering VMX root operation asked for.
#[derive(Debug, Clone, Copy, PartialEq, Eq)]
pub enum VmxOnEvent {
    /// The register update or the revision identifier write is done.
    Completed,
    /// The physical address of the zeroed page, or `None` when the firmware
    /// could not provide one.
    Allocated(Option<u64>),
    /// The outcome of VMXON ([`vmxon_outcome`]).
    Executed(Result<(), VmxOnError>),
}

impl VmxOnStage {
    /// The action that this stage asks for; `None` once entering is over.
    pub open spec fn action_spec(self) -> Option<VmxOnAction> {
        match self {
            VmxOnStage::Start => Some(VmxOnAction::EnableVmxe),
            VmxOnStage::VmxeEnabled => Some(VmxOnAction::ApplyFixedBits),
            VmxOnStage::FixedBitsApplied => Some(VmxOnAction::AllocateRegion),
            VmxOnStage::RegionAllocated { phys_addr } => Some(
                VmxOnAction::WriteRevisionId { phys_addr },
            ),
            VmxOnStage::RevisionIdWritten { phys_addr } => Some(
                VmxOnAction::ExecuteVmxon { phys_addr },
            ),
            VmxOnStage::Finished(_) => None,
        }
    }

    /// The stage that `event`, the answer to this stage's action, leads to;
    /// `None` when `event` does not answer that action.
    pub open spec fn step_spec(self, event: VmxOnEvent) -> Option<VmxOnStage> {
        match (self, event) {
            (VmxOnStage::Start, VmxOnEvent::Completed) => Some(VmxOnStage::VmxeEnabled),
            (VmxOnStage::VmxeEnabled, VmxOnEvent::Completed) => Some(VmxOnStage::FixedBitsApplied),
            (VmxOnStage::FixedBitsApplied, VmxOnEvent::Allocated(page)) => Some(
                match page {
                    Some(phys_addr) => VmxOnStage::RegionAllocated { phys_addr },
                    None => VmxOnStage::Finished(Err(VmxOnError::AllocationFailed)),
                },
            ),
            (VmxOnStage::RegionAllocated { phys_addr }, VmxOnEvent::Completed) => Some(
                VmxOnStage::RevisionIdWritten { phys_addr },
            ),
            (VmxOnStage::RevisionIdWritten { phys_addr }, VmxOnEvent::Executed(r)) => Some(
                match r {
                    Ok(()) => VmxOnStage::Finished(Ok(phys_addr)),
                    Err(e) => VmxOnStage::Finished(Err(e)),
                },
            ),
            _ => None,
        }
    }

    /// The action that this stage asks for; `None` once entering is over.
    pub fn next_action(&self) -> (action: Option<VmxOnAction>)
        ensures
            action == self.action_spec(),
    {
        match *self {
            VmxOnStage::Start => Some(VmxOnAction::EnableVmxe),
            VmxOnStage::VmxeEnabled => Some(VmxOnAction::ApplyFixedBits),
            VmxOnStage::FixedBitsApplied => Some(VmxOnAction::AllocateRegion),
            VmxOnStage::RegionAllocated { phys_addr } => Some(
                VmxOnAction::WriteRevisionId { phys_addr },
            ),
            VmxOnStage::RevisionIdWritten { phys_addr } => Some(
                VmxOnAction::ExecuteVmxon { phys_addr },
            ),
            VmxOnStage::Finished(_) => None,
        }
    }

    /// Moves on with `event`, the answer to this stage's action. A failure
    /// ends entering with that failure. `None` when `event` does not answer
    /// this stage's action.
    pub fn advance(self, event: VmxOnEvent) -> (next: Option<VmxOnStage>)
        ensures
            next == self.step_spec(event),
    {
        match (self, event) {
            (VmxOnStage::Start, VmxOnEvent::Completed) => Some(VmxOnStage::VmxeEnabled),
            (VmxOnStage::VmxeEnabled, VmxOnEvent::Completed) => Some(VmxOnStage::FixedBitsApplied),
            (VmxOnStage::FixedBitsApplied, VmxOnEvent::Allocated(page)) => Some(
                match page {
                    Some(phys_addr) => VmxOnStage::RegionAllocated { phys_addr },
                    None => VmxOnStage::Finished(Err(VmxOnError::AllocationFailed)),
                },
            ),
            (VmxOnStage::RegionAllocated { phys_addr }, VmxOnEvent::Completed) => Some(
                VmxOnStage::RevisionIdWritten { phys_addr },
            ),
            (VmxOnStage::RevisionIdWritten { phys_addr }, VmxOnEvent::Executed(r)) => Some(
                match r {
                    Ok(()) => VmxOnStage::Finished(Ok(phys_addr)),
                    Err(e) => VmxOnStage::Finished(Err(e)),
                },
            ),
            _ => None,
        }
    }

    /// The result of entering: the region the CPU now uses, or why entering
    /// failed. `None` while entering is still under way.
    pub fn outcome(&self) -> (result: Option<Result<VmxOnRegion, VmxOnError>>)
        ensures
            match *self {
                VmxOnStage::Finished(Ok(phys_addr)) => result matches Some(Ok(region))
                    && region@ == phys_addr,
                VmxOnStage::Finished(Err(e)) => result == Some(Err::<VmxOnRegion, VmxOnError>(e)),
                _ => result is None,
            },
    {
        match *self {
            VmxOnStage::Finished(Ok(phys_addr)) => Some(Ok(VmxOnRegion { phys_addr })),
            VmxOnStage::Finished(Err(e)) => Some(Err(e)),
            _ => None,
        }
    }
}

/// `event` is the kind of answer that `action` asks for: `Allocated` for
/// the allocation, `Executed` for VMXON, `Completed` for every other step.
pub open spec fn vmxon_answers(action: VmxOnAction, event: VmxOnEvent) -> bool {
    match action {
        VmxOnAction::AllocateRegion => event is Allocated,
        VmxOnAction::ExecuteVmxon { .. } => event is Executed,
        VmxOnAction::EnableVmxe => event is Completed,
        VmxOnAction::ApplyFixedBits => event is Completed,
        VmxOnAction::WriteRevisionId { .. } => event is Completed,
    }
}

/// Entering asks for work exactly until it is finished, whatever its
/// result, and a stage moves on exactly on an answer to the action it asks
/// for: a finished stage asks for nothing and accepts no answer.
pub proof fn vmxon_asks_until_finished(stage: VmxOnStage, event: VmxOnEvent)
    ensures
        (stage.action_spec() is None <==> stage is Finished),
        (stage.step_spec(event) is Some <==> (stage.action_spec() matches Some(action)
            && vmxon_answers(action, event))),
{
}

/// Every failure ends entering with that failure: a missing page as
/// `AllocationFailed`, a failed VMXON with the error it reported. Nothing
/// else ends in failure, and success comes only from VMXON reporting
/// success on the region whose revision identifier was written.
pub proof fn vmxon_failures_end_entering(stage: VmxOnStage, event: VmxOnEvent)
    requires
        (stage.step_spec(event) is Some),
    ensures
        (event == VmxOnEvent::Allocated(None) ==> stage.step_spec(event) == Some(
            VmxOnStage::Finished(Err(VmxOnError::AllocationFailed)),
        )),
        (event matches VmxOnEvent::Executed(Err(e)) ==> stage.step_spec(event) == Some(
            VmxOnStage::Finished(Err(e)),
        )),
        (stage.step_spec(event) matches Some(VmxOnStage::Finished(Err(e))) ==> (event
            == VmxOnEvent::Allocated(None) && e == VmxOnError::AllocationFailed) || event
            == VmxOnEvent::Executed(Err(e))),
        (stage.step_spec(event) matches Some(VmxOnStage::Finished(Ok(phys_addr))) ==> stage
            == VmxOnStage::RevisionIdWritten { phys_addr } && (event matches VmxOnEvent::Executed(
            Ok(_),
        ))),
{
}

/// The stages that entering VMX root operation passes through from `stage`
/// when the answers are `events`, ending at the first answer that does not
/// fit.
pub open spec fn vmxon_run(stage: VmxOnStage, events: Seq<VmxOnEvent>) -> Seq<VmxOnStage>
    decreases events.len(),
{
    if events.len() == 0 {
        seq![stage]
    } else {
        match stage.step_spec(events[0]) {
            Some(next) => seq![stage] + vmxon_run(next, events.drop_first()),
            None => seq![stage],
        }
    }
}

/// Each stage of a run follows from the one before it and the answer given
/// there.
proof fn vmxon_run_is_chain(stage: VmxOnStage, events: Seq<VmxOnEvent>)
    ensures
        vmxon_run(stage, events).len() >= 1,
        vmxon_run(stage, events).len() <= events.len() + 1,
        vmxon_run(stage, events)[0] == stage,
        forall|i: int|
            0 < i < vmxon_run(stage, events).len() ==> vmxon_run(stage, events)[i - 1].step_spec(
                events[i - 1],
            ) == Some(#[trigger] vmxon_run(stage, events)[i]),
    decreases events.len(),
{
    if events.len() > 0 {
        match stage.step_spec(events[0]) {
            Some(next) => {
                vmxon_run_is_chain(next, events.drop_first());
                let rest = vmxon_run(next, events.drop_first());
                let run = vmxon_run(stage, events);
                assert(run == seq![stage] + rest);
                assert forall|i: int| 0 < i < run.len() implies run[i - 1].step_spec(events[i - 1])
                    == Some(#[trigger] run[i]) by {
                    if i > 1 {
                        assert(rest[i - 2].step_spec(events.drop_first()[i - 2]) == Some(rest[i - 1]));
                    }
                }
            },
            None => {},
        }
    }
}

/// VMXON is executed only after CR4.VMXE was set, the fixed bits were
/// applied, a region was allocated and its revision identifier written, in
/// that order, on the same region: whenever a run from the start asks for
/// VMXON, the actions asked for before were exactly those and each was
/// reported done.
pub proof fn vmxon_only_after_preparation(events: Seq<VmxOnEvent>, i: int, phys_addr: u64)
    requires
        0 <= i < vmxon_run(VmxOnStage::Start, events).len(),
        vmxon_run(VmxOnStage::Start, events)[i].action_spec() == Some(
            VmxOnAction::ExecuteVmxon { phys_addr },
        ),
    ensures
        i == 4,
        vmxon_run(VmxOnStage::Start, events)[0].action_spec() == Some(VmxOnAction::EnableVmxe),
        vmxon_run(VmxOnStage::Start, events)[1].action_spec() == Some(VmxOnAction::ApplyFixedBits),
        vmxon_run(VmxOnStage::Start, events)[2].action_spec() == Some(VmxOnAction::AllocateRegion),
        vmxon_run(VmxOnStage::Start, events)[3].action_spec() == Some(
            VmxOnAction::WriteRevisionId { phys_addr },
        ),
        events[0] == VmxOnEvent::Completed,
        events[1] == VmxOnEvent::Completed,
        events[2] == VmxOnEvent::Allocated(Some(phys_addr)),
        events[3] == VmxOnEvent::Completed,
{
    let run = vmxon_run(VmxOnStage::Start, events);
    vmxon_run_is_chain(VmxOnStage::Start, events);
    assert(run[i] == VmxOnStage::RevisionIdWritten { phys_addr });
    assert(i > 0);
    assert(run[i - 1].step_spec(events[i - 1]) == Some(run[i]));
    assert(run[i - 1] == VmxOnStage::RegionAllocated { phys_addr });
    assert(i - 1 > 0);
    assert(run[i - 2].step_spec(events[i - 2]) == Some(run[i - 1]));
    assert(run[i - 2] == VmxOnStage::FixedBitsApplied);
    assert(i - 2 > 0);
    assert(run[i - 3].step_spec(events[i - 3]) == Some(run[i - 2]));
    assert(run[i - 3] == VmxOnStage::VmxeEnabled);
    assert(i - 3 > 0);
    assert(run[i - 4].step_spec(events[i - 4]) == Some(run[i - 3]));
    assert(run[i - 4] == VmxOnStage::Start);
    if i - 4 > 0 {
        assert(run[i - 5].step_spec(events[i - 5]) == Some(run[i - 4]));
    }
}

/// Entering VMX root operation succeeds only when VMXON, executed after the
/// full preparation, reported success; the resulting region is the one
/// that was allocated.
pub proof fn vmxon_succeeds_only_after_vmxon_success(
    events: Seq<VmxOnEvent>,
    i: int,
    phys_addr: u64,
)
    requires
        0 <= i < vmxon_run(VmxOnStage::Start, events).len(),
        vmxon_run(VmxOnStage::Start, events)[i] == VmxOnStage::Finished(Ok(phys_addr)),
    ensures
        i == 5,
        vmxon_run(VmxOnStage::Start, events)[4].action_spec() == Some(
            VmxOnAction::ExecuteVmxon { phys_addr },
        ),
        events[4] == VmxOnEvent::Executed(Ok(())),
{
    let run = vmxon_run(VmxOnStage::Start, events);
    vmxon_run_is_chain(VmxOnStage::Start, events);
    assert(i > 0);
    assert(run[i - 1].step_spec(events[i - 1]) == Some(run[i]));
    assert(run[i - 1] == VmxOnStage::RevisionIdWritten { phys_addr });
    vmxon_only_after_preparation(events, i - 1, phys_addr);
    match events[4] {
        VmxOnEvent::Executed(r) => {
            match r {
                Ok(u) => {
                    assert(u == ());
                },
                Err(_) => {},
            }
        },
        _ => {},
    }
}

/// The answers of a working processor and firmware (every step done, a
/// page, VMXON success) end in VMX root operation on that page.
pub proof fn vmxon_full_path_succeeds(events: Seq<VmxOnEvent>, phys_addr: u64)
    requires
        events == seq![
            VmxOnEvent::Completed,
            VmxOnEvent::Completed,
            VmxOnEvent::Allocated(Some(phys_addr)),
            VmxOnEvent::Completed,
            VmxOnEvent::Executed(Ok(())),
        ],
    ensures
        vmxon_run(VmxOnStage::Start, events).len() == 6,
        vmxon_run(VmxOnStage::Start, events)[5] == VmxOnStage::Finished(Ok(phys_addr)),
{
    let e1 = events.drop_first();
    let e2 = e1.drop_first();
    let e3 = e2.drop_first();
    let e4 = e3.drop_first();
    let e5 = e4.drop_first();
    assert(e5.len() == 0);
    let r5 = vmxon_run(VmxOnStage::Finished(Ok(phys_addr)), e5);
    let r4 = vmxon_run(VmxOnStage::RevisionIdWritten { phys_addr }, e4);
    let r3 = vmxon_run(VmxOnStage::RegionAllocated { phys_addr }, e3);
    let r2 = vmxon_run(VmxOnStage::FixedBitsApplied, e2);
    let r1 = vmxon_run(VmxOnStage::VmxeEnabled, e1);
    assert(r5.len() == 1);
    assert(r4 == seq![VmxOnStage::RevisionIdWritten { phys_addr }] + r5);
    assert(r3 == seq![VmxOnStage::RegionAllocated { phys_addr }] + r4);
    assert(r2 == seq![VmxOnStage::FixedBitsApplied] + r3);
    assert(r1 == seq![VmxOnStage::VmxeEnabled] + r2);
    assert(vmxon_run(VmxOnStage::Start, events) == seq![VmxOnStage::Start] + r1);
}

} // verus!
