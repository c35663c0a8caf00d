//! The query / allocate / populate / adopt protocol for a host-described
//! record, as a state machine. The caller performs each [`Action`] (a host
//! call or an allocation) and hands the outcome back as a [`HostEvent`]; the
//! machine decides what happens next and keeps track of who owns the buffer.

use vstd::prelude::*;
use crate::layout::{layout_fits, padded_capacity, round_up};
use uefi::Status;

verus! {

/// The status code that a UEFI call completes with, carried unchanged.
#[verifier::external_type_specification]
#[verifier::external_body]
pub struct ExStatus(Status);

/// The buffer to allocate for a record: `size` logical bytes, handed to the
/// host, inside an allocation of `capacity` bytes aligned to `align`.
#[derive(Clone, Copy, Debug, PartialEq, Eq)]
pub struct BufferPlan {
    pub size: usize,
    pub capacity: usize,
    pub align: usize,
}

/// A breach of the host's calling contract, or an allocation that cannot be
/// made. None of these is a recoverable error: the fetch stops.
#[derive(Clone, Copy, Debug, PartialEq, Eq)]
pub enum Violation {
    /// The host filled a zero-length buffer.
    ProbeSucceeded,
    /// The host asked for a buffer of zero bytes.
    EmptySizeHint,
    /// The size and alignment describe no valid allocation.
    UnrepresentableLayout,
    /// The allocator returned no memory.
    AllocationFailed,
    /// The allocator returned memory that is not aligned as asked.
    MisalignedBuffer,
    /// The host's record is not exactly as long as the buffer it was given.
    SizeMismatch,
    /// The host's record does not start at the buffer it was given.
    AddressMismatch,
    /// An outcome arrived that the current phase does not wait for.
    UnexpectedEvent,
}

/// What came back from the last action.
#[derive(Clone, Copy, Debug, PartialEq, Eq)]
pub enum HostEvent {
    /// The zero-length probe succeeded.
    ProbeFilled,
    /// The zero-length probe failed, with or without the size it needs.
    ProbeRejected { status: Status, hint: Option<usize> },
    /// The buffer was allocated at `addr` (0 when the allocator failed).
    BufferAllocated { addr: usize },
    /// The sized call succeeded with a record of `len` bytes at `addr`.
    PopulateFilled { len: usize, addr: usize },
    /// The sized call failed.
    PopulateRejected { status: Status },
}

/// What the caller does next.
#[derive(Clone, Copy, Debug, PartialEq, Eq)]
pub enum Action {
    /// Allocate a buffer as planned and report its address.
    Allocate(BufferPlan),
    /// Ask the host to fill the `size` bytes at `addr`.
    Populate { addr: usize, size: usize },
    /// Take the `len` bytes at `addr` as the record, without copying and
    /// without freeing the buffer; the fetch succeeded.
    Adopt { addr: usize, len: usize },
    /// Free the buffer and fail with `status`.
    Release { status: Status },
    /// Fail with `status`; nothing was allocated.
    Propagate { status: Status },
    /// Stop: the host or the allocator broke its contract.
    Abort(Violation),
}

/// Where the fetch stands.
#[derive(Clone, Copy, Debug, PartialEq, Eq)]
pub enum Phase {
    /// Waiting for the outcome of the zero-length probe.
    Probing,
    /// Waiting for the buffer of the plan.
    Allocating(BufferPlan),
    /// Waiting for the host to fill the buffer at `addr`, which the fetch owns.
    Populating { plan: BufferPlan, addr: usize },
    /// Done: the buffer, if any, has been adopted or released.
    Finished,
}

/// One fetch of a record whose type requires `align` alignment.
#[derive(Clone, Copy, Debug, PartialEq, Eq)]
pub struct InfoFetch {
    pub align: usize,
    pub phase: Phase,
}

/// The buffer for a record of `size` bytes and `align` alignment.
pub open spec fn plan_for(size: usize, align: usize) -> BufferPlan {
    BufferPlan { size, capacity: round_up(size as nat, align as nat) as usize, align }
}

/// A plan that allocates a valid layout for a non-empty record of type
/// alignment `align`.
pub open spec fn plan_ok(plan: BufferPlan, align: usize) -> bool {
    &&& plan.size > 0
    &&& layout_fits(plan.size as nat, align as nat)
    &&& plan == plan_for(plan.size, align)
}

/// The decision table of the protocol: from the phase and the outcome of the
/// last action, the next phase and the next action.
pub open spec fn next(align: usize, phase: Phase, event: HostEvent) -> (Phase, Action) {
    match phase {
        Phase::Probing => match event {
            HostEvent::ProbeFilled => (Phase::Finished, Action::Abort(Violation::ProbeSucceeded)),
            HostEvent::ProbeRejected { status, hint } => match hint {
                None => (Phase::Finished, Action::Propagate { status }),
                Some(size) => if size == 0 {
                    (Phase::Finished, Action::Abort(Violation::EmptySizeHint))
                } else if !layout_fits(size as nat, align as nat) {
                    (Phase::Finished, Action::Abort(Violation::UnrepresentableLayout))
                } else {
                    (Phase::Allocating(plan_for(size, align)), Action::Allocate(plan_for(size, align)))
                },
            },
            _ => (Phase::Finished, Action::Abort(Violation::UnexpectedEvent)),
        },
        Phase::Allocating(plan) => match event {
            HostEvent::BufferAllocated { addr } => if addr == 0 {
                (Phase::Finished, Action::Abort(Violation::AllocationFailed))
            } else if addr % plan.align != 0 {
                (Phase::Finished, Action::Abort(Violation::MisalignedBuffer))
            } else {
                (Phase::Populating { plan, addr }, Action::Populate { addr, size: plan.size })
            },
            _ => (Phase::Finished, Action::Abort(Violation::UnexpectedEvent)),
        },
        Phase::Populating { plan, addr: buf } => match event {
            HostEvent::PopulateRejected { status } => (Phase::Finished, Action::Release { status }),
            HostEvent::PopulateFilled { len, addr } => if len != plan.size {
                (Phase::Finished, Action::Abort(Violation::SizeMismatch))
            } else if addr != buf {
                (Phase::Finished, Action::Abort(Violation::AddressMismatch))
            } else {
                (Phase::Finished, Action::Adopt { addr, len })
            },
            _ => (Phase::Finished, Action::Abort(Violation::UnexpectedEvent)),
        },
        Phase::Finished => (Phase::Finished, Action::Abort(Violation::UnexpectedEvent)),
    }
}

impl InfoFetch {
    /// Every plan held matches the record's alignment and is a valid
    /// layout, and every buffer held is non-null and aligned.
    pub open spec fn wf(self) -> bool {
        match self.phase {
            Phase::Allocating(plan) => plan_ok(plan, self.align),
            Phase::Populating { plan, addr } => plan_ok(plan, self.align) && addr != 0 && addr
                % self.align == 0,
            _ => true,
        }
    }

    /// A fetch for a record type that requires `align` alignment, about to
    /// probe the host with a zero-length buffer.
    pub fn new(align: usize) -> (r: Self)
        ensures
            r.align == align,
            r.phase == Phase::Probing,
            r.wf(),
    {
        InfoFetch { align, phase: Phase::Probing }
    }

    /// Takes the outcome of the last action and returns the next one.
    pub fn step(&mut self, event: HostEvent) -> (a: Action)
        requires
            old(self).wf(),
        ensures
            final(self).align == old(self).align,
            (final(self).phase, a) == next(old(self).align, old(self).phase, event),
            final(self).wf(),
    {
        let align = self.align;
        let (phase, action) = match self.phase {
            Phase::Probing => match event {
                HostEvent::ProbeFilled => (Phase::Finished, Action::Abort(Violation::ProbeSucceeded)),
                HostEvent::ProbeRejected { status, hint } => match hint {
                    None => (Phase::Finished, Action::Propagate { status }),
                    Some(size) => if size == 0 {
                        (Phase::Finished, Action::Abort(Violation::EmptySizeHint))
                    } else {
                        match padded_capacity(size, align) {
                            None => (Phase::Finished, Action::Abort(Violation::UnrepresentableLayout)),
                            Some(capacity) => {
                                let plan = BufferPlan { size, capacity, align };
                                (Phase::Allocating(plan), Action::Allocate(plan))
                            },
                        }
                    },
                },
                _ => (Phase::Finished, Action::Abort(Violation::UnexpectedEvent)),
            },
            Phase::Allocating(plan) => match event {
                HostEvent::BufferAllocated { addr } => if addr == 0 {
                    (Phase::Finished, Action::Abort(Violation::AllocationFailed))
                } else if addr % plan.align != 0 {
                    (Phase::Finished, Action::Abort(Violation::MisalignedBuffer))
                } else {
                    (Phase::Populating { plan, addr }, Action::Populate { addr, size: plan.size })
                },
                _ => (Phase::Finished, Action::Abort(Violation::UnexpectedEvent)),
            },
            Phase::Populating { plan, addr: buf } => match event {
                HostEvent::PopulateRejected { status } => (Phase::Finished, Action::Release { status }),
                HostEvent::PopulateFilled { len, addr } => if len != plan.size {
                    (Phase::Finished, Action::Abort(Violation::SizeMismatch))
                } else if addr != buf {
                    (Phase::Finished, Action::Abort(Violation::AddressMismatch))
                } else {
                    (Phase::Finished, Action::Adopt { addr, len })
                },
                _ => (Phase::Finished, Action::Abort(Violation::UnexpectedEvent)),
            },
            Phase::Finished => (Phase::Finished, Action::Abort(Violation::UnexpectedEvent)),
        };
        self.phase = phase;
        action
    }
}

} // verus!
