use uefi::Status;
use uefi_exts::fetch::{Action, BufferPlan, HostEvent, InfoFetch, Phase, Violation};

struct Tally {
    allocs: usize,
    frees: usize,
    adopted: Option<(usize, usize)>,
}

fn drive(align: usize, events: &[HostEvent]) -> (Vec<Action>, Tally) {
    let mut fetch = InfoFetch::new(align);
    let mut actions = Vec::new();
    let mut tally = Tally { allocs: 0, frees: 0, adopted: None };
    for e in events {
        let a = fetch.step(*e);
        match a {
            Action::Allocate(_) => tally.allocs += 1,
            Action::Release { .. } => tally.frees += 1,
            Action::Adopt { addr, len } => tally.adopted = Some((addr, len)),
            _ => {}
        }
        actions.push(a);
    }
    (actions, tally)
}

fn rejected(hint: Option<usize>) -> HostEvent {
    HostEvent::ProbeRejected { status: Status::BUFFER_TOO_SMALL, hint }
}

#[test]
fn padded_buffer_adopted_at_logical_length() {
    let (actions, tally) = drive(
        8,
        &[
            rejected(Some(37)),
            HostEvent::BufferAllocated { addr: 0x1000 },
            HostEvent::PopulateFilled { len: 37, addr: 0x1000 },
        ],
    );
    assert_eq!(
        actions,
        vec![
            Action::Allocate(BufferPlan { size: 37, capacity: 40, align: 8 }),
            Action::Populate { addr: 0x1000, size: 37 },
            Action::Adopt { addr: 0x1000, len: 37 },
        ]
    );
    assert_eq!(tally.allocs, 1);
    assert_eq!(tally.frees, 0);
    assert_eq!(tally.adopted, Some((0x1000, 37)));
}

#[test]
fn round_trip_returns_reported_size() {
    let (actions, tally) = drive(
        2,
        &[
            rejected(Some(90)),
            HostEvent::BufferAllocated { addr: 0x2002 },
            HostEvent::PopulateFilled { len: 90, addr: 0x2002 },
        ],
    );
    assert_eq!(actions[0], Action::Allocate(BufferPlan { size: 90, capacity: 90, align: 2 }));
    assert_eq!(tally.adopted, Some((0x2002, 90)));
    assert_eq!(tally.allocs, 1);
    assert_eq!(tally.frees, 0);
}

#[test]
fn sized_failure_frees_once_and_keeps_status() {
    let (actions, tally) = drive(
        8,
        &[
            rejected(Some(16)),
            HostEvent::BufferAllocated { addr: 0x3000 },
            HostEvent::PopulateRejected { status: Status::DEVICE_ERROR },
        ],
    );
    assert_eq!(actions[2], Action::Release { status: Status::DEVICE_ERROR });
    assert_eq!(tally.allocs, 1);
    assert_eq!(tally.frees, 1);
    assert_eq!(tally.adopted, None);
}

#[test]
fn probe_without_hint_propagates_status() {
    let mut fetch = InfoFetch::new(8);
    let a = fetch.step(HostEvent::ProbeRejected { status: Status::NOT_FOUND, hint: None });
    assert_eq!(a, Action::Propagate { status: Status::NOT_FOUND });
    assert_eq!(fetch.phase, Phase::Finished);
    let (_, tally) = drive(8, &[HostEvent::ProbeRejected { status: Status::NO_MEDIA, hint: None }]);
    assert_eq!(tally.allocs, 0);
    assert_eq!(tally.frees, 0);
}

#[test]
fn probe_that_succeeds_aborts() {
    let mut fetch = InfoFetch::new(8);
    assert_eq!(fetch.step(HostEvent::ProbeFilled), Action::Abort(Violation::ProbeSucceeded));
    assert_eq!(fetch.phase, Phase::Finished);
}

#[test]
fn populated_view_of_wrong_length_aborts() {
    let (actions, tally) = drive(
        8,
        &[
            rejected(Some(24)),
            HostEvent::BufferAllocated { addr: 0x4000 },
            HostEvent::PopulateFilled { len: 16, addr: 0x4000 },
        ],
    );
    assert_eq!(actions[2], Action::Abort(Violation::SizeMismatch));
    assert_eq!(tally.adopted, None);
}

#[test]
fn populated_view_elsewhere_aborts() {
    let (actions, tally) = drive(
        8,
        &[
            rejected(Some(24)),
            HostEvent::BufferAllocated { addr: 0x4000 },
            HostEvent::PopulateFilled { len: 24, addr: 0x5000 },
        ],
    );
    assert_eq!(actions[2], Action::Abort(Violation::AddressMismatch));
    assert_eq!(tally.adopted, None);
}

#[test]
fn zero_size_hint_aborts() {
    let (actions, tally) = drive(8, &[rejected(Some(0))]);
    assert_eq!(actions, vec![Action::Abort(Violation::EmptySizeHint)]);
    assert_eq!(tally.allocs, 0);
}

#[test]
fn bad_alignment_or_huge_size_aborts() {
    let (actions, _) = drive(12, &[rejected(Some(24))]);
    assert_eq!(actions, vec![Action::Abort(Violation::UnrepresentableLayout)]);
    let (actions, _) = drive(8, &[rejected(Some(usize::MAX - 3))]);
    assert_eq!(actions, vec![Action::Abort(Violation::UnrepresentableLayout)]);
    let (actions, _) = drive(8, &[rejected(Some(isize::MAX as usize))]);
    assert_eq!(actions, vec![Action::Abort(Violation::UnrepresentableLayout)]);
}

#[test]
fn failed_or_misaligned_allocation_aborts() {
    let (actions, _) = drive(8, &[rejected(Some(8)), HostEvent::BufferAllocated { addr: 0 }]);
    assert_eq!(actions[1], Action::Abort(Violation::AllocationFailed));
    let (actions, _) = drive(8, &[rejected(Some(8)), HostEvent::BufferAllocated { addr: 0x1004 }]);
    assert_eq!(actions[1], Action::Abort(Violation::MisalignedBuffer));
}

#[test]
fn events_out_of_order_abort() {
    let (actions, _) = drive(8, &[HostEvent::BufferAllocated { addr: 0x1000 }]);
    assert_eq!(actions, vec![Action::Abort(Violation::UnexpectedEvent)]);
    let (actions, tally) = drive(
        8,
        &[
            rejected(Some(8)),
            HostEvent::BufferAllocated { addr: 0x1000 },
            HostEvent::PopulateRejected { status: Status::DEVICE_ERROR },
            HostEvent::PopulateRejected { status: Status::DEVICE_ERROR },
        ],
    );
    assert_eq!(actions[3], Action::Abort(Violation::UnexpectedEvent));
    assert_eq!(tally.frees, 1);
}
