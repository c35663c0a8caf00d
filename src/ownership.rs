//! What the protocol does to the record buffer over a whole fetch: how many
//! buffers it allocates, frees and adopts for any sequence of host outcomes.

use vstd::prelude::*;
use crate::fetch::{next, plan_for, Action, BufferPlan, HostEvent, InfoFetch, Phase, Violation};
use crate::layout::{layout_fits, lemma_round_up, round_up};
use uefi::Status;

verus! {

/// The phase reached and the actions taken when `events` arrive one after
/// the other, starting in `phase`.
pub open spec fn run(align: usize, phase: Phase, events: Seq<HostEvent>) -> (Phase, Seq<Action>)
    decreases events.len(),
{
    if events.len() == 0 {
        (phase, seq![])
    } else {
        let (p, a) = next(align, phase, events[0]);
        let (last, rest) = run(align, p, events.skip(1));
        (last, seq![a] + rest)
    }
}

/// How many allocations the actions ask for.
pub open spec fn allocations(actions: Seq<Action>) -> nat
    decreases actions.len(),
{
    if actions.len() == 0 {
        0
    } else {
        (if actions[0] is Allocate { 1nat } else { 0nat }) + allocations(actions.skip(1))
    }
}

/// How many buffers the actions free.
pub open spec fn frees(actions: Seq<Action>) -> nat
    decreases actions.len(),
{
    if actions.len() == 0 {
        0
    } else {
        (if actions[0] is Release { 1nat } else { 0nat }) + frees(actions.skip(1))
    }
}

/// How many buffers the actions adopt as records.
pub open spec fn adoptions(actions: Seq<Action>) -> nat
    decreases actions.len(),
{
    if actions.len() == 0 {
        0
    } else {
        (if actions[0] is Adopt { 1nat } else { 0nat }) + adoptions(actions.skip(1))
    }
}

/// The phase holds a plan or a buffer that is yet to be freed or adopted.
pub open spec fn holds(phase: Phase) -> bool {
    phase is Allocating || phase is Populating
}

proof fn lemma_counts_cons(a: Action, rest: Seq<Action>)
    ensures
        allocations(seq![a] + rest) == (if a is Allocate { 1nat } else { 0nat }) + allocations(rest),
        frees(seq![a] + rest) == (if a is Release { 1nat } else { 0nat }) + frees(rest),
        adoptions(seq![a] + rest) == (if a is Adopt { 1nat } else { 0nat }) + adoptions(rest),
{
    let s = seq![a] + rest;
    assert(s[0] == a);
    assert(s.skip(1) =~= rest);
}

proof fn lemma_run_cons(align: usize, phase: Phase, e: HostEvent, events: Seq<HostEvent>)
    ensures
        run(align, phase, seq![e] + events) == ({
            let (p, a) = next(align, phase, e);
            let (last, rest) = run(align, p, events);
            (last, seq![a] + rest)
        }),
{
    let s = seq![e] + events;
    assert(s[0] == e);
    assert(s.skip(1) =~= events);
}

/// Nothing happens to memory after a fetch has finished.
proof fn lemma_finished_inert(align: usize, events: Seq<HostEvent>)
    ensures
        run(align, Phase::Finished, events).0 == Phase::Finished,
        allocations(run(align, Phase::Finished, events).1) == 0,
        frees(run(align, Phase::Finished, events).1) == 0,
        adoptions(run(align, Phase::Finished, events).1) == 0,
    decreases events.len(),
{
    if events.len() > 0 {
        lemma_finished_inert(align, events.skip(1));
        lemma_counts_cons(
            Action::Abort(Violation::UnexpectedEvent),
            run(align, Phase::Finished, events.skip(1)).1,
        );
    }
}

proof fn lemma_ledger(align: usize, phase: Phase, events: Seq<HostEvent>)
    ensures
        ({
            let acts = run(align, phase, events).1;
            &&& allocations(acts) <= (if phase is Probing { 1nat } else { 0nat })
            &&& frees(acts) + adoptions(acts) <= allocations(acts) + (if holds(phase) { 1nat } else { 0nat })
            &&& holds(run(align, phase, events).0) ==> frees(acts) + adoptions(acts) == 0
        }),
    decreases events.len(),
{
    if events.len() > 0 {
        let (p, a) = next(align, phase, events[0]);
        lemma_ledger(align, p, events.skip(1));
        lemma_counts_cons(a, run(align, p, events.skip(1)).1);
        if p == Phase::Finished {
            lemma_finished_inert(align, events.skip(1));
        }
    }
}

/// Over any sequence of host outcomes a fetch allocates at most one buffer,
/// and gives it up at most once: it is freed or adopted, never both, and
/// nothing is freed or adopted that was not allocated. While the fetch
/// still holds the buffer, it has neither freed nor adopted it.
pub proof fn lemma_single_ownership(align: usize, events: Seq<HostEvent>)
    ensures
        ({
            let (last, acts) = run(align, Phase::Probing, events);
            &&& allocations(acts) <= 1
            &&& frees(acts) + adoptions(acts) <= allocations(acts)
            &&& holds(last) ==> frees(acts) + adoptions(acts) == 0
        }),
{
    lemma_ledger(align, Phase::Probing, events);
}

/// A probe rejected without a size hint ends the fetch with that same
/// status and no allocation, whatever outcomes arrive after it.
pub proof fn lemma_no_hint_propagates(align: usize, status: Status, later: Seq<HostEvent>)
    ensures
        ({
            let (last, acts) = run(
                align,
                Phase::Probing,
                seq![HostEvent::ProbeRejected { status, hint: None }] + later,
            );
            &&& acts[0] == Action::Propagate { status }
            &&& allocations(acts) == 0
            &&& frees(acts) == 0
            &&& adoptions(acts) == 0
            &&& last == Phase::Finished
        }),
{
    let e = HostEvent::ProbeRejected { status, hint: None };
    lemma_run_cons(align, Phase::Probing, e, later);
    lemma_finished_inert(align, later);
    lemma_counts_cons(Action::Propagate { status }, run(align, Phase::Finished, later).1);
}

/// A probe that reports `size`, an aligned buffer, and a sized call that
/// fills exactly `size` bytes in place: the fetch allocates once, adopts
/// the buffer as a record of `size` bytes, and frees nothing.
pub proof fn lemma_round_trip(align: usize, probe: Status, size: usize, addr: usize)
    requires
        size > 0,
        layout_fits(size as nat, align as nat),
        addr != 0,
        addr % align == 0,
    ensures
        ({
            let (last, acts) = run(
                align,
                Phase::Probing,
                seq![
                    HostEvent::ProbeRejected { status: probe, hint: Some(size) },
                    HostEvent::BufferAllocated { addr },
                    HostEvent::PopulateFilled { len: size, addr },
                ],
            );
            &&& acts == seq![
                Action::Allocate(plan_for(size, align)),
                Action::Populate { addr, size },
                Action::Adopt { addr, len: size },
            ]
            &&& last == Phase::Finished
            &&& allocations(acts) == 1
            &&& frees(acts) == 0
            &&& adoptions(acts) == 1
        }),
{
    let plan = plan_for(size, align);
    let e0 = HostEvent::ProbeRejected { status: probe, hint: Some(size) };
    let e1 = HostEvent::BufferAllocated { addr };
    let e2 = HostEvent::PopulateFilled { len: size, addr };
    let a0 = Action::Allocate(plan);
    let a1 = Action::Populate { addr, size };
    let a2 = Action::Adopt { addr, len: size };
    lemma_run_cons(align, Phase::Populating { plan, addr }, e2, seq![]);
    lemma_run_cons(align, Phase::Allocating(plan), e1, seq![e2]);
    lemma_run_cons(align, Phase::Probing, e0, seq![e1, e2]);
    assert(seq![e1] + seq![e2] =~= seq![e1, e2]);
    assert(seq![e0] + seq![e1, e2] =~= seq![e0, e1, e2]);
    assert(seq![a2] + Seq::<Action>::empty() =~= seq![a2]);
    assert(seq![a1] + seq![a2] =~= seq![a1, a2]);
    assert(seq![a0] + seq![a1, a2] =~= seq![a0, a1, a2]);
    lemma_counts_cons(a2, seq![]);
    lemma_counts_cons(a1, seq![a2]);
    lemma_counts_cons(a0, seq![a1, a2]);
}

/// A probe that reports `size`, an aligned buffer, and a sized call that
/// fails with `status`: the fetch allocates once, frees that buffer once,
/// adopts nothing, and fails with `status` unchanged.
pub proof fn lemma_sized_failure_releases(
    align: usize,
    probe: Status,
    size: usize,
    addr: usize,
    status: Status,
)
    requires
        size > 0,
        layout_fits(size as nat, align as nat),
        addr != 0,
        addr % align == 0,
    ensures
        ({
            let (last, acts) = run(
                align,
                Phase::Probing,
                seq![
                    HostEvent::ProbeRejected { status: probe, hint: Some(size) },
                    HostEvent::BufferAllocated { addr },
                    HostEvent::PopulateRejected { status },
                ],
            );
            &&& acts == seq![
                Action::Allocate(plan_for(size, align)),
                Action::Populate { addr, size },
                Action::Release { status },
            ]
            &&& last == Phase::Finished
            &&& allocations(acts) == 1
            &&& frees(acts) == 1
            &&& adoptions(acts) == 0
        }),
{
    let plan = plan_for(size, align);
    let e0 = HostEvent::ProbeRejected { status: probe, hint: Some(size) };
    let e1 = HostEvent::BufferAllocated { addr };
    let e2 = HostEvent::PopulateRejected { status };
    let a0 = Action::Allocate(plan);
    let a1 = Action::Populate { addr, size };
    let a2 = Action::Release { status };
    lemma_run_cons(align, Phase::Populating { plan, addr }, e2, seq![]);
    lemma_run_cons(align, Phase::Allocating(plan), e1, seq![e2]);
    lemma_run_cons(align, Phase::Probing, e0, seq![e1, e2]);
    assert(seq![e1] + seq![e2] =~= seq![e1, e2]);
    assert(seq![e0] + seq![e1, e2] =~= seq![e0, e1, e2]);
    assert(seq![a2] + Seq::<Action>::empty() =~= seq![a2]);
    assert(seq![a1] + seq![a2] =~= seq![a1, a2]);
    assert(seq![a0] + seq![a1, a2] =~= seq![a0, a1, a2]);
    lemma_counts_cons(a2, seq![]);
    lemma_counts_cons(a1, seq![a2]);
    lemma_counts_cons(a0, seq![a1, a2]);
}

/// Every buffer the fetch asks for is aligned to the record type's
/// alignment and padded to the next multiple of it, never short of the
/// size the host reported; and the host is only ever handed a non-null
/// buffer whose address is a multiple of that alignment.
pub proof fn lemma_buffers_aligned(fetch: InfoFetch, event: HostEvent)
    requires
        fetch.wf(),
    ensures
        next(fetch.align, fetch.phase, event).1 matches Action::Allocate(plan) ==> {
            &&& plan.align == fetch.align
            &&& plan.capacity == round_up(plan.size as nat, fetch.align as nat)
            &&& plan.capacity % fetch.align == 0
            &&& plan.size <= plan.capacity < plan.size + fetch.align
        },
        next(fetch.align, fetch.phase, event).1 matches Action::Populate { addr, size } ==> {
            &&& addr != 0
            &&& addr % fetch.align == 0
        },
{
    if let Action::Allocate(plan) = next(fetch.align, fetch.phase, event).1 {
        lemma_round_up(plan.size as nat, fetch.align as nat);
    }
}

/// A host that fills the zero-length probe, or answers the sized call with a
/// record that is not exactly the buffer it was given, stops the fetch:
/// nothing is adopted afterwards, whatever outcomes follow.
pub proof fn lemma_violations_abort(
    align: usize,
    plan: BufferPlan,
    buf: usize,
    len: usize,
    addr: usize,
    later: Seq<HostEvent>,
)
    ensures
        ({
            let acts = run(align, Phase::Probing, seq![HostEvent::ProbeFilled] + later).1;
            &&& acts[0] == Action::Abort(Violation::ProbeSucceeded)
            &&& allocations(acts) == 0
            &&& adoptions(acts) == 0
        }),
        len != plan.size || addr != buf ==> {
            let acts = run(
                align,
                Phase::Populating { plan, addr: buf },
                seq![HostEvent::PopulateFilled { len, addr }] + later,
            ).1;
            &&& acts[0] is Abort
            &&& adoptions(acts) == 0
        },
{
    lemma_finished_inert(align, later);
    let rest = run(align, Phase::Finished, later).1;
    lemma_run_cons(align, Phase::Probing, HostEvent::ProbeFilled, later);
    lemma_counts_cons(Action::Abort(Violation::ProbeSucceeded), rest);
    let e = HostEvent::PopulateFilled { len, addr };
    lemma_run_cons(align, Phase::Populating { plan, addr: buf }, e, later);
    lemma_counts_cons(next(align, Phase::Populating { plan, addr: buf }, e).1, rest);
}

} // verus!
