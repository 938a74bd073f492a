//! The library's laws: properties of the session state machine that hold
//! for every handle, request, status code and candidate sequence, proved
//! once and for all over the machine's transition functions.

use vstd::prelude::*;

use crate::discovery::{Candidate, Selected, spec_selection};
use crate::session::{
    Action, ActuationRequest, ActuatorError, AfterOpen, Attempt, CloseReason, Completion, Event,
    MultitouchActuator, Phase, Resource, STATUS_SUCCESS, Step,
};

verus! {

/// Opening an already-open session is idempotent: two consecutive
/// `open_actuator` calls without an intervening close or failure both
/// return the cached handle, leave the session untouched, and neither
/// asks the host for any action — in particular, discovery never runs.
pub proof fn lemma_open_idempotent(s: MultitouchActuator, h: u64)
    requires
        s.inv(),
        s.idle(),
        s.resource == (Resource::Open { handle: h }),
    ensures
        ({
            let (s1, r1) = s.spec_open_actuator();
            let (s2, r2) = s1.spec_open_actuator();
            &&& s1 == s
            &&& s2 == s
            &&& r1 == Step::Done(Ok(Completion::Opened { handle: h }))
            &&& r2 == r1
        }),
{
}

/// Closing an already-closed session is a no-op success: the session is
/// untouched, no close is ever asked of the host, and doing it twice
/// changes nothing either.
pub proof fn lemma_close_noop(s: MultitouchActuator)
    requires
        s.inv(),
        s.idle(),
        s.resource is Closed,
    ensures
        ({
            let (s1, r1) = s.spec_close_actuator();
            let (s2, r2) = s1.spec_close_actuator();
            &&& s1 == s
            &&& s2 == s
            &&& r1 == Step::Done(Ok(Completion::Closed))
            &&& r2 == r1
        }),
{
}

/// Every step of the machine preserves the session invariant, whatever
/// the event.
pub proof fn lemma_step_preserves_inv(s: MultitouchActuator, e: Event)
    requires
        s.inv(),
    ensures
        s.spec_step(e).0.inv(),
{
}

/// An actuation that fails on the cached handle triggers exactly one
/// recycle: close the handle (the host's diagnostic point), re-discover,
/// re-open, re-issue the actuation once — and the second status settles
/// the operation, success as success and failure as a final actuation
/// error carrying the second status code.
pub proof fn lemma_retry_cycle(
    s: MultitouchActuator,
    h: u64,
    request: ActuationRequest,
    st1: i32,
    cands: Vec<Candidate>,
    sel: Selected,
    h2: u64,
    st2: i32,
)
    requires
        s.inv(),
        s.idle(),
        s.resource == (Resource::Open { handle: h }),
        st1 != STATUS_SUCCESS,
        spec_selection(cands@) == Some(sel),
    ensures
        ({
            let (s1, a1) = s.spec_actuate(request);
            let (s2, a2) = s1.spec_step(Event::ActuateStatus(st1));
            let (s3, a3) = s2.spec_step(Event::CloseStatus(STATUS_SUCCESS));
            let (s4, a4) = s3.spec_step(Event::Enumerated(cands));
            let (s5, a5) = s4.spec_step(Event::Created(Some(h2)));
            let (s6, a6) = s5.spec_step(Event::OpenStatus(STATUS_SUCCESS));
            let (s7, a7) = s6.spec_step(Event::ActuateStatus(st2));
            &&& a1 == Step::Perform(Action::Actuate { handle: h, request })
            &&& a2 == Step::Perform(
                Action::Close { handle: h, reason: CloseReason::FailedActuation { status: st1 } },
            )
            &&& a3 == Step::Perform(Action::Enumerate)
            &&& a4 == Step::Perform(Action::Create { device_id: sel.device_id })
            &&& a5 == Step::Perform(Action::Open { handle: h2 })
            &&& a6 == Step::Perform(Action::Actuate { handle: h2, request })
            &&& s7.idle()
            &&& s7.resource == (Resource::Open { handle: h2 })
            &&& (st2 == STATUS_SUCCESS ==> a7 == Step::Done(Ok(Completion::Actuated)))
            &&& (st2 != STATUS_SUCCESS ==> a7 == Step::Done(
                Err(ActuatorError::Actuation { handle: h2, request, status: st2 }),
            ))
        }),
{
}

/// The round trip open, actuate with success, close: starting from a
/// closed session, a successful discovery and open yield the fresh
/// handle, the actuation succeeds in one attempt, and the close leaves
/// the session closed and idle with no residual handle.
pub proof fn lemma_round_trip(
    s: MultitouchActuator,
    cands: Vec<Candidate>,
    sel: Selected,
    h: u64,
    request: ActuationRequest,
)
    requires
        s.inv(),
        s.idle(),
        s.resource is Closed,
        spec_selection(cands@) == Some(sel),
    ensures
        ({
            let (s1, a1) = s.spec_open_actuator();
            let (s2, a2) = s1.spec_step(Event::Enumerated(cands));
            let (s3, a3) = s2.spec_step(Event::Created(Some(h)));
            let (s4, a4) = s3.spec_step(Event::OpenStatus(STATUS_SUCCESS));
            let (s5, a5) = s4.spec_actuate(request);
            let (s6, a6) = s5.spec_step(Event::ActuateStatus(STATUS_SUCCESS));
            let (s7, a7) = s6.spec_close_actuator();
            let (s8, a8) = s7.spec_step(Event::CloseStatus(STATUS_SUCCESS));
            &&& a1 == Step::Perform(Action::Enumerate)
            &&& a2 == Step::Perform(Action::Create { device_id: sel.device_id })
            &&& a3 == Step::Perform(Action::Open { handle: h })
            &&& a4 == Step::Done(Ok(Completion::Opened { handle: h }))
            &&& a5 == Step::Perform(Action::Actuate { handle: h, request })
            &&& a6 == Step::Done(Ok(Completion::Actuated))
            &&& a7 == Step::Perform(
                Action::Close { handle: h, reason: CloseReason::Teardown },
            )
            &&& a8 == Step::Done(Ok(Completion::Closed))
            &&& s8 == (MultitouchActuator { resource: Resource::Closed, phase: Phase::Idle })
        }),
{
}

/// One when the turn asks the host to issue an actuation, zero otherwise.
pub open spec fn step_attempts(r: Step) -> nat {
    if r matches Step::Perform(Action::Actuate { .. }) {
        1
    } else {
        0
    }
}

/// How many actuation attempts the machine can still issue before it next
/// falls idle, by phase.
pub open spec fn attempt_budget(s: MultitouchActuator) -> nat {
    match s.phase {
        Phase::Idle => 0,
        Phase::Discovering { then } => after_open_budget(then),
        Phase::Creating { then, .. } => after_open_budget(then),
        Phase::Opening { then, .. } => after_open_budget(then),
        Phase::Actuating { attempt: Attempt::First, .. } => 1,
        Phase::Actuating { attempt: Attempt::Second, .. } => 0,
        Phase::RetryClosing { .. } => 1,
        Phase::Closing => 0,
    }
}

/// The attempt budget of a pending open, by what follows it.
pub open spec fn after_open_budget(then: AfterOpen) -> nat {
    match then {
        AfterOpen::Deliver => 0,
        AfterOpen::Actuate { attempt: Attempt::First, .. } => 2,
        AfterOpen::Actuate { attempt: Attempt::Second, .. } => 1,
    }
}

/// Each step spends budget: what it issues now plus what remains never
/// exceeds what was available.
pub proof fn lemma_step_budget(s: MultitouchActuator, e: Event)
    ensures
        step_attempts(s.spec_step(e).1) + attempt_budget(s.spec_step(e).0) <= attempt_budget(s),
{
}

/// The actuation attempts issued along a run of the machine, however the
/// host answers.
pub open spec fn trace_attempts(s: MultitouchActuator, evs: Seq<Event>) -> nat
    decreases evs.len(),
{
    if evs.len() == 0 {
        0
    } else {
        step_attempts(s.spec_step(evs[0]).1) + trace_attempts(
            s.spec_step(evs[0]).0,
            evs.drop_first(),
        )
    }
}

/// A whole run spends no more than the starting budget.
pub proof fn lemma_trace_budget(s: MultitouchActuator, evs: Seq<Event>)
    ensures
        trace_attempts(s, evs) <= attempt_budget(s),
    decreases evs.len(),
{
    if evs.len() > 0 {
        lemma_step_budget(s, evs[0]);
        lemma_trace_budget(s.spec_step(evs[0]).0, evs.drop_first());
    }
}

/// The retry budget is one: a single `actuate` call issues at most two
/// actuation attempts, however long the host drives the machine and
/// whatever it answers.
pub proof fn lemma_actuate_at_most_two_attempts(
    s: MultitouchActuator,
    request: ActuationRequest,
    evs: Seq<Event>,
)
    requires
        s.idle(),
    ensures
        ({
            let (s1, a1) = s.spec_actuate(request);
            step_attempts(a1) + trace_attempts(s1, evs) <= 2
        }),
{
    let (s1, a1) = s.spec_actuate(request);
    lemma_trace_budget(s1, evs);
}

/// One when the turn asks the host to close the handle, zero otherwise.
pub open spec fn step_closes(r: Step) -> nat {
    if r matches Step::Perform(Action::Close { .. }) {
        1
    } else {
        0
    }
}

/// How many closes the machine can still ask for before it next falls
/// idle, by phase.
pub open spec fn close_budget(s: MultitouchActuator) -> nat {
    match s.phase {
        Phase::Idle => 0,
        Phase::Discovering { then } => close_after_open_budget(then),
        Phase::Creating { then, .. } => close_after_open_budget(then),
        Phase::Opening { then, .. } => close_after_open_budget(then),
        Phase::Actuating { attempt: Attempt::First, .. } => 1,
        Phase::Actuating { attempt: Attempt::Second, .. } => 0,
        Phase::RetryClosing { .. } => 0,
        Phase::Closing => 0,
    }
}

/// The close budget of a pending open, by what follows it.
pub open spec fn close_after_open_budget(then: AfterOpen) -> nat {
    match then {
        AfterOpen::Deliver => 0,
        AfterOpen::Actuate { attempt: Attempt::First, .. } => 1,
        AfterOpen::Actuate { attempt: Attempt::Second, .. } => 0,
    }
}

/// Each step spends close budget just as it spends attempt budget.
pub proof fn lemma_step_close_budget(s: MultitouchActuator, e: Event)
    ensures
        step_closes(s.spec_step(e).1) + close_budget(s.spec_step(e).0) <= close_budget(s),
{
}

/// The closes asked for along a run of the machine, however the host
/// answers.
pub open spec fn trace_closes(s: MultitouchActuator, evs: Seq<Event>) -> nat
    decreases evs.len(),
{
    if evs.len() == 0 {
        0
    } else {
        step_closes(s.spec_step(evs[0]).1) + trace_closes(s.spec_step(evs[0]).0, evs.drop_first())
    }
}

/// A whole run asks for no more closes than the starting budget allows.
pub proof fn lemma_trace_close_budget(s: MultitouchActuator, evs: Seq<Event>)
    ensures
        trace_closes(s, evs) <= close_budget(s),
    decreases evs.len(),
{
    if evs.len() > 0 {
        lemma_step_close_budget(s, evs[0]);
        lemma_trace_close_budget(s.spec_step(evs[0]).0, evs.drop_first());
    }
}

/// A single `actuate` call recycles the handle at most once: at most one
/// close is ever asked for, however the host answers.
pub proof fn lemma_actuate_at_most_one_recycle(
    s: MultitouchActuator,
    request: ActuationRequest,
    evs: Seq<Event>,
)
    requires
        s.idle(),
    ensures
        ({
            let (s1, a1) = s.spec_actuate(request);
            step_closes(a1) + trace_closes(s1, evs) <= 1
        }),
{
    let (s1, a1) = s.spec_actuate(request);
    lemma_trace_close_budget(s1, evs);
}

/// A single `close_actuator` call never closes twice: at most one close
/// is ever asked for, however the host answers.
pub proof fn lemma_close_never_doubles(s: MultitouchActuator, evs: Seq<Event>)
    requires
        s.idle(),
    ensures
        ({
            let (s1, a1) = s.spec_close_actuator();
            step_closes(a1) + trace_closes(s1, evs) <= 1
        }),
{
    let (s1, a1) = s.spec_close_actuator();
    lemma_trace_close_budget(s1, evs);
}

} // verus!
