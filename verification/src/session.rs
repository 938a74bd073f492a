//! The actuator session: a state machine over an at-most-one open handle,
//! with lazy discovery, a single built-in retry for failed actuations, and
//! fatal treatment of a failed close.
//!
//! Every call into the operating system — registry enumeration, handle
//! creation, open, actuate, close — is performed by the host.  The session
//! tells the host what to do next (an [`Action`]), the host answers with
//! what happened (an [`Event`]), and [`MultitouchActuator::step`] decides
//! how to go on.  All decisions — candidate selection, status checks, the
//! retry budget of one — are made here and verified; the host only moves
//! values across the system-call boundary.

use vstd::prelude::*;

use crate::discovery::{Candidate, spec_selection, select_device};

verus! {

/// The status value with which every actuation-service call reports
/// success; every other value is a failure indicator.
pub const STATUS_SUCCESS: i32 = 0;

/// An actuation command: a pattern identifier and three opaque tuning
/// parameters.  The two fractional tuning parameters travel as raw 32-bit
/// patterns; the session never interprets any of the three.
#[derive(Clone, Copy, Debug, PartialEq, Eq, Structural)]
pub struct ActuationRequest {
    /// The haptic pattern to play.
    pub actuation_id: u32,
    /// First opaque tuning parameter, a 32-bit bit field.
    pub unknown1: u32,
    /// Second opaque tuning parameter, the bit pattern of a 32-bit float.
    pub unknown2_bits: u32,
    /// Third opaque tuning parameter, the bit pattern of a 32-bit float.
    pub unknown3_bits: u32,
}

impl ActuationRequest {
    /// An actuation request with all three tuning parameters given.
    pub fn new(
        actuation_id: u32,
        unknown1: u32,
        unknown2_bits: u32,
        unknown3_bits: u32,
    ) -> (r: ActuationRequest)
        ensures
            r == (ActuationRequest { actuation_id, unknown1, unknown2_bits, unknown3_bits }),
    {
        ActuationRequest { actuation_id, unknown1, unknown2_bits, unknown3_bits }
    }

    /// The common case: a pattern identifier alone, every tuning
    /// parameter zero.
    pub fn from_pattern(actuation_id: u32) -> (r: ActuationRequest)
        ensures
            r == (ActuationRequest {
                actuation_id,
                unknown1: 0,
                unknown2_bits: 0,
                unknown3_bits: 0,
            }),
    {
        ActuationRequest { actuation_id, unknown1: 0, unknown2_bits: 0, unknown3_bits: 0 }
    }
}

/// Why device discovery failed.
#[derive(Clone, Copy, Debug, PartialEq, Eq, Structural)]
pub enum DiscoveryError {
    /// The registry knows no device class of the well-known name.
    ClassNotFound,
    /// The query for matching devices itself failed.
    QueryFailed,
    /// Every enumerated candidate was rejected (or none was enumerated).
    NoEligibleCandidate,
    /// The actuation service returned a null reference for the selected
    /// device identifier.
    HandleCreation,
}

/// Every error the session can report.
#[derive(Clone, Copy, Debug, PartialEq, Eq, Structural)]
pub enum ActuatorError {
    /// Discovery failed; recoverable by trying again later.
    Discovery(DiscoveryError),
    /// The open call on a freshly created handle failed; recoverable.
    Open { status: i32 },
    /// An actuation failed even after the built-in retry; carries the
    /// handle, the request and the second status code.
    Actuation { handle: u64, request: ActuationRequest, status: i32 },
    /// A close call failed: the device is in an indeterminate state and
    /// the session is unusable from here on.
    Close { status: i32 },
    /// An operation was asked of a session whose earlier close failed.
    Poisoned,
}

/// What the session asks the host to do next.
#[derive(Clone, Copy, Debug, PartialEq, Eq, Structural)]
pub enum Action {
    /// Query the registry for all devices of the well-known class and
    /// answer with their property sets.
    Enumerate,
    /// Ask the actuation service for a handle to this device identifier.
    Create { device_id: u64 },
    /// Open the created handle.
    Open { handle: u64 },
    /// Issue the actuation on the open handle.
    Actuate { handle: u64, request: ActuationRequest },
    /// Close the handle.
    Close { handle: u64, reason: CloseReason },
}

/// Why a close was asked for; a close after a failed actuation is the
/// point at which the host emits its diagnostic.
#[derive(Clone, Copy, Debug, PartialEq, Eq, Structural)]
pub enum CloseReason {
    /// The caller is done with the session.
    Teardown,
    /// A first actuation attempt failed with this status; the handle is
    /// recycled before the retry.
    FailedActuation { status: i32 },
}

/// What the host answers once it has performed the asked-for action.
#[derive(Clone, Debug, PartialEq, Eq)]
pub enum Event {
    /// The registry knows no device class of the well-known name.
    ClassNotFound,
    /// The query for matching devices failed.
    QueryFailed,
    /// The enumerated devices, in enumeration order.
    Enumerated(Vec<Candidate>),
    /// The created handle, or `None` when the service returned null.
    Created(Option<u64>),
    /// The status of the open call.
    OpenStatus(i32),
    /// The status of the actuate call.
    ActuateStatus(i32),
    /// The status of the close call.
    CloseStatus(i32),
}

/// The successful outcome of one session operation.
#[derive(Clone, Copy, Debug, PartialEq, Eq, Structural)]
pub enum Completion {
    /// The session is open; the value is the open handle.
    Opened { handle: u64 },
    /// The actuation was issued and reported success.
    Actuated,
    /// The session holds no handle.
    Closed,
}

/// One turn of the session: either an action the host must perform before
/// calling [`MultitouchActuator::step`] with its outcome, or the finished
/// operation's result.
#[derive(Clone, Copy, Debug, PartialEq, Eq)]
pub enum Step {
    /// Perform this action and answer with the matching event.
    Perform(Action),
    /// The operation is finished.
    Done(Result<Completion, ActuatorError>),
}

/// Which attempt of an actuate operation is in flight.
#[derive(Clone, Copy, Debug, PartialEq, Eq, Structural)]
pub enum Attempt {
    /// The first attempt; a failure buys one recycle-and-retry.
    First,
    /// The retry; a failure is final.
    Second,
}

/// What to do once an in-flight open has succeeded.
#[derive(Clone, Copy, Debug, PartialEq, Eq, Structural)]
pub enum AfterOpen {
    /// Hand the fresh handle to the caller.
    Deliver,
    /// Go on to issue this actuation attempt.
    Actuate { request: ActuationRequest, attempt: Attempt },
}

/// The held handle, or why none is held.
#[derive(Clone, Copy, Debug, PartialEq, Eq, Structural)]
pub enum Resource {
    /// No handle is held.
    Closed,
    /// This handle was opened and not yet closed.
    Open { handle: u64 },
    /// A close failed; the device state is indeterminate and the session
    /// refuses all further operations.
    Poisoned,
}

/// Where the session stands between two turns.
#[derive(Clone, Copy, Debug, PartialEq, Eq, Structural)]
pub enum Phase {
    /// No operation is in flight.
    Idle,
    /// Waiting for the registry enumeration.
    Discovering { then: AfterOpen },
    /// Waiting for the handle to this device identifier.
    Creating { device_id: u64, then: AfterOpen },
    /// Waiting for the status of the open call on this handle.
    Opening { handle: u64, then: AfterOpen },
    /// Waiting for the status of an actuation attempt.
    Actuating { request: ActuationRequest, attempt: Attempt },
    /// Waiting for the status of the close that recycles the handle after
    /// a failed first attempt.
    RetryClosing { request: ActuationRequest },
    /// Waiting for the status of the caller's close.
    Closing,
}

/// A session with the haptic actuator.  It owns at most one open handle,
/// discovers it lazily, caches it across calls, and recycles it once when
/// an actuation fails.
#[derive(Debug, PartialEq, Eq, Structural)]
pub struct MultitouchActuator {
    /// The held handle, if any.
    pub resource: Resource,
    /// The in-flight operation, if any.
    pub phase: Phase,
}

impl MultitouchActuator {
    /// The session's well-formedness: a handle is held exactly while one
    /// of the phases that works on an open handle is in flight, and never
    /// while discovery runs.
    pub open spec fn inv(self) -> bool {
        match self.phase {
            Phase::Idle => true,
            Phase::Discovering { .. } => self.resource is Closed,
            Phase::Creating { .. } => self.resource is Closed,
            Phase::Opening { .. } => self.resource is Closed,
            Phase::Actuating { .. } => self.resource is Open,
            Phase::RetryClosing { .. } => self.resource is Open,
            Phase::Closing => self.resource is Open,
        }
    }

    /// True when no operation is in flight: a new operation may start.
    pub open spec fn idle(self) -> bool {
        self.phase is Idle
    }

    /// True when `e` is the kind of event the in-flight operation waits
    /// for.
    pub open spec fn awaits(self, e: Event) -> bool {
        match self.phase {
            Phase::Idle => false,
            Phase::Discovering { .. } => e is ClassNotFound || e is QueryFailed
                || e is Enumerated,
            Phase::Creating { .. } => e is Created,
            Phase::Opening { .. } => e is OpenStatus,
            Phase::Actuating { .. } => e is ActuateStatus,
            Phase::RetryClosing { .. } => e is CloseStatus,
            Phase::Closing => e is CloseStatus,
        }
    }

    /// The phase and turn that follow a successful open, by what the open
    /// was for: deliver the handle, or issue the pending actuation
    /// attempt.
    pub open spec fn spec_after_open(handle: u64, then: AfterOpen) -> (Phase, Step) {
        match then {
            AfterOpen::Deliver => (
                Phase::Idle,
                Step::Done(Ok(Completion::Opened { handle })),
            ),
            AfterOpen::Actuate { request, attempt } => (
                Phase::Actuating { request, attempt },
                Step::Perform(Action::Actuate { handle, request }),
            ),
        }
    }

    /// What starting `open_actuator` does: return the cached handle while
    /// one is held, refuse a poisoned session, and otherwise begin
    /// discovery.
    pub open spec fn spec_open_actuator(self) -> (MultitouchActuator, Step) {
        match self.resource {
            Resource::Open { handle } => (
                self,
                Step::Done(Ok(Completion::Opened { handle })),
            ),
            Resource::Poisoned => (self, Step::Done(Err(ActuatorError::Poisoned))),
            Resource::Closed => (
                MultitouchActuator {
                    resource: Resource::Closed,
                    phase: Phase::Discovering { then: AfterOpen::Deliver },
                },
                Step::Perform(Action::Enumerate),
            ),
        }
    }

    /// What starting `actuate` does: issue the first attempt on the
    /// cached handle, refuse a poisoned session, and otherwise begin
    /// discovery with the first attempt pending.
    pub open spec fn spec_actuate(self, request: ActuationRequest) -> (MultitouchActuator, Step) {
        match self.resource {
            Resource::Open { handle } => (
                MultitouchActuator {
                    resource: self.resource,
                    phase: Phase::Actuating { request, attempt: Attempt::First },
                },
                Step::Perform(Action::Actuate { handle, request }),
            ),
            Resource::Poisoned => (self, Step::Done(Err(ActuatorError::Poisoned))),
            Resource::Closed => (
                MultitouchActuator {
                    resource: Resource::Closed,
                    phase: Phase::Discovering {
                        then: AfterOpen::Actuate { request, attempt: Attempt::First },
                    },
                },
                Step::Perform(Action::Enumerate),
            ),
        }
    }

    /// What starting `close_actuator` does: succeed at once while no
    /// handle is held, refuse a poisoned session, and otherwise ask for
    /// the close.
    pub open spec fn spec_close_actuator(self) -> (MultitouchActuator, Step) {
        match self.resource {
            Resource::Closed => (self, Step::Done(Ok(Completion::Closed))),
            Resource::Poisoned => (self, Step::Done(Err(ActuatorError::Poisoned))),
            Resource::Open { handle } => (
                MultitouchActuator { resource: self.resource, phase: Phase::Closing },
                Step::Perform(Action::Close { handle, reason: CloseReason::Teardown }),
            ),
        }
    }

    /// The transition relation of the session: how each awaited event
    /// advances the in-flight operation.  The final arm is never reached
    /// by a caller that honours [`MultitouchActuator::awaits`]; it makes
    /// the relation total without moving the session.
    pub open spec fn spec_step(self, e: Event) -> (MultitouchActuator, Step) {
        match (self.resource, self.phase, e) {
            (r, Phase::Discovering { .. }, Event::ClassNotFound) => (
                MultitouchActuator { resource: r, phase: Phase::Idle },
                Step::Done(Err(ActuatorError::Discovery(DiscoveryError::ClassNotFound))),
            ),
            (r, Phase::Discovering { .. }, Event::QueryFailed) => (
                MultitouchActuator { resource: r, phase: Phase::Idle },
                Step::Done(Err(ActuatorError::Discovery(DiscoveryError::QueryFailed))),
            ),
            (r, Phase::Discovering { then }, Event::Enumerated(cands)) => match spec_selection(
                cands@,
            ) {
                None => (
                    MultitouchActuator { resource: r, phase: Phase::Idle },
                    Step::Done(
                        Err(ActuatorError::Discovery(DiscoveryError::NoEligibleCandidate)),
                    ),
                ),
                Some(sel) => (
                    MultitouchActuator {
                        resource: r,
                        phase: Phase::Creating { device_id: sel.device_id, then },
                    },
                    Step::Perform(Action::Create { device_id: sel.device_id }),
                ),
            },
            (r, Phase::Creating { .. }, Event::Created(None)) => (
                MultitouchActuator { resource: r, phase: Phase::Idle },
                Step::Done(Err(ActuatorError::Discovery(DiscoveryError::HandleCreation))),
            ),
            (r, Phase::Creating { then, .. }, Event::Created(Some(handle))) => (
                MultitouchActuator { resource: r, phase: Phase::Opening { handle, then } },
                Step::Perform(Action::Open { handle }),
            ),
            (r, Phase::Opening { handle, then }, Event::OpenStatus(status)) => if status
                == STATUS_SUCCESS {
                let (phase, step) = Self::spec_after_open(handle, then);
                (MultitouchActuator { resource: Resource::Open { handle }, phase }, step)
            } else {
                (
                    MultitouchActuator { resource: r, phase: Phase::Idle },
                    Step::Done(Err(ActuatorError::Open { status })),
                )
            },
            (
                Resource::Open { handle },
                Phase::Actuating { request, attempt },
                Event::ActuateStatus(status),
            ) => if status == STATUS_SUCCESS {
                (
                    MultitouchActuator {
                        resource: Resource::Open { handle },
                        phase: Phase::Idle,
                    },
                    Step::Done(Ok(Completion::Actuated)),
                )
            } else {
                match attempt {
                    Attempt::First => (
                        MultitouchActuator {
                            resource: Resource::Open { handle },
                            phase: Phase::RetryClosing { request },
                        },
                        Step::Perform(
                            Action::Close {
                                handle,
                                reason: CloseReason::FailedActuation { status },
                            },
                        ),
                    ),
                    Attempt::Second => (
                        MultitouchActuator {
                            resource: Resource::Open { handle },
                            phase: Phase::Idle,
                        },
                        Step::Done(Err(ActuatorError::Actuation { handle, request, status })),
                    ),
                }
            },
            (
                Resource::Open { .. },
                Phase::RetryClosing { request },
                Event::CloseStatus(status),
            ) => if status == STATUS_SUCCESS {
                (
                    MultitouchActuator {
                        resource: Resource::Closed,
                        phase: Phase::Discovering {
                            then: AfterOpen::Actuate { request, attempt: Attempt::Second },
                        },
                    },
                    Step::Perform(Action::Enumerate),
                )
            } else {
                (
                    MultitouchActuator { resource: Resource::Poisoned, phase: Phase::Idle },
                    Step::Done(Err(ActuatorError::Close { status })),
                )
            },
            (Resource::Open { .. }, Phase::Closing, Event::CloseStatus(status)) => if status
                == STATUS_SUCCESS {
                (
                    MultitouchActuator { resource: Resource::Closed, phase: Phase::Idle },
                    Step::Done(Ok(Completion::Closed)),
                )
            } else {
                (
                    MultitouchActuator { resource: Resource::Poisoned, phase: Phase::Idle },
                    Step::Done(Err(ActuatorError::Close { status })),
                )
            },
            _ => (self, Step::Done(Err(ActuatorError::Poisoned))),
        }
    }

    /// A fresh session: no handle held, nothing in flight.
    pub fn new() -> (s: MultitouchActuator)
        ensures
            s == (MultitouchActuator { resource: Resource::Closed, phase: Phase::Idle }),
    {
        MultitouchActuator { resource: Resource::Closed, phase: Phase::Idle }
    }

    /// Adopt a handle that is already open: the session takes ownership
    /// of it and will hand it out and close it as if it had discovered it.
    pub fn from_actuator_ref(actuator_ref: u64) -> (s: MultitouchActuator)
        ensures
            s == (MultitouchActuator {
                resource: Resource::Open { handle: actuator_ref },
                phase: Phase::Idle,
            }),
    {
        MultitouchActuator { resource: Resource::Open { handle: actuator_ref }, phase: Phase::Idle }
    }

    /// True when the session holds an open handle.
    pub fn is_open(&self) -> (r: bool)
        ensures
            r == (self.resource is Open),
    {
        matches!(self.resource, Resource::Open { .. })
    }

    /// Start an `open_actuator` operation.  While a handle is cached this
    /// finishes at once with that handle and changes nothing; otherwise it
    /// begins discovery.
    pub fn open_actuator(&mut self) -> (r: Step)
        requires
            old(self).inv(),
            old(self).idle(),
        ensures
            (*final(self), r) == old(self).spec_open_actuator(),
            final(self).inv(),
    {
        match self.resource {
            Resource::Open { handle } => Step::Done(Ok(Completion::Opened { handle })),
            Resource::Poisoned => Step::Done(Err(ActuatorError::Poisoned)),
            Resource::Closed => {
                self.phase = Phase::Discovering { then: AfterOpen::Deliver };
                Step::Perform(Action::Enumerate)
            },
        }
    }

    /// Start an `actuate` operation for `request`: ensure a handle (by
    /// discovery if none is cached), issue the actuation, and on failure
    /// recycle the handle and retry exactly once.
    pub fn actuate(&mut self, request: ActuationRequest) -> (r: Step)
        requires
            old(self).inv(),
            old(self).idle(),
        ensures
            (*final(self), r) == old(self).spec_actuate(request),
            final(self).inv(),
    {
        match self.resource {
            Resource::Open { handle } => {
                self.phase = Phase::Actuating { request, attempt: Attempt::First };
                Step::Perform(Action::Actuate { handle, request })
            },
            Resource::Poisoned => Step::Done(Err(ActuatorError::Poisoned)),
            Resource::Closed => {
                self.phase = Phase::Discovering {
                    then: AfterOpen::Actuate { request, attempt: Attempt::First },
                };
                Step::Perform(Action::Enumerate)
            },
        }
    }

    /// Start an `actuate` operation with all four parameters given
    /// severally; the fractional tuning parameters as raw bit patterns.
    pub fn actuate_actuation_id_raw(
        &mut self,
        actuation_id: u32,
        unknown1: u32,
        unknown2_bits: u32,
        unknown3_bits: u32,
    ) -> (r: Step)
        requires
            old(self).inv(),
            old(self).idle(),
        ensures
            (*final(self), r) == old(self).spec_actuate(
                ActuationRequest { actuation_id, unknown1, unknown2_bits, unknown3_bits },
            ),
            final(self).inv(),
    {
        self.actuate(ActuationRequest { actuation_id, unknown1, unknown2_bits, unknown3_bits })
    }

    /// Start an `actuate` operation by pattern identifier alone, all
    /// tuning parameters zero.
    pub fn actuate_actuation_id(&mut self, actuation_id: u32) -> (r: Step)
        requires
            old(self).inv(),
            old(self).idle(),
        ensures
            (*final(self), r) == old(self).spec_actuate(
                ActuationRequest { actuation_id, unknown1: 0, unknown2_bits: 0, unknown3_bits: 0 },
            ),
            final(self).inv(),
    {
        self.actuate(ActuationRequest::from_pattern(actuation_id))
    }

    /// Start a `close_actuator` operation.  While no handle is held this
    /// is a no-op success; a held handle is handed to the host for the
    /// close call, and a failed close poisons the session.
    pub fn close_actuator(&mut self) -> (r: Step)
        requires
            old(self).inv(),
            old(self).idle(),
        ensures
            (*final(self), r) == old(self).spec_close_actuator(),
            final(self).inv(),
    {
        match self.resource {
            Resource::Closed => Step::Done(Ok(Completion::Closed)),
            Resource::Poisoned => Step::Done(Err(ActuatorError::Poisoned)),
            Resource::Open { handle } => {
                self.phase = Phase::Closing;
                Step::Perform(Action::Close { handle, reason: CloseReason::Teardown })
            },
        }
    }

    /// Advance the in-flight operation with the outcome of the last
    /// asked-for action.
    pub fn step(&mut self, event: Event) -> (r: Step)
        requires
            old(self).inv(),
            old(self).awaits(event),
        ensures
            (*final(self), r) == old(self).spec_step(event),
            final(self).inv(),
    {
        let phase = self.phase;
        match (phase, event) {
            (Phase::Discovering { .. }, Event::ClassNotFound) => {
                self.phase = Phase::Idle;
                Step::Done(Err(ActuatorError::Discovery(DiscoveryError::ClassNotFound)))
            },
            (Phase::Discovering { .. }, Event::QueryFailed) => {
                self.phase = Phase::Idle;
                Step::Done(Err(ActuatorError::Discovery(DiscoveryError::QueryFailed)))
            },
            (Phase::Discovering { then }, Event::Enumerated(cands)) => {
                match select_device(&cands) {
                    None => {
                        self.phase = Phase::Idle;
                        Step::Done(
                            Err(ActuatorError::Discovery(DiscoveryError::NoEligibleCandidate)),
                        )
                    },
                    Some(sel) => {
                        self.phase = Phase::Creating { device_id: sel.device_id, then };
                        Step::Perform(Action::Create { device_id: sel.device_id })
                    },
                }
            },
            (Phase::Creating { .. }, Event::Created(None)) => {
                self.phase = Phase::Idle;
                Step::Done(Err(ActuatorError::Discovery(DiscoveryError::HandleCreation)))
            },
            (Phase::Creating { then, .. }, Event::Created(Some(handle))) => {
                self.phase = Phase::Opening { handle, then };
                Step::Perform(Action::Open { handle })
            },
            (Phase::Opening { handle, then }, Event::OpenStatus(status)) => {
                if status == STATUS_SUCCESS {
                    self.resource = Resource::Open { handle };
                    match then {
                        AfterOpen::Deliver => {
                            self.phase = Phase::Idle;
                            Step::Done(Ok(Completion::Opened { handle }))
                        },
                        AfterOpen::Actuate { request, attempt } => {
                            self.phase = Phase::Actuating { request, attempt };
                            Step::Perform(Action::Actuate { handle, request })
                        },
                    }
                } else {
                    self.phase = Phase::Idle;
                    Step::Done(Err(ActuatorError::Open { status }))
                }
            },
            (Phase::Actuating { request, attempt }, Event::ActuateStatus(status)) => {
                let handle = match self.resource {
                    Resource::Open { handle } => handle,
                    _ => {
                        return Step::Done(Err(ActuatorError::Poisoned));
                    },
                };
                if status == STATUS_SUCCESS {
                    self.phase = Phase::Idle;
                    Step::Done(Ok(Completion::Actuated))
                } else {
                    match attempt {
                        Attempt::First => {
                            self.phase = Phase::RetryClosing { request };
                            Step::Perform(
                                Action::Close {
                                    handle,
                                    reason: CloseReason::FailedActuation { status },
                                },
                            )
                        },
                        Attempt::Second => {
                            self.phase = Phase::Idle;
                            Step::Done(
                                Err(ActuatorError::Actuation { handle, request, status }),
                            )
                        },
                    }
                }
            },
            (Phase::RetryClosing { request }, Event::CloseStatus(status)) => {
                if status == STATUS_SUCCESS {
                    self.resource = Resource::Closed;
                    self.phase = Phase::Discovering {
                        then: AfterOpen::Actuate { request, attempt: Attempt::Second },
                    };
                    Step::Perform(Action::Enumerate)
                } else {
                    self.resource = Resource::Poisoned;
                    self.phase = Phase::Idle;
                    Step::Done(Err(ActuatorError::Close { status }))
                }
            },
            (Phase::Closing, Event::CloseStatus(status)) => {
                if status == STATUS_SUCCESS {
                    self.resource = Resource::Closed;
                    self.phase = Phase::Idle;
                    Step::Done(Ok(Completion::Closed))
                } else {
                    self.resource = Resource::Poisoned;
                    self.phase = Phase::Idle;
                    Step::Done(Err(ActuatorError::Close { status }))
                }
            },
            _ => Step::Done(Err(ActuatorError::Poisoned)),
        }
    }
}

impl Default for MultitouchActuator {
    /// Same as [`MultitouchActuator::new`]: a fresh, closed session.
    fn default() -> (s: MultitouchActuator)
        ensures
            s == (MultitouchActuator { resource: Resource::Closed, phase: Phase::Idle }),
    {
        MultitouchActuator::new()
    }
}

} // verus!
