use haptic_actuator::discovery::{Candidate, DeviceDescriptor, Property, Variant};
use haptic_actuator::session::{
    Action, ActuationRequest, ActuatorError, CloseReason, Completion, DiscoveryError, Event,
    MultitouchActuator, Phase, Resource, Step, STATUS_SUCCESS,
};

fn candidate(id: &str) -> Candidate {
    Candidate::Readable(DeviceDescriptor {
        product: Property::Value(Variant::Text("Trackpad".to_string())),
        actuation_supported: Property::Value(Variant::Flag(true)),
        built_in: Property::Value(Variant::Flag(true)),
        multitouch_id: Property::Value(Variant::Text(id.to_string())),
    })
}

/// Drive the session with a scripted list of answers, recording every
/// action it asks for, until the operation completes.
fn drive(
    session: &mut MultitouchActuator,
    first: Step,
    mut answers: Vec<Event>,
) -> (Result<Completion, ActuatorError>, Vec<Action>) {
    let mut actions = Vec::new();
    let mut step = first;
    loop {
        match step {
            Step::Done(result) => {
                assert!(answers.is_empty(), "script had unused answers");
                return (result, actions);
            }
            Step::Perform(action) => {
                actions.push(action);
                assert!(!answers.is_empty(), "script ran out of answers");
                step = session.step(answers.remove(0));
            }
        }
    }
}

fn count_actuations(actions: &[Action]) -> usize {
    actions
        .iter()
        .filter(|a| matches!(a, Action::Actuate { .. }))
        .count()
}

fn count_failure_diagnostics(actions: &[Action]) -> usize {
    actions
        .iter()
        .filter(|a| {
            matches!(
                a,
                Action::Close { reason: CloseReason::FailedActuation { .. }, .. }
            )
        })
        .count()
}

#[test]
fn round_trip_leaves_session_closed() {
    let mut s = MultitouchActuator::new();
    let first = s.open_actuator();
    let (opened, _) = drive(
        &mut s,
        first,
        vec![
            Event::Enumerated(vec![candidate("12345")]),
            Event::Created(Some(700)),
            Event::OpenStatus(STATUS_SUCCESS),
        ],
    );
    assert_eq!(opened, Ok(Completion::Opened { handle: 700 }));
    assert!(s.is_open());

    let first = s.actuate_actuation_id(3);
    let (actuated, _) = drive(&mut s, first, vec![Event::ActuateStatus(STATUS_SUCCESS)]);
    assert_eq!(actuated, Ok(Completion::Actuated));

    let first = s.close_actuator();
    let (closed, actions) = drive(&mut s, first, vec![Event::CloseStatus(STATUS_SUCCESS)]);
    assert_eq!(closed, Ok(Completion::Closed));
    assert_eq!(
        actions,
        vec![Action::Close { handle: 700, reason: CloseReason::Teardown }]
    );
    assert!(!s.is_open());
    assert_eq!(s.resource, Resource::Closed);
    assert_eq!(s.phase, Phase::Idle);
}

#[test]
fn open_is_idempotent_while_open() {
    let mut s = MultitouchActuator::from_actuator_ref(41);
    let first = s.open_actuator();
    assert_eq!(first, Step::Done(Ok(Completion::Opened { handle: 41 })));
    let second = s.open_actuator();
    assert_eq!(second, Step::Done(Ok(Completion::Opened { handle: 41 })));
    assert_eq!(s.resource, Resource::Open { handle: 41 });
}

#[test]
fn close_on_closed_session_is_noop() {
    let mut s = MultitouchActuator::new();
    assert_eq!(s.close_actuator(), Step::Done(Ok(Completion::Closed)));
    assert_eq!(s.close_actuator(), Step::Done(Ok(Completion::Closed)));
    assert_eq!(s.resource, Resource::Closed);
}

#[test]
fn second_candidate_selected_and_created() {
    let mut first_descriptor = match candidate("99") {
        Candidate::Readable(d) => d,
        Candidate::Unreadable => unreachable!(),
    };
    first_descriptor.actuation_supported = Property::Missing;
    let mut s = MultitouchActuator::new();
    let first = s.open_actuator();
    let (opened, actions) = drive(
        &mut s,
        first,
        vec![
            Event::Enumerated(vec![Candidate::Readable(first_descriptor), candidate("12345")]),
            Event::Created(Some(9)),
            Event::OpenStatus(STATUS_SUCCESS),
        ],
    );
    assert_eq!(opened, Ok(Completion::Opened { handle: 9 }));
    assert!(actions.contains(&Action::Create { device_id: 12345 }));
}

#[test]
fn failed_actuation_recycles_once_then_succeeds() {
    let mut s = MultitouchActuator::from_actuator_ref(50);
    let first = s.actuate_actuation_id(6);
    let (result, actions) = drive(
        &mut s,
        first,
        vec![
            Event::ActuateStatus(-536870208),
            Event::CloseStatus(STATUS_SUCCESS),
            Event::Enumerated(vec![candidate("12345")]),
            Event::Created(Some(51)),
            Event::OpenStatus(STATUS_SUCCESS),
            Event::ActuateStatus(STATUS_SUCCESS),
        ],
    );
    assert_eq!(result, Ok(Completion::Actuated));
    assert_eq!(count_actuations(&actions), 2);
    assert_eq!(count_failure_diagnostics(&actions), 1);
    assert_eq!(s.resource, Resource::Open { handle: 51 });
}

#[test]
fn two_failures_report_second_status() {
    let mut s = MultitouchActuator::from_actuator_ref(50);
    let first = s.actuate_actuation_id(4);
    let (result, actions) = drive(
        &mut s,
        first,
        vec![
            Event::ActuateStatus(-1),
            Event::CloseStatus(STATUS_SUCCESS),
            Event::Enumerated(vec![candidate("12345")]),
            Event::Created(Some(51)),
            Event::OpenStatus(STATUS_SUCCESS),
            Event::ActuateStatus(-2),
        ],
    );
    assert_eq!(
        result,
        Err(ActuatorError::Actuation {
            handle: 51,
            request: ActuationRequest::from_pattern(4),
            status: -2,
        })
    );
    assert_eq!(count_actuations(&actions), 2);
}

#[test]
fn never_more_than_two_attempts_per_call() {
    let mut s = MultitouchActuator::from_actuator_ref(50);
    let first = s.actuate_actuation_id(4);
    let (result, actions) = drive(
        &mut s,
        first,
        vec![
            Event::ActuateStatus(-1),
            Event::CloseStatus(STATUS_SUCCESS),
            Event::Enumerated(vec![candidate("12345")]),
            Event::Created(Some(51)),
            Event::OpenStatus(STATUS_SUCCESS),
            Event::ActuateStatus(-1),
        ],
    );
    assert!(result.is_err());
    assert_eq!(count_actuations(&actions), 2);
    // The session is idle again: a fresh call may retry, but this call is over.
    assert_eq!(s.phase, Phase::Idle);
}

#[test]
fn open_failure_reports_status_and_stays_closed() {
    let mut s = MultitouchActuator::new();
    let first = s.open_actuator();
    let (result, _) = drive(
        &mut s,
        first,
        vec![
            Event::Enumerated(vec![candidate("1")]),
            Event::Created(Some(2)),
            Event::OpenStatus(-7),
        ],
    );
    assert_eq!(result, Err(ActuatorError::Open { status: -7 }));
    assert!(!s.is_open());
    assert_eq!(s.resource, Resource::Closed);
}

#[test]
fn missing_device_class_reported() {
    let mut s = MultitouchActuator::new();
    let first = s.open_actuator();
    let (result, _) = drive(&mut s, first, vec![Event::ClassNotFound]);
    assert_eq!(
        result,
        Err(ActuatorError::Discovery(DiscoveryError::ClassNotFound))
    );
}

#[test]
fn failed_query_reported() {
    let mut s = MultitouchActuator::new();
    let first = s.open_actuator();
    let (result, _) = drive(&mut s, first, vec![Event::QueryFailed]);
    assert_eq!(
        result,
        Err(ActuatorError::Discovery(DiscoveryError::QueryFailed))
    );
}

#[test]
fn no_eligible_candidate_reported() {
    let mut s = MultitouchActuator::new();
    let first = s.open_actuator();
    let (result, _) = drive(&mut s, first, vec![Event::Enumerated(Vec::new())]);
    assert_eq!(
        result,
        Err(ActuatorError::Discovery(DiscoveryError::NoEligibleCandidate))
    );
}

#[test]
fn null_created_handle_reported() {
    let mut s = MultitouchActuator::new();
    let first = s.open_actuator();
    let (result, _) = drive(
        &mut s,
        first,
        vec![Event::Enumerated(vec![candidate("1")]), Event::Created(None)],
    );
    assert_eq!(
        result,
        Err(ActuatorError::Discovery(DiscoveryError::HandleCreation))
    );
}

#[test]
fn failed_close_poisons_session() {
    let mut s = MultitouchActuator::from_actuator_ref(8);
    let first = s.close_actuator();
    let (result, _) = drive(&mut s, first, vec![Event::CloseStatus(-3)]);
    assert_eq!(result, Err(ActuatorError::Close { status: -3 }));
    assert_eq!(s.resource, Resource::Poisoned);
    assert_eq!(s.open_actuator(), Step::Done(Err(ActuatorError::Poisoned)));
    assert_eq!(
        s.actuate_actuation_id(1),
        Step::Done(Err(ActuatorError::Poisoned))
    );
    assert_eq!(s.close_actuator(), Step::Done(Err(ActuatorError::Poisoned)));
}

#[test]
fn failed_close_during_retry_aborts_actuate() {
    let mut s = MultitouchActuator::from_actuator_ref(8);
    let first = s.actuate_actuation_id(1);
    let (result, actions) = drive(
        &mut s,
        first,
        vec![Event::ActuateStatus(-1), Event::CloseStatus(-9)],
    );
    assert_eq!(result, Err(ActuatorError::Close { status: -9 }));
    assert_eq!(count_actuations(&actions), 1);
    assert_eq!(s.resource, Resource::Poisoned);
}

#[test]
fn pattern_only_call_zeroes_tuning_parameters() {
    let mut s = MultitouchActuator::from_actuator_ref(5);
    let first = s.actuate_actuation_id(3);
    assert_eq!(
        first,
        Step::Perform(Action::Actuate {
            handle: 5,
            request: ActuationRequest {
                actuation_id: 3,
                unknown1: 0,
                unknown2_bits: 0,
                unknown3_bits: 0,
            },
        })
    );
}

#[test]
fn raw_call_passes_all_parameters_through() {
    let mut s = MultitouchActuator::from_actuator_ref(5);
    let first = s.actuate_actuation_id_raw(6, 0x80000000, 0.5f32.to_bits(), 1.25f32.to_bits());
    assert_eq!(
        first,
        Step::Perform(Action::Actuate {
            handle: 5,
            request: ActuationRequest {
                actuation_id: 6,
                unknown1: 0x80000000,
                unknown2_bits: 0.5f32.to_bits(),
                unknown3_bits: 1.25f32.to_bits(),
            },
        })
    );
}

#[test]
fn explicit_request_is_passed_unchanged() {
    let request = ActuationRequest::new(15, 7, 9, 11);
    let mut s = MultitouchActuator::from_actuator_ref(5);
    let first = s.actuate(request);
    assert_eq!(first, Step::Perform(Action::Actuate { handle: 5, request }));
    let (result, _) = drive(&mut s, first, vec![Event::ActuateStatus(STATUS_SUCCESS)]);
    assert_eq!(result, Ok(Completion::Actuated));
}

#[test]
fn default_is_a_fresh_session() {
    let d = MultitouchActuator::default();
    assert_eq!(d, MultitouchActuator::new());
    assert_eq!(d.resource, Resource::Closed);
}

#[test]
fn adopted_handle_is_closed_like_a_discovered_one() {
    let mut s = MultitouchActuator::from_actuator_ref(13);
    let first = s.close_actuator();
    let (result, actions) = drive(&mut s, first, vec![Event::CloseStatus(STATUS_SUCCESS)]);
    assert_eq!(result, Ok(Completion::Closed));
    assert_eq!(
        actions,
        vec![Action::Close { handle: 13, reason: CloseReason::Teardown }]
    );
}
