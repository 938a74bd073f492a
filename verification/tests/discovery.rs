use haptic_actuator::discovery::{
    select_device, Candidate, DeviceDescriptor, Property, Selected, Variant,
};

fn full_descriptor(id: &str) -> DeviceDescriptor {
    DeviceDescriptor {
        product: Property::Value(Variant::Text("Trackpad".to_string())),
        actuation_supported: Property::Value(Variant::Flag(true)),
        built_in: Property::Value(Variant::Flag(true)),
        multitouch_id: Property::Value(Variant::Text(id.to_string())),
    }
}

fn eligible_candidate(id: &str) -> Candidate {
    Candidate::Readable(full_descriptor(id))
}

#[test]
fn selects_first_of_two_eligible() {
    let cands = vec![eligible_candidate("11"), eligible_candidate("22")];
    assert_eq!(
        select_device(&cands),
        Some(Selected { index: 0, device_id: 11 })
    );
}

#[test]
fn two_candidates_first_lacks_actuation_support() {
    let mut first = full_descriptor("99");
    first.actuation_supported = Property::Missing;
    let cands = vec![Candidate::Readable(first), eligible_candidate("12345")];
    assert_eq!(
        select_device(&cands),
        Some(Selected { index: 1, device_id: 12345 })
    );
}

#[test]
fn skips_unreadable_candidate() {
    let cands = vec![Candidate::Unreadable, eligible_candidate("5")];
    assert_eq!(
        select_device(&cands),
        Some(Selected { index: 1, device_id: 5 })
    );
}

#[test]
fn skips_null_required_property() {
    let mut first = full_descriptor("1");
    first.product = Property::Null;
    let cands = vec![Candidate::Readable(first), eligible_candidate("2")];
    assert_eq!(
        select_device(&cands),
        Some(Selected { index: 1, device_id: 2 })
    );
}

#[test]
fn skips_missing_identifier() {
    let mut first = full_descriptor("1");
    first.multitouch_id = Property::Missing;
    let cands = vec![Candidate::Readable(first), eligible_candidate("2")];
    assert_eq!(
        select_device(&cands),
        Some(Selected { index: 1, device_id: 2 })
    );
}

#[test]
fn skips_null_identifier() {
    let mut first = full_descriptor("1");
    first.multitouch_id = Property::Null;
    let cands = vec![Candidate::Readable(first)];
    assert_eq!(select_device(&cands), None);
}

#[test]
fn skips_unparsable_identifier() {
    let cands = vec![eligible_candidate("not-a-number"), eligible_candidate("77")];
    assert_eq!(
        select_device(&cands),
        Some(Selected { index: 1, device_id: 77 })
    );
}

#[test]
fn accepts_numeric_identifier_value() {
    let mut d = full_descriptor("0");
    d.multitouch_id = Property::Value(Variant::Number(4242));
    let cands = vec![Candidate::Readable(d)];
    assert_eq!(
        select_device(&cands),
        Some(Selected { index: 0, device_id: 4242 })
    );
}

#[test]
fn rejects_flag_or_unknown_identifier_value() {
    let mut by_flag = full_descriptor("0");
    by_flag.multitouch_id = Property::Value(Variant::Flag(true));
    let mut by_unknown = full_descriptor("0");
    by_unknown.multitouch_id = Property::Value(Variant::Unknown);
    let cands = vec![Candidate::Readable(by_flag), Candidate::Readable(by_unknown)];
    assert_eq!(select_device(&cands), None);
}

#[test]
fn no_candidates_means_no_selection() {
    assert_eq!(select_device(&Vec::new()), None);
}

#[test]
fn later_eligible_candidate_never_preempts_earlier() {
    let cands = vec![
        Candidate::Unreadable,
        eligible_candidate("8"),
        eligible_candidate("9"),
    ];
    assert_eq!(
        select_device(&cands),
        Some(Selected { index: 1, device_id: 8 })
    );
}
