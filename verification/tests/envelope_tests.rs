use farm_core::envelope::{classify, read_reply, str_eq, Envelope, TransportOutcome};

#[test]
fn transport_failure_becomes_999_with_message() {
    let e = classify(TransportOutcome::Failure("connection reset".to_string()));
    assert_eq!(e.code, "999");
    assert_eq!(e.message, "connection reset");
    assert!(e.body.is_none());
    assert!(!e.succeeded());
}

#[test]
fn unparsable_payload_becomes_999() {
    let e = classify(TransportOutcome::Payload("<html>not json</html>".to_string()));
    assert_eq!(e.code, "999");
    assert!(e.body.is_none());
    assert!(!e.succeeded());
}

#[test]
fn payload_without_code_becomes_888() {
    let e = classify(TransportOutcome::Payload("{\"data\": 5}".to_string()));
    assert_eq!(e.code, "888");
    assert!(e.body.is_some());
    assert!(!e.succeeded());
}

#[test]
fn payload_with_non_string_code_becomes_888() {
    let e = classify(TransportOutcome::Payload("{\"code\": 0}".to_string()));
    assert_eq!(e.code, "888");
    assert!(!e.succeeded());
}

#[test]
fn payload_code_returned_verbatim() {
    let e = classify(TransportOutcome::Payload("{\"code\": \"3\"}".to_string()));
    assert_eq!(e.code, "3");
    assert!(!e.succeeded());
    let ok = classify(TransportOutcome::Payload("{\"code\": \"0\"}".to_string()));
    assert_eq!(ok.code, "0");
    assert!(ok.succeeded());
}

#[test]
fn every_outcome_classifies_to_an_envelope_code() {
    // The gateway law: whatever the transport and the payload did, the
    // caller can always branch on a code.
    let cases = vec![
        TransportOutcome::Failure("timeout".to_string()),
        TransportOutcome::Payload("".to_string()),
        TransportOutcome::Payload("[1, 2]".to_string()),
        TransportOutcome::Payload("{\"code\": \"10\"}".to_string()),
        TransportOutcome::Payload("{\"other\": true}".to_string()),
    ];
    for c in cases {
        let e = classify(c);
        assert!(!e.code.is_empty());
    }
}

#[test]
fn read_reply_extracts_fields_with_zero_fallback() {
    let text = "{\"code\":\"0\",\"amount\":7,\"addEnergy\":11,\"totalEnergy\":250,\
                \"todayGotWaterGoalTask\":{\"canPop\":true},\"title\":\"well done\"}";
    let e = classify(TransportOutcome::Payload(text.to_string()));
    let r = read_reply(&e);
    assert!(r.success);
    assert_eq!(r.amount, 7);
    assert_eq!(r.add_energy, 11);
    assert_eq!(r.total_energy, 250);
    assert_eq!(r.total_water_task_energy, 0);
    assert_eq!(r.water_gram, 0);
    assert_eq!(r.add_water, 0);
    assert!(r.can_pop);
    assert_eq!(r.title, "well done");
}

#[test]
fn read_reply_on_failure_envelope_is_all_defaults() {
    let e = classify(TransportOutcome::Failure("down".to_string()));
    let r = read_reply(&e);
    assert!(!r.success);
    assert_eq!(r.code, "999");
    assert_eq!(r.amount, 0);
    assert!(!r.can_pop);
    assert_eq!(r.title, "");
}

#[test]
fn str_eq_compares_by_contents() {
    assert!(str_eq(&"0".to_string(), "0"));
    assert!(!str_eq(&"00".to_string(), "0"));
    assert!(!str_eq(&"1".to_string(), "0"));
}

#[test]
fn envelope_can_be_built_directly() {
    let e = Envelope { code: "42".to_string(), message: String::new(), body: None };
    assert!(!e.succeeded());
}
