use rpmostree_client::decode::{decode, status_to_doc, Deployment, Status};
use rpmostree_client::invoke::{run_attempts, Attempt, Invoker, RunOutput, Step};
use rpmostree_client::json::{Doc, Record, Scalar, TopValue};
use rpmostree_client::{query_status, Error, QueryFailure};

fn scalar_value(s: &Scalar) -> serde_json::Value {
    match s {
        Scalar::Null => serde_json::Value::Null,
        Scalar::Bool(b) => serde_json::Value::Bool(*b),
        Scalar::UInt(u) => serde_json::Value::Number(serde_json::Number::from(*u)),
        Scalar::Str(t) => serde_json::Value::String(t.clone()),
        Scalar::Other => serde_json::Value::Null,
    }
}

fn record_value(r: &Record) -> serde_json::Value {
    match r {
        Record::Obj(fields) => {
            let mut m = serde_json::Map::new();
            for (k, v) in fields {
                m.insert(k.clone(), scalar_value(v));
            }
            serde_json::Value::Object(m)
        }
        Record::NonObj => serde_json::Value::Null,
    }
}

fn doc_bytes(d: &Doc) -> Vec<u8> {
    match d {
        Doc::Obj(fields) => {
            let mut m = serde_json::Map::new();
            for (k, v) in fields {
                let val = match v {
                    TopValue::Arr(rs) => {
                        serde_json::Value::Array(rs.iter().map(record_value).collect())
                    }
                    TopValue::Other => serde_json::Value::Null,
                };
                m.insert(k.clone(), val);
            }
            serde_json::to_vec(&serde_json::Value::Object(m)).unwrap()
        }
        Doc::NonObj => b"null".to_vec(),
    }
}

fn sample_deployment() -> Deployment {
    Deployment {
        unlocked: Some("development".to_string()),
        osname: "fedora-coreos".to_string(),
        pinned: true,
        checksum: "3a4f".to_string(),
        staged: Some(false),
        booted: true,
        serial: 7,
        origin: "fedora:fedora/x86_64/coreos/stable".to_string(),
    }
}

fn failing_attempt(stderr: &str) -> Attempt {
    Attempt::Completed(RunOutput {
        success: false,
        stdout: Vec::new(),
        stderr: stderr.as_bytes().to_vec(),
    })
}

fn success_attempt(stdout: &[u8]) -> Attempt {
    Attempt::Completed(RunOutput { success: true, stdout: stdout.to_vec(), stderr: Vec::new() })
}

#[test]
fn round_trip_preserves_status() {
    let other = Deployment {
        unlocked: None,
        osname: "silverblue".to_string(),
        pinned: false,
        checksum: "9b1c".to_string(),
        staged: None,
        booted: false,
        serial: 0,
        origin: "fedora:fedora/36/x86_64/silverblue".to_string(),
    };
    let status = Status { deployments: vec![sample_deployment(), other] };
    let bytes = doc_bytes(&status_to_doc(&status));
    let back = decode(&bytes).unwrap();
    assert_eq!(back, status);
}

#[test]
fn round_trip_preserves_empty_status() {
    let status = Status { deployments: Vec::new() };
    let bytes = doc_bytes(&status_to_doc(&status));
    assert_eq!(decode(&bytes).unwrap(), status);
}

#[test]
fn end_to_end_example_decodes() {
    let input = br#"{"deployments":[{"unlocked":null,"osname":"fedora","pinned":false,"checksum":"abc123","staged":null,"booted":true,"serial":0,"origin":"fedora:fedora/36/x86_64/silverblue"}]}"#;
    let st = decode(input).unwrap();
    assert_eq!(st.deployments.len(), 1);
    let d = &st.deployments[0];
    assert!(d.booted);
    assert_eq!(d.serial, 0);
    assert_eq!(d.unlocked, None);
    assert_eq!(d.staged, None);
    assert!(!d.pinned);
    assert_eq!(d.osname.as_str(), "fedora");
    assert_eq!(d.checksum.as_str(), "abc123");
    assert_eq!(d.origin.as_str(), "fedora:fedora/36/x86_64/silverblue");
}

#[test]
fn missing_checksum_fails() {
    let input = br#"{"deployments":[{"unlocked":null,"osname":"fedora","pinned":false,"staged":null,"booted":true,"serial":0,"origin":"o"}]}"#;
    let res = decode(input);
    assert!(matches!(res, Err(QueryFailure::DecodeFailure(_))));
}

#[test]
fn missing_osname_fails() {
    let input = br#"{"deployments":[{"pinned":false,"checksum":"c","booted":true,"serial":0,"origin":"o"}]}"#;
    assert!(matches!(decode(input), Err(QueryFailure::DecodeFailure(_))));
}

#[test]
fn extra_unknown_field_is_ignored() {
    let plain = br#"{"deployments":[{"osname":"fedora","pinned":false,"checksum":"c","booted":true,"serial":2,"origin":"o"}]}"#;
    let extra = br#"{"deployments":[{"osname":"fedora","pinned":false,"checksum":"c","booted":true,"serial":2,"origin":"o","base-removals":[["pkg",1]],"live-replaced":"x"}],"update-driver":null}"#;
    let a = decode(plain).unwrap();
    let b = decode(extra).unwrap();
    assert_eq!(a, b);
}

#[test]
fn invalid_json_fails() {
    assert!(matches!(decode(b"not json at all"), Err(QueryFailure::DecodeFailure(_))));
}

#[test]
fn top_level_non_object_fails() {
    assert!(matches!(decode(b"[1,2,3]"), Err(QueryFailure::DecodeFailure(_))));
}

#[test]
fn missing_deployments_fails() {
    assert!(matches!(decode(b"{}"), Err(QueryFailure::DecodeFailure(_))));
}

#[test]
fn deployments_non_array_fails() {
    assert!(matches!(decode(br#"{"deployments":{}}"#), Err(QueryFailure::DecodeFailure(_))));
}

#[test]
fn deployment_entry_non_object_fails() {
    assert!(matches!(decode(br#"{"deployments":[42]}"#), Err(QueryFailure::DecodeFailure(_))));
}

#[test]
fn serial_out_of_range_fails() {
    let input = br#"{"deployments":[{"osname":"f","pinned":false,"checksum":"c","booted":true,"serial":5000000000,"origin":"o"}]}"#;
    assert!(matches!(decode(input), Err(QueryFailure::DecodeFailure(_))));
}

#[test]
fn serial_non_integer_fails() {
    let input = br#"{"deployments":[{"osname":"f","pinned":false,"checksum":"c","booted":true,"serial":1.5,"origin":"o"}]}"#;
    assert!(matches!(decode(input), Err(QueryFailure::DecodeFailure(_))));
}

#[test]
fn checksum_wrong_type_fails() {
    let input = br#"{"deployments":[{"osname":"f","pinned":false,"checksum":17,"booted":true,"serial":1,"origin":"o"}]}"#;
    assert!(matches!(decode(input), Err(QueryFailure::DecodeFailure(_))));
}

#[test]
fn staged_wrong_type_fails() {
    let input = br#"{"deployments":[{"osname":"f","pinned":false,"checksum":"c","staged":"yes","booted":true,"serial":1,"origin":"o"}]}"#;
    assert!(matches!(decode(input), Err(QueryFailure::DecodeFailure(_))));
}

#[test]
fn optional_fields_present_decode() {
    let input = br#"{"deployments":[{"unlocked":"development","osname":"f","pinned":true,"checksum":"c","staged":true,"booted":false,"serial":3,"origin":"o"}]}"#;
    let st = decode(input).unwrap();
    let d = &st.deployments[0];
    assert_eq!(d.unlocked.as_deref(), Some("development"));
    assert_eq!(d.staged, Some(true));
    assert!(d.pinned);
    assert!(!d.booted);
    assert_eq!(d.serial, 3);
}

#[test]
fn deployment_order_is_preserved() {
    let input = br#"{"deployments":[{"osname":"first","pinned":false,"checksum":"a","booted":true,"serial":0,"origin":"o"},{"osname":"second","pinned":false,"checksum":"b","booted":false,"serial":1,"origin":"o"}]}"#;
    let st = decode(input).unwrap();
    assert_eq!(st.deployments.len(), 2);
    assert_eq!(st.deployments[0].osname.as_str(), "first");
    assert_eq!(st.deployments[1].osname.as_str(), "second");
}

#[test]
fn retries_then_succeeds_on_fourth() {
    let good = br#"{"deployments":[]}"#;
    let attempts = vec![
        failing_attempt("a"),
        failing_attempt("b"),
        failing_attempt("c"),
        success_attempt(good),
    ];
    let (raw, pauses) = run_attempts(attempts);
    assert_eq!(pauses, 3);
    assert_eq!(raw.unwrap(), good.to_vec());

    let attempts = vec![
        failing_attempt("a"),
        failing_attempt("b"),
        failing_attempt("c"),
        success_attempt(good),
    ];
    let st = query_status(attempts).unwrap();
    assert_eq!(st.deployments.len(), 0);
}

#[test]
fn always_failing_stops_after_ten_attempts() {
    let attempts: Vec<Attempt> =
        (0..12).map(|i| failing_attempt(&format!("err{}", i))).collect();
    let (raw, pauses) = run_attempts(attempts);
    assert_eq!(pauses, 9);
    match raw {
        Err(QueryFailure::CommandFailure(stderr)) => assert_eq!(stderr, b"err9".to_vec()),
        _ => panic!("expected a command failure with the final stderr"),
    }
}

#[test]
fn command_failure_message_carries_final_stderr() {
    let attempts: Vec<Attempt> = (0..10).map(|_| failing_attempt("boom")).collect();
    let err = query_status(attempts).unwrap_err();
    assert_eq!(err.message().as_str(), "running 'rpm-ostree status' failed: boom");
}

#[test]
fn spawn_failure_is_immediate() {
    let attempts =
        vec![Attempt::SpawnFailed("no such file".to_string()), success_attempt(b"{}")];
    let (raw, pauses) = run_attempts(attempts);
    assert_eq!(pauses, 0);
    assert!(matches!(raw, Err(QueryFailure::SpawnFailure(_))));

    let err = query_status(vec![Attempt::SpawnFailed("no such file".to_string())]).unwrap_err();
    assert_eq!(err.message().as_str(), "failed to spawn 'rpm-ostree status'");
}

#[test]
fn decode_failure_message_is_fixed() {
    let err = query_status(vec![success_attempt(b"gibberish")]).unwrap_err();
    assert_eq!(err.message().as_str(), "failed to parse 'rpm-ostree status' output");
}

#[test]
fn observe_drives_retry_and_stop() {
    let mut inv = Invoker::new();
    assert_eq!(inv.attempts_done, 0);
    match inv.observe(failing_attempt("x")) {
        Step::Retry => {}
        _ => panic!("a first failure should be retried"),
    }
    assert_eq!(inv.attempts_done, 1);
    match inv.observe(success_attempt(b"{}")) {
        Step::Done(Ok(bytes)) => assert_eq!(bytes, b"{}".to_vec()),
        _ => panic!("a success should end the loop with its stdout"),
    }
    assert_eq!(inv.attempts_done, 2);
}

#[test]
fn observe_exhausts_budget() {
    let mut inv = Invoker::new();
    for _ in 0..9 {
        match inv.observe(failing_attempt("again")) {
            Step::Retry => {}
            _ => panic!("failures within the budget should be retried"),
        }
    }
    match inv.observe(failing_attempt("final")) {
        Step::Done(Err(QueryFailure::CommandFailure(stderr))) => {
            assert_eq!(stderr, b"final".to_vec())
        }
        _ => panic!("the tenth failure should end the loop"),
    }
}

#[test]
fn collapse_keeps_spawn_text_fixed() {
    let e = Error::from_failure(QueryFailure::SpawnFailure("whatever".to_string()));
    assert_eq!(e.message().as_str(), "failed to spawn 'rpm-ostree status'");
    let e = Error::from_failure(QueryFailure::CommandFailure(b"oops".to_vec()));
    assert_eq!(e.message().as_str(), "running 'rpm-ostree status' failed: oops");
}

#[test]
fn command_failure_message_replaces_invalid_utf8() {
    let mut stderr = b"bad ".to_vec();
    stderr.push(0xff);
    let e = Error::from_failure(QueryFailure::CommandFailure(stderr));
    assert_eq!(e.message().as_str(), "running 'rpm-ostree status' failed: bad \u{fffd}");
}
