use jcp_protocol::clock::Timestamp;
use jcp_protocol::domain::{execute_with_lease_gate, Lease, Task, WorkOrder};
use jcp_protocol::forge::{after_health, after_run_lookup, JeryuArtifact, JeryuCiRun};
use jcp_protocol::json::{Json, JsonNumber};
use jcp_protocol::telegram::ApprovalDecision;
use jcp_protocol::voice::{
    evaluate_voice_approval, follow_through, VoiceChallenge, VoiceChallengeBook, VoiceReplyError,
};
use jcp_protocol::telegram::{listen_next_poll, listen_update};
use jcp_protocol::zyal::{
    read_zyal_payload, zyal_after_poll, zyal_after_submit, zyal_begin, ZyalPhase, ZyalRunStatus,
    ZyalStep,
};

fn phase(id: &str, status: &str) -> ZyalPhase {
    ZyalPhase { phase_id: id.to_owned(), status: status.to_owned() }
}

#[test]
fn zyal_begin_checks_kind_and_picks_run_id() {
    assert_eq!(zyal_begin("zyal.run", Some("r1".to_owned()), "abc").unwrap(), "r1");
    assert_eq!(zyal_begin("zyal.run", None, "abc").unwrap(), "wo-abc");
    assert_eq!(
        zyal_begin("other", None, "abc").unwrap_err().message,
        "zyal adapter is not configured; failing closed"
    );
}

#[test]
fn zyal_steps_poll_until_terminal_or_budget() {
    assert!(matches!(zyal_after_submit("r1", Ok(())), ZyalStep::Poll));
    match zyal_after_submit("r1", Err("boom".to_owned())) {
        ZyalStep::Fail { context, cause } => {
            assert_eq!(context, "submit zyal run r1");
            assert_eq!(cause, "boom");
        }
        _ => panic!("submission failure must fail the work order"),
    }
    let running = ZyalRunStatus { run_id: "r1".to_owned(), phases: vec![phase("a", "running")] };
    assert!(matches!(zyal_after_poll("r1", Ok(running.clone()), 10, 100), ZyalStep::WaitThenPoll));
    match zyal_after_poll("r1", Ok(running), 100, 100) {
        ZyalStep::Finish(ev) => assert_eq!(ev[0].uri, "zyal://run/r1"),
        _ => panic!("a spent budget finishes the run"),
    }
    let done = ZyalRunStatus { run_id: "r1".to_owned(), phases: vec![phase("a", "complete")] };
    match zyal_after_poll("r1", Ok(done), 0, 100) {
        ZyalStep::Finish(ev) => {
            assert_eq!(ev.len(), 4);
            assert_eq!(ev[1].uri, "zyal://run/r1/progress/100");
        }
        _ => panic!("a terminal run finishes"),
    }
    match zyal_after_poll("r1", Err("gone".to_owned()), 0, 100) {
        ZyalStep::Fail { context, cause } => {
            assert_eq!(context, "poll zyal run r1");
            assert_eq!(cause, "gone");
        }
        _ => panic!("a failed read fails the work order"),
    }
}

#[test]
fn listen_steps_follow_deadline_and_voice_updates() {
    assert_eq!(listen_next_poll(0), None);
    assert_eq!(listen_next_poll(500), Some(1));
    assert_eq!(listen_next_poll(7_900), Some(7));
    assert_eq!(listen_next_poll(60_000), Some(20));
    assert_eq!(listen_update(41, Some(77), true), (42, Some(77)));
    assert_eq!(listen_update(41, Some(77), false), (42, None));
    assert_eq!(listen_update(41, None, true), (42, None));
}

#[test]
fn jeryu_checks_health_before_reading_the_run() {
    let payload = Json::Object(vec![("run_id".to_owned(), Json::String("run-9".to_owned()))]);
    assert_eq!(after_health(Ok(()), &payload).unwrap(), "run-9");
    assert_eq!(after_health(Err("forge down".to_owned()), &payload).unwrap_err().message, "forge down");
    assert_eq!(
        after_health(Ok(()), &Json::Object(vec![])).unwrap_err().message,
        "jeryu work order missing run_id"
    );
    let run = JeryuCiRun {
        run_id: "run-9".to_owned(),
        status: None,
        commit_sha: None,
        artifacts: vec![JeryuArtifact {
            kind: "log".to_owned(),
            reference: "log.txt".to_owned(),
            digest: None,
        }],
    };
    let ev = after_run_lookup(Ok(run)).unwrap();
    assert_eq!(ev[0].uri, "jeryu://ci/run/run-9");
    assert_eq!(ev[1].uri, "log.txt");
    assert_eq!(after_run_lookup(Err("404".to_owned())).unwrap_err().message, "404");
}

#[test]
fn lease_gate_runs_only_under_a_matching_live_lease() {
    let now = Timestamp::now();
    let later = Timestamp::from_unix(now.unix_secs() + 300, 0).unwrap();
    let order = WorkOrder {
        id: 5,
        subject: "t/s/e".to_owned(),
        task: Task { kind: "demo".to_owned(), payload: Json::Object(vec![]) },
        updated_at: now,
    };
    let lease = Lease { work_order_id: 5, holder: "adapter".to_owned(), expires_at: later };
    assert!(execute_with_lease_gate(&order, &lease, "adapter", &now).is_ok());
    assert_eq!(
        execute_with_lease_gate(&order, &lease, "other", &now).unwrap_err().message,
        "lease is held by another adapter"
    );
}

#[test]
fn chrono_timestamp_range_is_as_stated() {
    assert!(Timestamp::from_unix(-8_334_601_228_800, 0).is_some());
    assert!(Timestamp::from_unix(-8_334_601_228_801, 0).is_none());
    assert!(Timestamp::from_unix(8_210_266_876_799, 999_999_999).is_some());
    assert!(Timestamp::from_unix(8_210_266_876_800, 0).is_none());
    assert!(Timestamp::from_unix(59, 1_500_000_000).is_some());
    assert!(Timestamp::from_unix(58, 1_500_000_000).is_none());
    assert!(Timestamp::from_unix(59, 2_000_000_000).is_none());
}

fn to_json(v: &serde_json::Value) -> Json {
    match v {
        serde_json::Value::Null => Json::Null,
        serde_json::Value::Bool(b) => Json::Bool(*b),
        serde_json::Value::Number(n) => {
            if let Some(u) = n.as_u64() {
                Json::Number(JsonNumber::PosInt(u))
            } else if let Some(i) = n.as_i64() {
                Json::Number(JsonNumber::NegInt(i))
            } else {
                Json::Number(JsonNumber::Float(n.to_string()))
            }
        }
        serde_json::Value::String(s) => Json::String(s.clone()),
        serde_json::Value::Array(items) => Json::Array(items.iter().map(to_json).collect()),
        serde_json::Value::Object(map) => {
            Json::Object(map.iter().map(|(k, v)| (k.clone(), to_json(v))).collect())
        }
    }
}

fn j(text: &str) -> Json {
    to_json(&serde_json::from_str(text).unwrap())
}

#[test]
fn zyal_payload_reads_manifest_and_options() {
    let p = read_zyal_payload(&j(
        r#"{"manifest": {"id": "m", "phases": []}, "run_id": "run-x", "live": true,
            "max_stages": 3, "time_budget_hours": 1.5, "poll_timeout_secs": 9}"#,
    ))
    .unwrap();
    assert_eq!(p.run_id.as_deref(), Some("run-x"));
    assert_eq!(p.db, None);
    assert!(p.live);
    assert_eq!(p.max_stages, Some(3));
    assert_eq!(p.time_budget_hours, Some(JsonNumber::Float("1.5".to_owned())));
    assert_eq!(p.per_phase_timeout_secs, None);
    assert_eq!(p.poll_timeout_secs, Some(9));
    let defaults = read_zyal_payload(&j(r#"{"manifest": null}"#)).unwrap();
    assert!(!defaults.live);
    assert_eq!(defaults.run_id, None);
    let refused = [
        r#"{}"#,
        r#"{"manifest": {}, "live": "yes"}"#,
        r#"{"manifest": {}, "max_stages": 4294967296}"#,
        r#"{"manifest": {}, "max_stages": -1}"#,
        r#"{"manifest": {}, "run_id": 5}"#,
        r#"{"manifest": {}, "time_budget_hours": "2"}"#,
        r#"[]"#,
        r#""m""#,
    ];
    for text in refused {
        assert_eq!(
            read_zyal_payload(&j(text)).unwrap_err().message,
            "zyal.run payload must carry a `manifest` object",
            "payload {text}"
        );
    }
    let positional = read_zyal_payload(&j(r#"[{}, "r"]"#)).unwrap();
    assert_eq!(positional.run_id.as_deref(), Some("r"));
}

#[test]
fn voice_follow_through_forgets_only_after_a_decision() {
    let expires_at = Timestamp::from_unix(Timestamp::now().unix_secs() + 900, 0).unwrap();
    let challenge = VoiceChallenge {
        work_order_id: 0,
        approver_user_id: 7,
        token: "alpha".to_owned(),
        expires_at,
    };
    let mut book = VoiceChallengeBook::new();
    book.remember(challenge);
    let refused = evaluate_voice_approval(&book, 7, "hmm", Err(VoiceReplyError::UnknownDecision));
    let (reply, label) = follow_through(&mut book, 7, &refused, "unused");
    assert_eq!(reply, refused.reply);
    assert_eq!(label, "none");
    assert!(book.pending_for(7).is_some());
    let plan = evaluate_voice_approval(&book, 7, "approve", Ok(ApprovalDecision::Approved));
    let (reply, label) = follow_through(&mut book, 7, &plan, "JMCP approval Approved.");
    assert_eq!(reply, format!("{} JMCP approval Approved.", plan.reply));
    assert_eq!(label, "approved");
    assert!(book.pending_for(7).is_none());
}
