use jcp_protocol::zyal::{
    manifest_file_name, phase, poll_should_stop, poll_timeout_ms, status_args, status_failure_text,
    status_of, submit_args, submit_failure_text, zyal_evidence, zyal_kind_supported, zyal_run_id,
    CliZyalRunner, SubmitOpts, ZyalAdapter, ZyalPhase, ZyalRunStatus,
};

#[test]
fn percent_handles_empty_partial_full() {
    assert_eq!(status_of("r", vec![]).percent(), 0);
    assert_eq!(status_of("r", vec![phase("a", "complete"), phase("b", "running")]).percent(), 50);
    assert_eq!(
        status_of("r", vec![phase("a", "complete"), phase("b", "complete"), phase("c", "complete")])
            .percent(),
        100
    );
    assert_eq!(
        status_of("r", vec![phase("a", "complete"), phase("b", "pending"), phase("c", "pending")])
            .percent(),
        33
    );
}

#[test]
fn is_terminal_and_state_label() {
    let empty = status_of("r", vec![]);
    assert!(!empty.is_terminal());
    assert_eq!(empty.state_label(), "unknown");

    let running = status_of("r", vec![phase("a", "complete"), phase("b", "running")]);
    assert!(!running.is_terminal());
    assert_eq!(running.state_label(), "partial");

    let done = status_of("r", vec![phase("a", "complete"), phase("b", "complete")]);
    assert!(done.is_terminal());
    assert_eq!(done.state_label(), "complete");

    let blocked = status_of("r", vec![phase("a", "complete"), phase("b", "blocked")]);
    assert!(blocked.is_terminal());
    assert_eq!(blocked.state_label(), "blocked");

    let failed = status_of(
        "r",
        vec![phase("a", "complete"), phase("b", "failed"), phase("c", "blocked")],
    );
    assert!(failed.is_terminal());
    assert_eq!(failed.state_label(), "failed", "failed wins over blocked");
}

fn status_from_json(text: &str) -> ZyalRunStatus {
    let v: serde_json::Value = serde_json::from_str(text).expect("parse");
    let run_id = v.get("run_id").and_then(|r| r.as_str()).unwrap_or("").to_owned();
    let phases = v
        .get("phases")
        .and_then(|p| p.as_array())
        .map(|items| {
            items
                .iter()
                .map(|p| ZyalPhase {
                    phase_id: p.get("phase_id").and_then(|x| x.as_str()).unwrap_or("").to_owned(),
                    status: p.get("status").and_then(|x| x.as_str()).unwrap().to_owned(),
                })
                .collect()
        })
        .unwrap_or_default();
    ZyalRunStatus { run_id, phases }
}

#[test]
fn parses_status_json_from_port_run() {
    let v = r#"{"phases":[{"phase_id":"frame","status":"complete"},{"phase_id":"produce","status":"running"}]}"#;
    let parsed = status_from_json(v);
    assert_eq!(parsed.total(), 2);
    assert_eq!(parsed.completed(), 1);
    assert_eq!(parsed.percent(), 50);
    assert!(parsed.run_id.is_empty());
    let filled = parsed.with_run_id_default("run-cli");
    assert_eq!(filled.run_id, "run-cli");
}

#[test]
fn zyal_evidence_reports_run_progress_state_and_phases() {
    let terminal = status_of("run-x", vec![phase("a", "complete"), phase("b", "complete")]);
    let ev = zyal_evidence("run-x", &terminal);
    assert_eq!(ev.len(), 5);
    assert_eq!(ev[0].kind, "zyal.run");
    assert_eq!(ev[0].uri, "zyal://run/run-x");
    assert_eq!(ev[1].uri, "zyal://run/run-x/progress/100");
    assert_eq!(ev[2].uri, "zyal://run/run-x/status/complete");
    assert_eq!(ev[3].kind, "zyal.phase.complete");
    assert_eq!(ev[4].uri, "zyal://run/run-x/phase/b");
}

#[test]
fn zyal_evidence_caps_phase_rows() {
    let phases: Vec<ZyalPhase> = (0..40).map(|i| phase(&format!("p{i}"), "complete")).collect();
    let ev = zyal_evidence("r", &status_of("r", phases));
    assert_eq!(ev.len(), 3 + 32);
}

#[test]
fn only_zyal_run_is_supported() {
    assert!(zyal_kind_supported("zyal.run"));
    assert!(!zyal_kind_supported("jekko.run"));
}

#[test]
fn run_id_defaults_to_work_order() {
    assert_eq!(zyal_run_id(Some("run-x".to_owned()), "abc"), "run-x");
    assert_eq!(zyal_run_id(None, "abc"), "wo-abc");
}

#[test]
fn polling_stops_on_terminal_or_timeout() {
    let running = status_of("r", vec![phase("a", "running")]);
    let done = status_of("r", vec![phase("a", "complete")]);
    assert!(!poll_should_stop(&running, 10, 100));
    assert!(poll_should_stop(&running, 100, 100));
    assert!(poll_should_stop(&done, 0, 100));
}

#[test]
fn submit_args_follow_options() {
    let opts = SubmitOpts {
        live: true,
        max_stages: Some(3),
        time_budget_hours: Some("1.5".to_owned()),
        per_phase_timeout_secs: Some(60),
    };
    let args = submit_args("/tmp/m.json", Some("db.sqlite"), "run-1", &opts);
    assert_eq!(
        args,
        vec![
            "port-run", "--super", "/tmp/m.json", "--run-id", "run-1", "--db", "db.sqlite", "--live",
            "--max-stages", "3", "--time-budget-hours", "1.5", "--per-phase-timeout-secs", "60"
        ]
    );
    let plain = SubmitOpts { live: false, max_stages: None, time_budget_hours: None, per_phase_timeout_secs: None };
    assert_eq!(submit_args("m", None, "r", &plain), vec!["port-run", "--super", "m", "--run-id", "r"]);
    assert_eq!(status_args(Some("d"), "r"), vec!["port-run", "--status", "r", "--db", "d"]);
}

#[test]
fn cli_failures_never_lose_the_stderr_note() {
    assert_eq!(submit_failure_text(Some(2), ""), "jekko port-run submit failed (Some(2)): <no stderr>");
    assert_eq!(submit_failure_text(None, "boom"), "jekko port-run submit failed (None): boom");
    assert_eq!(status_failure_text("bad"), "jekko port-run --status failed: bad");
    assert_eq!(status_failure_text(""), "jekko port-run --status failed: <no stderr>");
}

#[test]
fn runner_configuration() {
    assert_eq!(CliZyalRunner::configured(None).bin, "jekko");
    assert_eq!(CliZyalRunner::configured(Some(String::new())).bin, "jekko");
    assert_eq!(CliZyalRunner::configured(Some("/bin/j".to_owned())).bin, "/bin/j");
    assert_eq!(CliZyalRunner::with_bin("x".to_owned()).bin, "x");
    assert_eq!(manifest_file_name("r", "w"), "jmcp-zyal-r-w.json");
    assert_eq!(poll_timeout_ms(None), 1_800_000);
    assert_eq!(poll_timeout_ms(Some(2)), 2000);
    assert_eq!(poll_timeout_ms(Some(u64::MAX)), u64::MAX);
}

#[test]
fn zyal_service_card() {
    let card = ZyalAdapter::new().service_card();
    assert_eq!(card.name, "zyal");
    assert_eq!(card.subjects, vec!["*/zyal/*"]);
    assert_eq!(card.capabilities, vec!["zyal.run", "port-run"]);
    assert_eq!(ZyalAdapter::new().with_poll_interval(1).poll_interval_ms, 1);
}
