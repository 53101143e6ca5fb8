use jcp_protocol::clock::Timestamp;
use jcp_protocol::domain::{Task, WorkOrder};
use jcp_protocol::jekko::{
    chat_outcome, detached_job, job_id_of, job_settled, map_worker_outcome, route_for,
    run_ref_or_default, service_url, settle_outcome, setting_or, status_of, text_digest_uri,
    tool_error_text, JekkoAdapter, JekkoArtifact, JekkoRunOutcome, Route, WorkerFileChange,
    WorkerReport, WorkerStructured,
};
use jcp_protocol::json::{Json, JsonNumber};
use jcp_protocol::worker_json::{map_worker_json, worker_structured_of, worker_structured_or_default};

fn to_json(v: &serde_json::Value) -> Json {
    match v {
        serde_json::Value::Null => Json::Null,
        serde_json::Value::Bool(b) => Json::Bool(*b),
        serde_json::Value::Number(n) => {
            if let Some(u) = n.as_u64() {
                Json::Number(JsonNumber::PosInt(u))
            } else if let Some(i) = n.as_i64() {
                Json::Number(JsonNumber::NegInt(i))
            } else {
                Json::Number(JsonNumber::Float(n.to_string()))
            }
        }
        serde_json::Value::String(s) => Json::String(s.clone()),
        serde_json::Value::Array(items) => Json::Array(items.iter().map(to_json).collect()),
        serde_json::Value::Object(map) => {
            Json::Object(map.iter().map(|(k, v)| (k.clone(), to_json(v))).collect())
        }
    }
}

fn map(text: &str) -> JekkoRunOutcome {
    let v: serde_json::Value = serde_json::from_str(text).unwrap();
    map_worker_json(&to_json(&v))
}

#[test]
fn maps_succeeded_run_with_file_changes_to_artifacts() {
    let outcome = map(
        r#"{
        "job_id": "job-7",
        "status": "succeeded",
        "summary": "patched the parser",
        "report": {
            "files_read": ["src/lib.rs"],
            "files_changed": ["src/parse.rs"],
            "file_changes": [
                {"path": "src/parse.rs", "before_sha256": "aaa", "after_sha256": "bbb"}
            ],
            "commands_run": ["cargo test"],
            "failures": []
        },
        "raw_model_summary": "ignored when summary present"
    }"#,
    );
    assert!(outcome.success);
    assert_eq!(outcome.run_ref, "job-7");
    assert_eq!(outcome.assistant_text.as_deref(), Some("patched the parser"));
    assert!(outcome.error.is_none());
    assert_eq!(outcome.artifacts.len(), 1);
    let artifact = &outcome.artifacts[0];
    assert_eq!(artifact.kind, "file");
    assert_eq!(artifact.reference, "src/parse.rs");
    assert_eq!(artifact.digest.as_deref(), Some("bbb"));
}

#[test]
fn failed_run_joins_failures_into_error() {
    let outcome = map(
        r#"{"job_id": "job-9", "status": "failed", "summary": "could not build",
            "report": {"failures": ["cargo build failed", "missing dependency"]}}"#,
    );
    assert!(!outcome.success);
    assert_eq!(outcome.run_ref, "job-9");
    assert_eq!(outcome.error.as_deref(), Some("cargo build failed; missing dependency"));
}

#[test]
fn failed_run_without_failures_still_reports_error() {
    let outcome = map(r#"{"job_id": "job-10", "status": "failed"}"#);
    assert!(!outcome.success);
    assert_eq!(outcome.error.as_deref(), Some("jekko worker_run failed"));
}

#[test]
fn failed_run_with_only_empty_failures_reports_default_error() {
    let outcome = map(r#"{"status": "failed", "report": {"failures": [""]}}"#);
    assert_eq!(outcome.error.as_deref(), Some("jekko worker_run failed"));
}

#[test]
fn running_status_is_not_success_and_has_no_error() {
    let outcome = map(r#"{"job_id": "job-running", "status": "running"}"#);
    assert!(!outcome.success);
    assert!(outcome.error.is_none());
    assert_eq!(outcome.run_ref, "job-running");
}

#[test]
fn thin_payload_uses_fallbacks() {
    let outcome = map("{}");
    assert_eq!(outcome.run_ref, "jnoccio-worker");
    assert!(!outcome.success);
    assert!(outcome.assistant_text.is_none());
    assert!(outcome.artifacts.is_empty());
    assert!(outcome.error.is_none());
}

#[test]
fn falls_back_to_raw_model_summary_when_summary_missing() {
    let outcome = map(
        r#"{"job_id": "job-3", "status": "succeeded", "raw_model_summary": "raw chain of thought summary"}"#,
    );
    assert!(outcome.success);
    assert_eq!(outcome.assistant_text.as_deref(), Some("raw chain of thought summary"));
}

#[test]
fn file_change_without_after_digest_yields_none_digest() {
    let outcome = map(
        r#"{"job_id": "job-4", "status": "succeeded",
            "report": {"file_changes": [{"path": "README.md", "before_sha256": "old"}]}}"#,
    );
    assert_eq!(outcome.artifacts.len(), 1);
    assert_eq!(outcome.artifacts[0].reference, "README.md");
    assert!(outcome.artifacts[0].digest.is_none());
}

fn j(text: &str) -> Json {
    to_json(&serde_json::from_str(text).unwrap())
}

#[test]
fn status_helpers_read_running_and_job_id() {
    let structured = j(r#"{ "status": "running", "job_id": "abc" }"#);
    assert_eq!(status_of(&structured), Some("running"));
    assert_eq!(job_id_of(&structured), Some("abc".to_owned()));
    let empty_job = j(r#"{ "status": "running", "job_id": "" }"#);
    assert_eq!(job_id_of(&empty_job), None);
    let missing = j("{}");
    assert_eq!(status_of(&missing), None);
    assert_eq!(job_id_of(&missing), None);
    assert_eq!(detached_job(&structured), Some("abc".to_owned()));
    assert_eq!(detached_job(&empty_job), None);
    assert!(!job_settled(&structured));
    assert!(job_settled(&j(r#"{"status": "succeeded"}"#)));
}

struct Rng {
    state: u64,
}

impl Rng {
    fn new(seed: u64) -> Self {
        Self { state: seed ^ 0x9E37_79B9_7F4A_7C15 }
    }
    fn next_u64(&mut self) -> u64 {
        let mut x = self.state;
        x ^= x >> 12;
        x ^= x << 25;
        x ^= x >> 27;
        self.state = x;
        x.wrapping_mul(0x2545_F491_4F6C_DD1D)
    }
    fn below(&mut self, bound: u64) -> u64 {
        self.next_u64() % bound
    }
}

#[test]
fn worker_outcome_invariants_hold_over_random_inputs() {
    let mut rng = Rng::new(0x0BAD_F00D_DEAD_BEEF);
    for i in 0..256u32 {
        let status = match rng.below(5) {
            0 => "succeeded",
            1 => "failed",
            2 => "running",
            3 => "queued",
            _ => "",
        };
        let job_id = if rng.below(3) == 0 { None } else { Some(format!("job-{}", rng.below(1_000_000))) };
        let summary = if rng.below(2) == 0 { Some(format!("did thing {}", rng.below(1000))) } else { None };
        let raw_summary = if rng.below(2) == 0 { Some(format!("raw cot {}", rng.below(1000))) } else { None };
        let file_change_count = rng.below(4) as usize;
        let mut file_changes = Vec::new();
        for k in 0..file_change_count {
            let before = if rng.below(2) == 0 { Some(format!("{:08x}", rng.next_u64())) } else { None };
            let after = if rng.below(2) == 0 { Some(format!("{:08x}", rng.next_u64())) } else { None };
            file_changes.push(WorkerFileChange { path: format!("src/file_{k}.rs"), before_sha256: before, after_sha256: after });
        }
        let failure_count = rng.below(3) as usize;
        let failures: Vec<String> = (0..failure_count).map(|k| format!("failure {k}: {}", rng.below(100))).collect();
        let worker = WorkerStructured {
            job_id: job_id.clone(),
            status: if status.is_empty() { None } else { Some(status.to_owned()) },
            summary: summary.clone(),
            report: WorkerReport { file_changes, failures, ..WorkerReport::default() },
            raw_model_summary: raw_summary.clone(),
        };
        let outcome = map_worker_outcome(&worker);
        assert_eq!(outcome.success, status == "succeeded", "iteration {i}: success tracks status exactly");
        let expected_run_ref = job_id.clone().filter(|v| !v.is_empty()).unwrap_or_else(|| "jnoccio-worker".to_owned());
        assert_eq!(outcome.run_ref, expected_run_ref, "iteration {i}: run_ref maps job_id with fallback");
        assert!(!outcome.run_ref.is_empty(), "iteration {i}: run_ref non-empty");
        let expected_text = summary.clone().filter(|v| !v.is_empty()).or_else(|| raw_summary.clone().filter(|v| !v.is_empty()));
        assert_eq!(outcome.assistant_text, expected_text, "iteration {i}: assistant_text precedence (summary > raw)");
        assert_eq!(outcome.artifacts.len(), file_change_count, "iteration {i}: one artifact per file change");
        for artifact in &outcome.artifacts {
            assert_eq!(artifact.kind, "file", "iteration {i}: artifact kind");
            assert!(!artifact.reference.is_empty(), "iteration {i}: artifact reference non-empty");
        }
        assert_eq!(outcome.error.is_some(), status == "failed", "iteration {i}: error presence tracks failed status");
        if let Some(err) = &outcome.error {
            assert!(!err.is_empty(), "iteration {i}: error message non-empty");
            if failure_count == 0 {
                assert_eq!(err, "jekko worker_run failed", "iteration {i}: empty failures -> default error");
            }
        }
    }
}

#[test]
fn thin_payload_maps_to_deterministic_fallbacks() {
    let outcome = map("{}");
    assert_eq!(outcome.run_ref, "jnoccio-worker");
    assert!(!outcome.success);
    assert!(outcome.assistant_text.is_none());
    assert!(outcome.artifacts.is_empty());
    assert!(outcome.error.is_none());
    let from_array = map("[1, 2, 3]");
    assert_eq!(from_array.run_ref, "jnoccio-worker");
    assert!(!from_array.success);
}

#[test]
fn service_card_advertises_worker_capabilities() {
    let card = JekkoAdapter::configured(None).service_card();
    assert_eq!(card.name, "jekko");
    assert!(card.capabilities.iter().any(|c| c == "jnoccio-router"));
    assert_eq!(card.version, "0.1.0");
}

fn ok_outcome() -> JekkoRunOutcome {
    JekkoRunOutcome {
        run_ref: "run-123".to_owned(),
        assistant_text: Some("done".to_owned()),
        artifacts: vec![JekkoArtifact {
            kind: "diff".to_owned(),
            reference: "patch.diff".to_owned(),
            digest: Some("abc".to_owned()),
        }],
        success: true,
        error: None,
    }
}

fn order(kind: &str, payload: &str) -> WorkOrder {
    WorkOrder {
        id: 1,
        subject: "t/jekko/e".to_owned(),
        task: Task { kind: kind.to_owned(), payload: j(payload) },
        updated_at: Timestamp::from_unix(0, 0).unwrap(),
    }
}

#[test]
fn maps_run_outcome_to_evidence() {
    let evidence = settle_outcome(&ok_outcome()).unwrap();
    assert_eq!(evidence[0].kind, "jekko.run");
    assert_eq!(evidence[0].uri, "jekko://run/run-123");
    assert_eq!(evidence[1].kind, "jekko.assistant.digest");
    assert_eq!(evidence[1].uri, text_digest_uri("done"));
    assert!(evidence[1].uri.starts_with("sha256:"));
    assert!(evidence.iter().any(|e| e.kind == "jekko.artifact.diff" && e.uri == "sha256:abc"));
}

#[test]
fn failed_run_is_fail_closed() {
    let mut outcome = ok_outcome();
    outcome.success = false;
    outcome.error = Some("boom".to_owned());
    assert_eq!(settle_outcome(&outcome).unwrap_err().message, "jekko run failed: boom");
}

#[test]
fn unknown_kind_fails_closed_at_planning() {
    let adapter = JekkoAdapter::new("m".to_owned());
    let err = adapter.plan(&order("unrelated.kind", "{}"), "{}").unwrap_err();
    assert_eq!(err.message, "jekko adapter is not configured; failing closed");
}

#[test]
fn worker_kinds_route_to_worker_run() {
    for kind in ["jekko.run", "jekko.task", "run", "worker"] {
        assert_eq!(route_for(kind), Some(Route::Worker), "kind {kind}");
    }
    assert_eq!(route_for("reason"), Some(Route::Reason));
}

#[test]
fn plan_carries_prompt_cwd_and_model() {
    let adapter = JekkoAdapter::new("m".to_owned());
    let (route, request) = adapter.plan(&order("jekko.run", r#"{"prompt": "fix tests", "cwd": "/r"}"#), "{}").unwrap();
    assert_eq!(route, Route::Worker);
    assert_eq!(request.prompt, "fix tests");
    assert_eq!(request.cwd, "/r");
    assert_eq!(request.model, "m");
    let (_, request) = adapter.plan(&order("reason", r#"{"x": 1}"#), r#"{"x":1}"#).unwrap();
    assert_eq!(request.prompt, "reason\n\n{\"x\":1}");
    assert_eq!(request.cwd, ".");
}

#[test]
fn engine_client_rules() {
    assert_eq!(setting_or(None, "d"), "d");
    assert_eq!(setting_or(Some(String::new()), "d"), "d");
    assert_eq!(setting_or(Some("v".to_owned()), "d"), "v");
    assert_eq!(service_url("http://h:1//", "/health"), "http://h:1/health");
    let out = chat_outcome(None, Some("hi".to_owned()));
    assert_eq!(out.run_ref, "jnoccio");
    assert_eq!(out.assistant_text.as_deref(), Some("hi"));
    assert!(out.success && out.artifacts.is_empty() && out.error.is_none());
    assert_eq!(tool_error_text("worker_run", None), "jnoccio worker worker_run error: unknown error");
    assert_eq!(run_ref_or_default(Some(String::new())), "jnoccio-worker");
}

#[test]
fn worker_json_reads_objects_arrays_and_refuses_wrong_types() {
    let w = worker_structured_of(&j(r#"{"job_id": "j1", "status": null, "extra": 5}"#)).unwrap();
    assert_eq!(w.job_id.as_deref(), Some("j1"));
    assert_eq!(w.status, None);
    let positional = worker_structured_of(&j(r#"["j2", "succeeded"]"#)).unwrap();
    assert_eq!(positional.job_id.as_deref(), Some("j2"));
    assert_eq!(positional.status.as_deref(), Some("succeeded"));
    assert!(worker_structured_of(&j(r#"[1, 2, 3]"#)).is_none());
    assert!(worker_structured_of(&j(r#"["a", "b", "c", {}, "e", "f"]"#)).is_none());
    assert!(worker_structured_of(&j(r#"{"status": 3}"#)).is_none());
    assert!(worker_structured_of(&j(r#"{"report": {"failures": [1]}}"#)).is_none());
    assert!(worker_structured_of(&j(r#"{"report": {"file_changes": [{"path": null}]}}"#)).is_none());
    assert!(worker_structured_of(&j("7")).is_none());
    let w = worker_structured_of(&j(
        r#"{"report": {"file_changes": [{"after_sha256": "bb"}, ["p", null, "cc"]]}}"#,
    ))
    .unwrap();
    assert_eq!(w.report.file_changes[0].path, "");
    assert_eq!(w.report.file_changes[0].after_sha256.as_deref(), Some("bb"));
    assert_eq!(w.report.file_changes[1].path, "p");
    assert_eq!(w.report.file_changes[1].after_sha256.as_deref(), Some("cc"));
    assert_eq!(worker_structured_or_default(&j(r#"{"status": 3}"#)), WorkerStructured::default());
    let mapped = map_worker_json(&j(r#"{"status": "failed", "report": {"failures": ["x", "y"]}}"#));
    assert_eq!(mapped.error.as_deref(), Some("x; y"));
}
