use jcp_protocol::jailgun::{
    ensure_no_prompt_text, evidence_for_summary, failures_json, file_uri, require_wire_version,
    review_packet_args, review_packet_evidence, review_packet_request, route_for, JailgunAdapter,
    JailgunArtifact, JailgunRoute, JailgunSummary,
};
use jcp_protocol::jailgun_ingest::{
    check_command_output, check_summary_value, digest_output, endpoint, finish_run,
    launch_retry_delay_ms, mcp_poll_next, mcp_structured_content, mcp_tool_call_body,
    run_id_from_summary_url, run_summary_arguments, same_origin_endpoint,
    url_is_authorized_for_local_submission, validate_jailgun_base_url,
    validate_jailgun_client_config, JailgunAcceptedRun, McpPoll,
};
use jcp_protocol::jailgun_request::{
    accept_run_request, account_ids, canonicalize_run_request, reject_duplicate_accounts,
    run_request_source, RunRequestSource,
};
use jcp_protocol::json::{Json, JsonNumber};
use sha2::Digest;

fn to_json(v: &serde_json::Value) -> Json {
    match v {
        serde_json::Value::Null => Json::Null,
        serde_json::Value::Bool(b) => Json::Bool(*b),
        serde_json::Value::Number(n) => match n.as_u64() {
            Some(u) => Json::Number(JsonNumber::PosInt(u)),
            None => match n.as_i64() {
                Some(i) => Json::Number(JsonNumber::NegInt(i)),
                None => Json::Number(JsonNumber::Float(n.to_string())),
            },
        },
        serde_json::Value::String(s) => Json::String(s.clone()),
        serde_json::Value::Array(items) => Json::Array(items.iter().map(to_json).collect()),
        serde_json::Value::Object(map) => {
            Json::Object(map.iter().map(|(k, v)| (k.clone(), to_json(v))).collect())
        }
    }
}

fn from_json(j: &Json) -> serde_json::Value {
    match j {
        Json::Null => serde_json::Value::Null,
        Json::Bool(b) => serde_json::Value::Bool(*b),
        Json::Number(JsonNumber::PosInt(u)) => serde_json::Value::from(*u),
        Json::Number(JsonNumber::NegInt(i)) => serde_json::Value::from(*i),
        Json::Number(JsonNumber::Float(t)) => serde_json::from_str(t).unwrap(),
        Json::String(s) => serde_json::Value::String(s.clone()),
        Json::Array(items) => serde_json::Value::Array(items.iter().map(from_json).collect()),
        Json::Object(entries) => {
            serde_json::Value::Object(entries.iter().map(|(k, v)| (k.clone(), from_json(v))).collect())
        }
    }
}

fn j(text: &str) -> Json {
    to_json(&serde_json::from_str(text).unwrap())
}

fn v(text: &str) -> serde_json::Value {
    serde_json::from_str(text).unwrap()
}

#[test]
fn routes_jailgun_kinds() {
    assert_eq!(route_for("jailgun.run"), Some(JailgunRoute::RunAgent { receipt_required: false }));
    assert_eq!(route_for("jailgun.capture"), Some(JailgunRoute::RunAgent { receipt_required: false }));
    assert_eq!(route_for("jailgun.deploy"), Some(JailgunRoute::RunAgent { receipt_required: true }));
    assert_eq!(route_for("jailgun.review_packet"), Some(JailgunRoute::ReviewPacket));
    assert_eq!(route_for("other.kind"), None);
}

#[test]
fn unknown_kind_fails_closed() {
    let adapter = JailgunAdapter::configured(None);
    assert_eq!(adapter.command, "jailgun");
    assert_eq!(adapter.timeout_ms, 1_830_000);
    assert_eq!(
        adapter.route("other.kind").unwrap_err().message,
        "jailgun adapter is not configured; failing closed"
    );
    let card = adapter.service_card();
    assert_eq!(card.capabilities, vec!["bounded-chatgpt-capture", "run-agent", "review-packet"]);
    assert_eq!(card.subjects, vec!["*/jailgun/*"]);
}

#[test]
fn wire_version_is_checked() {
    assert!(require_wire_version(&j(r#"{"version": 1}"#), "X").is_ok());
    assert_eq!(require_wire_version(&j(r#"{"version": 2}"#), "X").unwrap_err().message, "unsupported X version 2; expected 1");
    assert_eq!(require_wire_version(&j(r#"{}"#), "X").unwrap_err().message, "X requires version: 1");
    assert_eq!(require_wire_version(&j(r#"{"version": "1"}"#), "X").unwrap_err().message, "X requires version: 1");
}

#[test]
fn durable_artifacts_refuse_prompt_text_anywhere() {
    assert!(ensure_no_prompt_text(&j(r#"{"a": [1, {"b": "prompt"}]}"#)).is_ok());
    assert!(ensure_no_prompt_text(&j(r#"{"a": [1, {"prompt": "x"}]}"#)).is_err());
    assert_eq!(
        ensure_no_prompt_text(&j(r#"[{"prompt_text": 1}]"#)).unwrap_err().message,
        "Jailgun durable artifact contains prompt text key"
    );
}

#[test]
fn review_packet_maps_output_to_evidence() {
    let payload = j(r#"{"summary_json": "/d/summary.json", "base": "HEAD~1", "head": "HEAD", "repo": ".", "output": "/d/review.json"}"#);
    let request = review_packet_request(&payload).unwrap();
    assert_eq!(request.cwd, ".");
    assert_eq!(request.patch_bytes, 131072);
    let args = review_packet_args(&request);
    assert_eq!(
        args,
        vec![
            "review-packet", "--summary-json", "/d/summary.json", "--base", "HEAD~1", "--head", "HEAD",
            "--repo", ".", "--output", "/d/review.json", "--patch-bytes", "131072"
        ]
    );
    let packet = j(r#"{"version":1,"run_id":"run-1","prompt_ref":"jmcp://prompt/1"}"#);
    let evidence = review_packet_evidence(&request.output, &packet).unwrap();
    assert_eq!(evidence.len(), 1);
    assert_eq!(evidence[0].kind, "jailgun.review_packet");
    assert_eq!(evidence[0].uri, "file:///d/review.json");
}

#[test]
fn review_packet_request_errors() {
    assert_eq!(
        review_packet_request(&j(r#"{"version": 1, "base": "a"}"#)).unwrap_err().message,
        "jailgun work order missing summary_json"
    );
    assert_eq!(
        review_packet_request(&j(r#"{"summary_json": "s"}"#)).unwrap_err().message,
        "jailgun work order missing base"
    );
    assert_eq!(
        review_packet_request(&j(r#"{"version": 2, "summary_json": "s"}"#)).unwrap_err().message,
        "unsupported Jailgun review-packet request version 2; expected 1"
    );
    assert_eq!(
        review_packet_request(&j(r#"{"version": "1", "summary_json": "s"}"#)).unwrap_err().message,
        "Jailgun review-packet request requires version: 1"
    );
    let bad_packet = j(r#"{"version":1,"prompt":"secret"}"#);
    assert!(review_packet_evidence("/o", &bad_packet).is_err());
}

fn summary(status: &str, receipts: Vec<&str>) -> JailgunSummary {
    JailgunSummary {
        version: 1,
        run_id: "run-1".to_owned(),
        status: status.to_owned(),
        prompt_ref: "jmcp://prompt/1".to_owned(),
        events_jsonl: "/d/events.jsonl".to_owned(),
        receipt_paths: receipts.into_iter().map(str::to_owned).collect(),
        artifacts: vec![JailgunArtifact {
            kind: "downloaded-archive".to_owned(),
            path: "/d/source.tar.gz".to_owned(),
            sha256: Some("abc".to_owned()),
            receipt_path: None,
        }],
        failures: Vec::new(),
    }
}

fn accepted() -> JailgunAcceptedRun {
    JailgunAcceptedRun {
        run_id: "run-1".to_owned(),
        status: "accepted".to_owned(),
        summary_json: "/d/summary.json".to_owned(),
        events_jsonl: "/d/events.jsonl".to_owned(),
        run_url: "/api/runs/run-1".to_owned(),
        summary_url: "/api/runs/run-1/summary".to_owned(),
    }
}

#[test]
fn run_agent_maps_summary_events_and_receipts_to_evidence() {
    let payload = j(
        r#"{"request": {"prompt_ref": "jmcp://prompt/1", "prompt_file": "/d/prompt.txt"},
            "events_jsonl": "/d/events.jsonl", "summary_json": "/d/summary.json"}"#,
    );
    let adapter = JailgunAdapter::configured(None);
    assert_eq!(adapter.route("jailgun.run").unwrap(), JailgunRoute::RunAgent { receipt_required: false });
    let request = match run_request_source(payload).unwrap() {
        RunRequestSource::Inline(request) => request,
        RunRequestSource::File(_) => panic!("the request is inline"),
    };
    let canonical = accept_run_request(request).unwrap();
    assert_eq!(canonical.get_str("prompt_ref"), Some("jmcp://prompt/1"));
    let s = summary("succeeded", vec!["/d/receipt.json"]);
    let evidence = finish_run("http://127.0.0.1:8787/", &accepted(), &s, false).unwrap();
    assert!(evidence.iter().any(|e| e.kind == "jailgun.run" && e.uri == "jailgun://run/run-1"));
    assert!(evidence.iter().any(|e| e.kind == "jailgun.summary" && e.uri == "http://127.0.0.1:8787/api/runs/run-1/summary"));
    assert!(evidence.iter().any(|e| e.kind == "jailgun.events" && e.uri == "file:///d/events.jsonl"));
    assert!(evidence.iter().any(|e| e.kind == "jailgun.receipt" && e.uri == "file:///d/receipt.json"));
    assert!(evidence.iter().any(|e| e.kind == "jailgun.artifact.downloaded-archive" && e.uri == "sha256:abc"));
    assert!(!evidence.iter().any(|e| e.kind == "jailgun.events.summary-path"));
}

#[test]
fn deploy_requires_receipt_paths() {
    let payload = j(
        r#"{"request_path": "/d/request.json", "events_jsonl": "/d/events.jsonl",
            "summary_json": "/d/summary.json"}"#,
    );
    let adapter = JailgunAdapter::configured(None);
    let receipt_required = match adapter.route("jailgun.deploy").unwrap() {
        JailgunRoute::RunAgent { receipt_required } => receipt_required,
        JailgunRoute::ReviewPacket => panic!("deploy runs an agent"),
    };
    assert!(receipt_required);
    let path = match run_request_source(payload).unwrap() {
        RunRequestSource::File(path) => path,
        RunRequestSource::Inline(_) => panic!("the request comes from request_path"),
    };
    assert_eq!(path, "/d/request.json");
    // The file at `request_path` holds `{}`.
    let request = j("{}");
    accept_run_request(request).unwrap();
    let s = summary("succeeded", vec![]);
    let error = finish_run("http://127.0.0.1:8787", &accepted(), &s, receipt_required).unwrap_err();
    assert!(error.message.contains("missing receipt_paths"));
    let failed = summary("failed", vec![]);
    assert_eq!(
        finish_run("http://127.0.0.1:8787", &accepted(), &failed, false).unwrap_err().message,
        "jailgun run run-1 finished with status failed"
    );
}

#[test]
fn summary_evidence_covers_moved_events_receipts_and_failures() {
    let mut s = summary("succeeded", vec![]);
    s.artifacts[0].sha256 = None;
    s.artifacts[0].receipt_path = Some("/d/a.receipt".to_owned());
    s.failures = vec![r#"{"code":1}"#.to_owned(), r#""x""#.to_owned()];
    let evidence = evidence_for_summary(&s, "S", "file:///elsewhere.jsonl");
    let kinds: Vec<&str> = evidence.iter().map(|e| e.kind.as_str()).collect();
    assert_eq!(
        kinds,
        vec![
            "jailgun.run", "jailgun.summary", "jailgun.events", "jailgun.prompt_ref",
            "jailgun.events.summary-path", "jailgun.artifact.downloaded-archive",
            "jailgun.artifact.receipt", "jailgun.failures.digest"
        ]
    );
    assert_eq!(evidence[5].uri, "file:///d/source.tar.gz");
    assert_eq!(failures_json(&s.failures), r#"[{"code":1},"x"]"#);
    let expected = serde_json::to_string(&vec![v(r#"{"code":1}"#), v(r#""x""#)]).unwrap();
    assert_eq!(evidence[7].uri, format!("sha256:{}", hex::encode(sha2::Sha256::digest(expected.as_bytes()))));
}

#[test]
fn base_url_and_endpoints() {
    assert_eq!(validate_jailgun_base_url(" http://127.0.0.1:8787/ ").unwrap(), "http://127.0.0.1:8787");
    assert_eq!(validate_jailgun_base_url("  ").unwrap_err().message, "Jailgun ingest endpoint is not configured");
    assert_eq!(validate_jailgun_base_url("not a url").unwrap_err().message, "Jailgun ingest endpoint is not valid");
    assert_eq!(validate_jailgun_base_url("ftp://h").unwrap_err().message, "Jailgun ingest endpoint must use http or https");
    assert_eq!(validate_jailgun_base_url("http://u:p@h").unwrap_err().message, "Jailgun ingest endpoint must not include credentials");
    assert_eq!(validate_jailgun_base_url("http://h/?q=1").unwrap_err().message, "Jailgun ingest endpoint must not include query or fragment");
    assert_eq!(endpoint("http://h:1", "/api/runs").unwrap(), "http://h:1/api/runs");
    assert_eq!(same_origin_endpoint("http://h:1", " /api/runs/x/summary ").unwrap(), "http://h:1/api/runs/x/summary");
    assert_eq!(same_origin_endpoint("http://h:1", "//evil/x").unwrap_err().message, "Jailgun response URL is outside local origin");
    assert_eq!(same_origin_endpoint("http://h:1", "https://evil/x").unwrap_err().message, "Jailgun response URL is outside local origin");
    assert_eq!(same_origin_endpoint("http://h:1", "api/x").unwrap_err().message, "Jailgun response URL must be a local relative path");
    assert_eq!(same_origin_endpoint("http://h:1", "/x?y").unwrap_err().message, "Jailgun response URL must not include query or fragment");
}

#[test]
fn submission_policy() {
    assert!(url_is_authorized_for_local_submission("http://h:1/", Some(" http://a, http://h:1/ ")));
    assert!(!url_is_authorized_for_local_submission("http://h:1", Some("http://a")));
    assert!(!url_is_authorized_for_local_submission("http://h:1", None));
    assert!(validate_jailgun_client_config("http://h:1", "t", Some("http://h:1")).is_ok());
    assert_eq!(
        validate_jailgun_client_config("http://h:1", " ", Some("http://h:1")).unwrap_err().message,
        "Jailgun ingest token is not configured"
    );
    assert_eq!(
        validate_jailgun_client_config("http://h:1", "t", None).unwrap_err().message,
        "Jailgun ingest endpoint is outside configured local submission policy"
    );
}

#[test]
fn run_id_is_read_from_summary_url() {
    assert_eq!(run_id_from_summary_url("/api/runs/run-7/summary"), Some("run-7".to_owned()));
    assert_eq!(run_id_from_summary_url(" http://h/api/runs/abc "), Some("abc".to_owned()));
    assert_eq!(run_id_from_summary_url("/api/runs//summary"), None);
    assert_eq!(run_id_from_summary_url("/api/other/x"), None);
}

#[test]
fn mcp_replies_and_summaries() {
    let body = from_json(&mcp_tool_call_body("jailgun.run_summary", run_summary_arguments("run-1")));
    assert_eq!(
        body,
        v(r#"{"jsonrpc":"2.0","id":1,"method":"tools/call","params":{"name":"jailgun.run_summary","arguments":{"run_id":"run-1"}}}"#)
    );
    let ok = j(r#"{"result": {"structuredContent": {"version": 1}}}"#);
    assert!(mcp_structured_content(&ok).is_ok());
    assert_eq!(mcp_structured_content(&j(r#"{"error": {}}"#)).unwrap_err().message, "Jailgun MCP response contained an error");
    assert_eq!(mcp_structured_content(&j(r#"{}"#)).unwrap_err().message, "Jailgun MCP response missing result");
    assert_eq!(mcp_structured_content(&j(r#"{"result": {"isError": true}}"#)).unwrap_err().message, "Jailgun MCP tool returned an error");
    assert_eq!(mcp_structured_content(&j(r#"{"result": {}}"#)).unwrap_err().message, "Jailgun MCP response missing structuredContent");
    assert_eq!(check_summary_value(&j(r#"{"status":"running","version":1}"#), true).unwrap_err().message, "Jailgun MCP summary is still running");
    assert!(check_summary_value(&j(r#"{"status":"running","version":1}"#), false).is_ok());
    assert_eq!(mcp_poll_next("Jailgun MCP summary is still running", 0, 10), McpPoll::Retry);
    assert_eq!(mcp_poll_next("Jailgun MCP summary is still running", 10, 10), McpPoll::Fail("Jailgun MCP summary timed out".to_owned()));
    assert_eq!(mcp_poll_next("boom", 0, 10), McpPoll::Fail("boom".to_owned()));
}

#[test]
fn failed_cli_is_reported_by_digest() {
    let mut data = b"1".to_vec();
    data.extend_from_slice(b"\0stdout\0out\0stderr\0err");
    let expected = hex::encode(sha2::Sha256::digest(&data));
    assert_eq!(digest_output(Some(1), b"out", b"err"), expected);
    let none = hex::encode(sha2::Sha256::digest(b"-1\0stdout\0\0stderr\0"));
    assert_eq!(digest_output(None, b"", b""), none);
    assert!(check_command_output("review-packet", true, Some(0), b"", b"").is_ok());
    assert_eq!(
        check_command_output("review-packet", false, Some(1), b"out", b"err").unwrap_err().message,
        format!("jailgun review-packet failed with digest {expected}")
    );
    assert_eq!(launch_retry_delay_ms(0, true), Some(50));
    assert_eq!(launch_retry_delay_ms(3, true), Some(200));
    assert_eq!(launch_retry_delay_ms(4, true), None);
    assert_eq!(launch_retry_delay_ms(0, false), None);
}

#[test]
fn run_requests_are_canonicalized() {
    let out = canonicalize_run_request(j(r#"{"account": "a", "browser": {"x": 1}, "prompt_ref": "p"}"#)).unwrap();
    assert_eq!(from_json(&out), v(r#"{"browser": {"x": 1, "account_ids": ["a"]}, "prompt_ref": "p"}"#));
    let out = canonicalize_run_request(j(r#"{"account_ids": ["a", "b"], "browser": {"account_ids": ["a", "b"]}}"#)).unwrap();
    assert_eq!(from_json(&out), v(r#"{"browser": {"account_ids": ["a", "b"]}}"#));
    assert_eq!(
        canonicalize_run_request(j(r#"{"account_ids": ["a"], "account": "b"}"#)).unwrap_err().message,
        "conflicting Jailgun browser account routing aliases"
    );
    assert_eq!(
        canonicalize_run_request(j(r#"{"account_ids": ["a", "a"]}"#)).unwrap_err().message,
        "duplicate browser account id requested: a"
    );
    assert_eq!(
        canonicalize_run_request(j(r#"{"account_ids": ["a"], "browser": 3}"#)).unwrap_err().message,
        "browser must be a JSON object"
    );
    assert_eq!(
        canonicalize_run_request(j(r#"{"account": 3}"#)).unwrap_err().message,
        "account must be a browser account id string"
    );
    assert_eq!(canonicalize_run_request(j("[]")).unwrap_err().message, "Jailgun run request must be a JSON object");
    assert_eq!(
        account_ids(&j(r#"["a", 1]"#), "account_ids").unwrap_err().message,
        "account_ids[1] must be a string"
    );
    assert_eq!(
        account_ids(&j(r#"{"a": 1}"#), "browser.account_ids").unwrap_err().message,
        "browser.account_ids must be an array of browser account ids"
    );
    assert!(reject_duplicate_accounts(&vec!["a".to_owned(), "b".to_owned()]).is_ok());
    let again = canonicalize_run_request(canonicalize_run_request(j(r#"{"account": "a"}"#)).unwrap()).unwrap();
    assert_eq!(from_json(&again), v(r#"{"browser": {"account_ids": ["a"]}}"#));
}

#[test]
fn run_request_comes_from_request_or_path() {
    match run_request_source(j(r#"{"request": {"version": 1}, "request_path": "/p"}"#)).unwrap() {
        RunRequestSource::Inline(r) => assert_eq!(from_json(&r), v(r#"{"version": 1}"#)),
        RunRequestSource::File(_) => panic!("inline request wins"),
    }
    match run_request_source(j(r#"{"request_path": "/p"}"#)).unwrap() {
        RunRequestSource::File(p) => assert_eq!(p, "/p"),
        RunRequestSource::Inline(_) => panic!("path expected"),
    }
    assert_eq!(
        run_request_source(j("{}")).unwrap_err().message,
        "jailgun work order requires request_path or request"
    );
    assert!(accept_run_request(j("{}")).is_ok());
    assert_eq!(
        accept_run_request(j(r#"{"version": null}"#)).unwrap_err().message,
        "Jailgun run request requires version: 1"
    );
    assert_eq!(
        accept_run_request(j(r#"{"version": 3}"#)).unwrap_err().message,
        "unsupported Jailgun run request version 3; expected 1"
    );
    assert!(accept_run_request(j(r#"{"version": 1, "prompt_ref": "p"}"#)).is_ok());
}

#[test]
fn file_uris() {
    assert_eq!(file_uri("/a b"), "file:///a b");
}
