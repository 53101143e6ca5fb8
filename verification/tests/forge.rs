use jcp_protocol::forge::{ci_run_evidence, is_forge_kind, run_id_for, JeryuAdapter, JeryuArtifact, JeryuCiRun};
use jcp_protocol::json::Json;
use sha2::Digest;

fn ok_run() -> JeryuCiRun {
    JeryuCiRun {
        run_id: "run-42".to_owned(),
        status: Some("success".to_owned()),
        commit_sha: Some("deadbeef".to_owned()),
        artifacts: vec![JeryuArtifact {
            kind: "junit".to_owned(),
            reference: "junit.xml".to_owned(),
            digest: Some("abc".to_owned()),
        }],
    }
}

#[test]
fn maps_ci_run_to_evidence_records() {
    let evidence = ci_run_evidence(&ok_run());
    assert_eq!(evidence[0].kind, "jeryu.ci-run");
    assert_eq!(evidence[0].uri, "jeryu://ci/run/run-42");
    assert!(evidence.iter().any(|e| e.kind == "jeryu.ci-run.commit" && e.uri == "jeryu://commit/deadbeef"));
    assert!(evidence.iter().any(|e| e.kind == "jeryu.artifact.junit" && e.uri == "sha256:abc"));
    let digest = evidence.last().unwrap();
    assert_eq!(digest.kind, "jeryu.ci-run.digest");
    let expected = hex::encode(sha2::Sha256::digest(b"run-42|success"));
    assert_eq!(digest.uri, format!("sha256:{expected}"));
    assert_eq!(evidence.len(), 4);
}

#[test]
fn ci_evidence_without_commit_or_artifacts() {
    let run = JeryuCiRun { run_id: "r".to_owned(), status: None, commit_sha: None, artifacts: Vec::new() };
    let evidence = ci_run_evidence(&run);
    assert_eq!(evidence.len(), 2);
    assert_eq!(evidence[1].kind, "jeryu.ci-run.digest");
}

#[test]
fn forge_kinds_are_accepted_others_fail_closed() {
    let adapter = JeryuAdapter::new();
    assert!(adapter.accept_kind("jeryu.ci").is_ok());
    assert!(adapter.accept_kind("jeryu.snapshot").is_ok());
    assert!(is_forge_kind("jeryu.evidence"));
    assert_eq!(
        adapter.accept_kind("unrelated.kind").unwrap_err().message,
        "jeryu adapter is not configured; failing closed"
    );
}

#[test]
fn missing_run_id_fails_closed() {
    let payload = Json::Object(vec![("run_id".to_owned(), Json::String("run-42".to_owned()))]);
    assert_eq!(run_id_for(&payload), Ok("run-42".to_owned()));
    assert_eq!(
        run_id_for(&Json::Object(Vec::new())).unwrap_err().message,
        "jeryu work order missing run_id"
    );
}

#[test]
fn service_card_advertises_forge_capabilities() {
    let card = JeryuAdapter::new().service_card();
    assert_eq!(card.name, "jeryu");
    assert!(card.capabilities.iter().any(|c| c == "ci-evidence"));
}
