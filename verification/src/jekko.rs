//! The Jekko worker adapter: which work it takes, what it asks the engine, and
//! how an engine or router outcome becomes evidence.

use vstd::prelude::*;

use crate::crypto::{hex_encode, hex_lower, sha256, sha256_of};
use crate::domain::{
    adapter_card, adapter_error, fail_closed, fail_closed_text, text_list, AdapterError, ServiceCard,
    WorkOrder, ADAPTER_VERSION,
};
use crate::ecosystem::opt_text;
use crate::evidence::{ev, evidence_views, Evidence, EvidenceView};
use crate::json::{json_get_str, Json};
use crate::text::{concat, join, join_text, str_eq, texts, trim_end_char, trim_end_char_text};

verus! {

/// A unit of work handed to the Jekko engine.
#[derive(Clone, Debug, PartialEq, Eq)]
pub struct JekkoRunRequest {
    pub prompt: String,
    pub cwd: String,
    pub model: String,
}

/// A content artifact produced by a run.
#[derive(Clone, Debug, PartialEq, Eq)]
pub struct JekkoArtifact {
    pub kind: String,
    pub reference: String,
    pub digest: Option<String>,
}

/// The normalized outcome of a run.
#[derive(Clone, Debug, PartialEq, Eq)]
pub struct JekkoRunOutcome {
    pub run_ref: String,
    pub assistant_text: Option<String>,
    pub artifacts: Vec<JekkoArtifact>,
    pub success: bool,
    pub error: Option<String>,
}

/// Which engine surface a work-order kind goes to.
#[derive(Clone, Copy, Debug, PartialEq, Eq)]
pub enum Route {
    /// The autonomous router `worker_run` tool.
    Worker,
    /// Fusion-chat reasoning.
    Reason,
}

/// The route of a work-order kind, if the adapter takes it.
pub open spec fn route_spec(kind: Seq<char>) -> Option<Route> {
    if kind == "jekko.run"@ || kind == "jekko.task"@ || kind == "run"@ || kind == "worker"@ {
        Some(Route::Worker)
    } else if kind == "reason"@ {
        Some(Route::Reason)
    } else {
        None
    }
}

/// Routes a work-order kind: worker kinds to `worker_run`, `reason` to chat.
pub fn route_for(kind: &str) -> (r: Option<Route>)
    ensures
        r == route_spec(kind@),
{
    if str_eq(kind, "jekko.run") || str_eq(kind, "jekko.task") || str_eq(kind, "run") || str_eq(
        kind,
        "worker",
    ) {
        Some(Route::Worker)
    } else if str_eq(kind, "reason") {
        Some(Route::Reason)
    } else {
        None
    }
}

/// The prompt for a work order: the payload's `prompt` string, else the kind,
/// a blank line, and the payload's JSON text.
pub open spec fn prompt_spec(kind: Seq<char>, payload: Json, payload_text: Seq<char>) -> Seq<char> {
    match json_get_str(payload, "prompt"@) {
        Some(p) => p,
        None => kind + "\n\n"@ + payload_text,
    }
}

/// The prompt for a work order; `payload_text` is the payload's compact JSON text.
pub fn prompt_for(order: &WorkOrder, payload_text: &str) -> (prompt: String)
    ensures
        prompt@ == prompt_spec(order.task.kind@, order.task.payload, payload_text@),
{
    match order.task.payload.get_str("prompt") {
        Some(p) => p.to_owned(),
        None => concat(concat(order.task.kind.as_str(), "\n\n").as_str(), payload_text),
    }
}

/// The Jekko adapter: the model it asks the engine to use.
#[derive(Clone, Debug, PartialEq, Eq)]
pub struct JekkoAdapter {
    pub model: String,
}

impl JekkoAdapter {
    /// An adapter that runs work with `model`.
    pub fn new(model: String) -> (a: JekkoAdapter)
        ensures
            a.model@ == model@,
    {
        JekkoAdapter { model }
    }

    /// What to ask the engine for a work order: its route and the run request,
    /// whose `cwd` is the payload's `cwd` string, else `.`. Kinds the adapter does
    /// not take fail closed.
    pub fn plan(&self, order: &WorkOrder, payload_text: &str) -> (r: Result<
        (Route, JekkoRunRequest),
        AdapterError,
    >)
        ensures
            match r {
                Ok((route, request)) => {
                    &&& route_spec(order.task.kind@) == Some(route)
                    &&& request.prompt@ == prompt_spec(
                        order.task.kind@,
                        order.task.payload,
                        payload_text@,
                    )
                    &&& request.cwd@ == (match json_get_str(order.task.payload, "cwd"@) {
                        Some(c) => c,
                        None => "."@,
                    })
                    &&& request.model@ == self.model@
                },
                Err(e) => route_spec(order.task.kind@) is None && e.message@ == fail_closed_text(
                    "jekko"@,
                ),
            },
    {
        let route = match route_for(order.task.kind.as_str()) {
            Some(route) => route,
            None => {
                return Err(fail_closed("jekko"));
            },
        };
        let cwd = match order.task.payload.get_str("cwd") {
            Some(cwd) => cwd.to_owned(),
            None => ".".to_owned(),
        };
        let request = JekkoRunRequest {
            prompt: prompt_for(order, payload_text),
            cwd,
            model: self.model.clone(),
        };
        Ok((route, request))
    }
}

/// The evidence URI of an artifact: `sha256:{digest}` when it has a digest,
/// else its reference.
pub open spec fn artifact_uri_spec(digest: Option<String>, reference: Seq<char>) -> Seq<char> {
    match digest {
        Some(d) => "sha256:"@ + d@,
        None => reference,
    }
}

/// The evidence of a successful run: the run, the digest of the assistant text
/// when there is one, and one record per artifact.
pub open spec fn jekko_evidence_spec(o: JekkoRunOutcome) -> Seq<EvidenceView> {
    let run = seq![ev("jekko.run"@, "jekko://run/"@ + o.run_ref@)];
    let text = match o.assistant_text {
        Some(t) => seq![
            ev(
                "jekko.assistant.digest"@,
                "sha256:"@ + hex_lower(sha256_of(vstd::utf8::encode_utf8(t@))),
            ),
        ],
        None => seq![],
    };
    run + text + Seq::new(
        o.artifacts@.len(),
        |i: int|
            ev(
                "jekko.artifact."@ + o.artifacts@[i].kind@,
                artifact_uri_spec(o.artifacts@[i].digest, o.artifacts@[i].reference@),
            ),
    )
}

/// `sha256:` and the lower-case hex SHA-256 of the UTF-8 bytes of `text`.
pub fn text_digest_uri(text: &str) -> (uri: String)
    ensures
        uri@ == "sha256:"@ + hex_lower(sha256_of(vstd::utf8::encode_utf8(text@))),
{
    let digest = sha256(text.as_bytes());
    let hex = hex_encode(digest.as_slice());
    concat("sha256:", hex.as_str())
}

/// The evidence URI of an artifact.
pub fn artifact_uri(digest: &Option<String>, reference: &str) -> (uri: String)
    ensures
        uri@ == artifact_uri_spec(*digest, reference@),
{
    match digest {
        Some(d) => concat("sha256:", d.as_str()),
        None => reference.to_owned(),
    }
}

/// Maps a successful run outcome into evidence.
pub fn evidence_for(outcome: &JekkoRunOutcome) -> (evidence: Vec<Evidence>)
    ensures
        evidence_views(evidence@) == jekko_evidence_spec(*outcome),
{
    let ghost want = jekko_evidence_spec(*outcome);
    let mut evidence: Vec<Evidence> = Vec::new();
    evidence.push(
        Evidence {
            kind: "jekko.run".to_owned(),
            uri: concat("jekko://run/", outcome.run_ref.as_str()),
        },
    );
    match &outcome.assistant_text {
        Some(text) => {
            evidence.push(
                Evidence {
                    kind: "jekko.assistant.digest".to_owned(),
                    uri: text_digest_uri(text.as_str()),
                },
            );
        },
        None => {},
    }
    let base = evidence.len();
    let mut i: usize = 0;
    while i < outcome.artifacts.len()
        invariant
            i <= outcome.artifacts@.len(),
            base == (if outcome.assistant_text is Some { 2int } else { 1int }),
            want == jekko_evidence_spec(*outcome),
            want.len() == base + outcome.artifacts@.len(),
            evidence@.len() == base + i,
            forall|j: int| 0 <= j < base + i ==> (#[trigger] evidence@[j])@ == want[j],
        decreases outcome.artifacts@.len() - i,
    {
        let artifact = &outcome.artifacts[i];
        evidence.push(
            Evidence {
                kind: concat("jekko.artifact.", artifact.kind.as_str()),
                uri: artifact_uri(&artifact.digest, artifact.reference.as_str()),
            },
        );
        i = i + 1;
    }
    assert(evidence_views(evidence@) =~= want);
    evidence
}

/// `jekko run failed: ` and the outcome's error, else `unknown error`.
pub open spec fn run_failed_text(error: Option<String>) -> Seq<char> {
    "jekko run failed: "@ + match error {
        Some(e) => e@,
        None => "unknown error"@,
    }
}

/// What the adapter reports for an engine outcome: its evidence when the run
/// succeeded, else an error carrying the run's error text. Never empty success.
pub fn settle_outcome(outcome: &JekkoRunOutcome) -> (r: Result<Vec<Evidence>, AdapterError>)
    ensures
        match r {
            Ok(evidence) => outcome.success && evidence_views(evidence@) == jekko_evidence_spec(
                *outcome,
            ),
            Err(e) => !outcome.success && e.message@ == run_failed_text(outcome.error),
        },
{
    if !outcome.success {
        let text = match &outcome.error {
            Some(e) => e.as_str(),
            None => "unknown error",
        };
        return Err(adapter_error(concat("jekko run failed: ", text)));
    }
    Ok(evidence_for(outcome))
}

// ---------------------------------------------------------------- worker_run

/// One concrete file mutation reported by the worker.
#[derive(Clone, Debug, Default, PartialEq, Eq)]
pub struct WorkerFileChange {
    pub path: String,
    pub before_sha256: Option<String>,
    pub after_sha256: Option<String>,
}

/// The worker's report: what it read, changed, ran, and failed at.
#[derive(Clone, Debug, Default, PartialEq, Eq)]
pub struct WorkerReport {
    pub files_read: Vec<String>,
    pub files_changed: Vec<String>,
    pub file_changes: Vec<WorkerFileChange>,
    pub commands_run: Vec<String>,
    pub failures: Vec<String>,
}

/// The structured result of a `worker_run` or `job_result` call; a result that
/// does not have this shape is read as the default (all fields missing).
#[derive(Clone, Debug, Default, PartialEq, Eq)]
pub struct WorkerStructured {
    pub job_id: Option<String>,
    pub status: Option<String>,
    pub summary: Option<String>,
    pub report: WorkerReport,
    pub raw_model_summary: Option<String>,
}

/// A present, non-empty text.
pub open spec fn non_empty_spec(o: Option<String>) -> Option<Seq<char>> {
    match o {
        Some(s) => if s@.len() > 0 {
            Some(s@)
        } else {
            None
        },
        None => None,
    }
}

/// Keeps the value only when it is present and non-empty.
pub fn non_empty_owned(value: Option<String>) -> (r: Option<String>)
    ensures
        opt_text(r) == non_empty_spec(value),
{
    match value {
        Some(v) => if v.unicode_len() > 0 {
            Some(v)
        } else {
            None
        },
        None => None,
    }
}

/// The run reference: the job id when non-empty, else `jnoccio-worker`.
pub open spec fn run_ref_spec(job_id: Option<String>) -> Seq<char> {
    match non_empty_spec(job_id) {
        Some(v) => v,
        None => "jnoccio-worker"@,
    }
}

/// The job id when non-empty, else `jnoccio-worker`.
pub fn run_ref_or_default(job_id: Option<String>) -> (r: String)
    ensures
        r@ == run_ref_spec(job_id),
{
    match non_empty_owned(job_id) {
        Some(v) => v,
        None => "jnoccio-worker".to_owned(),
    }
}

/// The worker's status text, empty when missing.
pub open spec fn status_text(w: WorkerStructured) -> Seq<char> {
    match w.status {
        Some(s) => s@,
        None => seq![],
    }
}

/// `outcome` is the normalized form of the worker's structured result.
pub open spec fn worker_outcome_spec(outcome: JekkoRunOutcome, w: WorkerStructured) -> bool {
    &&& outcome.run_ref@ == run_ref_spec(w.job_id)
    &&& opt_text(outcome.assistant_text) == (match non_empty_spec(w.summary) {
        Some(t) => Some(t),
        None => non_empty_spec(w.raw_model_summary),
    })
    &&& outcome.artifacts@.len() == w.report.file_changes@.len()
    &&& forall|i: int|
        0 <= i < outcome.artifacts@.len() ==> {
            &&& (#[trigger] outcome.artifacts@[i]).kind@ == "file"@
            &&& outcome.artifacts@[i].reference@ == w.report.file_changes@[i].path@
            &&& opt_text(outcome.artifacts@[i].digest) == opt_text(
                w.report.file_changes@[i].after_sha256,
            )
        }
    &&& outcome.success == (status_text(w) == "succeeded"@)
    &&& opt_text(outcome.error) == (if status_text(w) == "failed"@ {
        Some(
            if join_text(texts(w.report.failures@), "; "@).len() == 0 {
                "jekko worker_run failed"@
            } else {
                join_text(texts(w.report.failures@), "; "@)
            },
        )
    } else {
        None
    })
}

fn clone_opt_text(o: &Option<String>) -> (c: Option<String>)
    ensures
        opt_text(c) == opt_text(*o),
{
    match o {
        Some(s) => Some(s.clone()),
        None => None,
    }
}

/// Pure mapping from a worker's structured result to a run outcome: the job id
/// (or `jnoccio-worker`) as run reference, the summary (or the raw model
/// summary) as assistant text, one `file` artifact per file change with its
/// after-digest, success exactly on `succeeded`, and on `failed` the failures
/// joined with `; ` (or a default message when that leaves nothing).
pub fn map_worker_outcome(worker: &WorkerStructured) -> (outcome: JekkoRunOutcome)
    ensures
        worker_outcome_spec(outcome, *worker),
{
    let status: &str = match &worker.status {
        Some(s) => s.as_str(),
        None => "",
    };
    proof {
        reveal_strlit("");
        assert(status@ == status_text(*worker));
    }
    let success = str_eq(status, "succeeded");
    let assistant_text = match non_empty_owned(clone_opt_text(&worker.summary)) {
        Some(t) => Some(t),
        None => non_empty_owned(clone_opt_text(&worker.raw_model_summary)),
    };
    let mut artifacts: Vec<JekkoArtifact> = Vec::new();
    let mut i: usize = 0;
    while i < worker.report.file_changes.len()
        invariant
            i <= worker.report.file_changes@.len(),
            artifacts@.len() == i,
            forall|j: int|
                0 <= j < i ==> {
                    &&& (#[trigger] artifacts@[j]).kind@ == "file"@
                    &&& artifacts@[j].reference@ == worker.report.file_changes@[j].path@
                    &&& opt_text(artifacts@[j].digest) == opt_text(
                        worker.report.file_changes@[j].after_sha256,
                    )
                },
        decreases worker.report.file_changes@.len() - i,
    {
        let change = &worker.report.file_changes[i];
        artifacts.push(
            JekkoArtifact {
                kind: "file".to_owned(),
                reference: change.path.clone(),
                digest: clone_opt_text(&change.after_sha256),
            },
        );
        i = i + 1;
    }
    let error = if str_eq(status, "failed") {
        let joined = join(worker.report.failures.as_slice(), "; ");
        if joined.unicode_len() == 0 {
            Some("jekko worker_run failed".to_owned())
        } else {
            Some(joined)
        }
    } else {
        None
    };
    JekkoRunOutcome {
        run_ref: run_ref_or_default(clone_opt_text(&worker.job_id)),
        assistant_text,
        artifacts,
        success,
        error,
    }
}

/// The `status` string of a structured result, if it has one.
pub fn status_of(structured: &Json) -> (s: Option<&str>)
    ensures
        match s {
            Some(t) => json_get_str(*structured, "status"@) == Some(t@),
            None => json_get_str(*structured, "status"@) is None,
        },
{
    structured.get_str("status")
}

/// The `job_id` of a structured result, when it is a non-empty string.
pub fn job_id_of(structured: &Json) -> (j: Option<String>)
    ensures
        opt_text(j) == match json_get_str(*structured, "job_id"@) {
            Some(t) => if t.len() > 0 {
                Some(t)
            } else {
                None
            },
            None => None,
        },
{
    match structured.get_str("job_id") {
        Some(t) => non_empty_owned(Some(t.to_owned())),
        None => None,
    }
}

/// The job id of a structured result that reports a detached, still running
/// job: its `status` is `running` and its `job_id` is a non-empty string.
pub open spec fn detached_job_spec(structured: Json) -> Option<Seq<char>> {
    match json_get_str(structured, "status"@) {
        Some(s) => if s == "running"@ {
            match json_get_str(structured, "job_id"@) {
                Some(j) => if j.len() > 0 {
                    Some(j)
                } else {
                    None
                },
                None => None,
            }
        } else {
            None
        },
        None => None,
    }
}

/// The job to poll when a `worker_run` result is detached and still running.
pub fn detached_job(structured: &Json) -> (job: Option<String>)
    ensures
        opt_text(job) == detached_job_spec(*structured),
{
    match structured.get_str("status") {
        Some(s) => if str_eq(s, "running") {
            match structured.get_str("job_id") {
                Some(j) => if j.unicode_len() > 0 {
                    Some(j.to_owned())
                } else {
                    None
                },
                None => None,
            }
        } else {
            None
        },
        None => None,
    }
}

/// Whether a polled `job_result` has settled, i.e. its status is not `running`.
pub fn job_settled(structured: &Json) -> (settled: bool)
    ensures
        settled == (json_get_str(*structured, "status"@) != Some("running"@)),
{
    match structured.get_str("status") {
        Some(s) => !str_eq(s, "running"),
        None => true,
    }
}

// ---------------------------------------------------------------- engine client

/// The engine's default address.
pub const DEFAULT_JEKKO_BASE_URL: &'static str = "http://127.0.0.1:4317";

/// The model router's default address.
pub const DEFAULT_JNOCCIO_BASE_URL: &'static str = "http://127.0.0.1:8765";

/// The model work runs with unless configured otherwise.
pub const DEFAULT_MODEL: &'static str = "jnoccio/jnoccio-fusion";

/// A setting's value when it is set and not empty, else the default.
pub open spec fn setting_or_spec(value: Option<Seq<char>>, default: Seq<char>) -> Seq<char> {
    match value {
        Some(v) => if v.len() > 0 {
            v
        } else {
            default
        },
        None => default,
    }
}

/// A setting's value when it is set and not empty, else the default.
pub fn setting_or(value: Option<String>, default: &str) -> (r: String)
    ensures
        r@ == setting_or_spec(opt_text(value), default@),
{
    match value {
        Some(v) => if v.unicode_len() > 0 {
            v
        } else {
            default.to_owned()
        },
        None => default.to_owned(),
    }
}

/// A non-empty secret, or none.
pub fn non_empty_secret(value: Option<String>) -> (r: Option<String>)
    ensures
        opt_text(r) == (match opt_text(value) {
            Some(v) => if v.len() > 0 {
                Some(v)
            } else {
                None
            },
            None => None,
        }),
{
    match value {
        Some(v) => if v.unicode_len() > 0 {
            Some(v)
        } else {
            None
        },
        None => None,
    }
}

/// An endpoint under a base URL: the base without trailing slashes, then the
/// path.
pub fn service_url(base: &str, path: &str) -> (url: String)
    ensures
        url@ == trim_end_char_text(base@, '/') + path@,
{
    let b = trim_end_char(base, '/');
    concat(b.as_str(), path)
}

/// The outcome of a chat run: the reply's id (`jnoccio` when it has none)
/// and the first choice's text; no artifacts; a success.
pub fn chat_outcome(id: Option<String>, first_content: Option<String>) -> (outcome: JekkoRunOutcome)
    ensures
        outcome.run_ref@ == (match id {
            Some(i) => i@,
            None => "jnoccio"@,
        }),
        opt_text(outcome.assistant_text) == opt_text(first_content),
        outcome.artifacts@.len() == 0,
        outcome.success,
        outcome.error is None,
{
    let run_ref = match id {
        Some(i) => i,
        None => "jnoccio".to_owned(),
    };
    JekkoRunOutcome {
        run_ref,
        assistant_text: first_content,
        artifacts: Vec::new(),
        success: true,
        error: None,
    }
}

/// The error of a router tool call that answered with an error.
pub fn tool_error_text(name: &str, message: Option<String>) -> (m: String)
    ensures
        m@ == "jnoccio worker "@ + name@ + " error: "@ + (match message {
            Some(t) => t@,
            None => "unknown error"@,
        }),
{
    let mut m = concat("jnoccio worker ", name);
    m.append(" error: ");
    match message {
        Some(t) => m.append(t.as_str()),
        None => m.append("unknown error"),
    }
    m
}

impl JekkoAdapter {
    /// The adapter as configured: the model setting when it is set and not
    /// empty, else [`DEFAULT_MODEL`].
    pub fn configured(model_setting: Option<String>) -> (a: JekkoAdapter)
        ensures
            a.model@ == setting_or_spec(opt_text(model_setting), DEFAULT_MODEL@),
    {
        JekkoAdapter { model: setting_or(model_setting, DEFAULT_MODEL) }
    }

    /// What the adapter advertises.
    pub fn service_card(&self) -> (card: ServiceCard)
        ensures
            card.name@ == "jekko"@,
            card.version@ == ADAPTER_VERSION@,
            texts(card.subjects@) == seq!["*/jekko/*"@],
            texts(card.capabilities@) == seq!["worker"@, "reasoning"@, "jnoccio-router"@],
    {
        let caps = text_list(&["worker", "reasoning", "jnoccio-router"]);
        proof {
            reveal_strlit("*/");
            reveal_strlit("/*");
            reveal_strlit("jekko");
            reveal_strlit("*/jekko/*");
            assert("*/"@ + "jekko"@ + "/*"@ =~= "*/jekko/*"@);
        }
        adapter_card("jekko", caps)
    }
}

/// A worker outcome always names its run, succeeds exactly on `succeeded`,
/// carries a non-empty error exactly on `failed`, and has one `file`
/// artifact per file change.
pub proof fn law_worker_outcome_invariants(outcome: JekkoRunOutcome, w: WorkerStructured)
    requires
        worker_outcome_spec(outcome, w),
    ensures
        outcome.run_ref@.len() > 0,
        outcome.success <==> status_text(w) == "succeeded"@,
        outcome.error is Some <==> status_text(w) == "failed"@,
        outcome.error matches Some(e) ==> e@.len() > 0,
        outcome.artifacts@.len() == w.report.file_changes@.len(),
        forall|i: int|
            0 <= i < outcome.artifacts@.len() ==> (#[trigger] outcome.artifacts@[i]).kind@
                == "file"@,
{
    reveal_strlit("jnoccio-worker");
    reveal_strlit("jekko worker_run failed");
}

} // verus!
