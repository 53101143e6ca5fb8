//! The Jailgun local worker adapter: routing, the wire-protocol checks on
//! requests and durable artifacts, the local-origin rules for its endpoints,
//! and the evidence a finished run or review packet yields.

use vstd::prelude::*;

use crate::crypto::{hex_encode, hex_lower, sha256, sha256_of};
use crate::domain::{
    adapter_card, adapter_error, fail_closed, fail_closed_text, text_list, AdapterError, ServiceCard,
    ADAPTER_VERSION,
};
use crate::ecosystem::opt_text;
use crate::evidence::{ev, evidence_views, Evidence, EvidenceView};
use crate::jekko::text_digest_uri;
use crate::json::{json_get, json_get_str, json_u64, Json, JsonNumber};
use crate::text::{
    concat, contains, decimal, decimal_text, join, join_text, split_on, split_text, starts_with,
    str_eq, texts, trim, trim_end_char, trim_end_char_text, trim_start_char, trim_start_char_text,
    trim_text,
};

verus! {

/// What a Jailgun work-order kind is routed to.
#[derive(Clone, Copy, Debug, PartialEq, Eq)]
pub enum JailgunRoute {
    /// A run through the HTTP ingest endpoint; deploys must produce receipts.
    RunAgent { receipt_required: bool },
    /// A review packet through the bounded CLI.
    ReviewPacket,
}

/// The route of a work-order kind, if the adapter takes it.
pub open spec fn jailgun_route_spec(kind: Seq<char>) -> Option<JailgunRoute> {
    if kind == "jailgun.run"@ || kind == "jailgun.capture"@ {
        Some(JailgunRoute::RunAgent { receipt_required: false })
    } else if kind == "jailgun.deploy"@ {
        Some(JailgunRoute::RunAgent { receipt_required: true })
    } else if kind == "jailgun.review_packet"@ {
        Some(JailgunRoute::ReviewPacket)
    } else {
        None
    }
}

/// Routes a work-order kind.
pub fn route_for(kind: &str) -> (r: Option<JailgunRoute>)
    ensures
        r == jailgun_route_spec(kind@),
{
    if str_eq(kind, "jailgun.run") || str_eq(kind, "jailgun.capture") {
        Some(JailgunRoute::RunAgent { receipt_required: false })
    } else if str_eq(kind, "jailgun.deploy") {
        Some(JailgunRoute::RunAgent { receipt_required: true })
    } else if str_eq(kind, "jailgun.review_packet") {
        Some(JailgunRoute::ReviewPacket)
    } else {
        None
    }
}

/// `file://` and the path.
pub open spec fn file_uri_spec(path: Seq<char>) -> Seq<char> {
    "file://"@ + path
}

/// The `file://` URI of a path.
pub fn file_uri(path: &str) -> (uri: String)
    ensures
        uri@ == file_uri_spec(path@),
{
    concat("file://", path)
}

// ---------------------------------------------------------------- wire protocol

/// The wire version this adapter speaks.
pub const JAILGUN_WIRE_VERSION: u64 = 1;

/// The version check of a wire value: `version` must be the non-negative
/// integer 1.
pub open spec fn wire_version_error(value: Json, context: Seq<char>) -> Option<Seq<char>> {
    match json_u64(json_get(value, "version"@)) {
        Some(v) => if v == 1 {
            None
        } else {
            Some(
                "unsupported "@ + context + " version "@ + decimal_text(v as nat) + "; expected 1"@,
            )
        },
        None => Some(context + " requires version: 1"@),
    }
}

/// Checks that a wire value carries version 1.
pub fn require_wire_version(value: &Json, context: &str) -> (r: Result<(), AdapterError>)
    ensures
        match r {
            Ok(()) => wire_version_error(*value, context@) is None,
            Err(e) => wire_version_error(*value, context@) == Some(e.message@),
        },
{
    let version = match value.get("version") {
        Some(v) => v.as_u64(),
        None => None,
    };
    match version {
        Some(v) => if v == JAILGUN_WIRE_VERSION {
            Ok(())
        } else {
            let mut m = concat(concat("unsupported ", context).as_str(), " version ");
            let d = decimal(v);
            m.append(d.as_str());
            m.append("; expected 1");
            Err(adapter_error(m))
        },
        None => Err(adapter_error(concat(context, " requires version: 1"))),
    }
}

/// The version check of a request the control plane hands to Jailgun: a
/// request without a `version` member is taken as the current version; one
/// with it must say 1.
pub open spec fn request_version_error(value: Json, context: Seq<char>) -> Option<Seq<char>> {
    if json_get(value, "version"@) is None {
        None
    } else {
        wire_version_error(value, context)
    }
}

/// Checks a request's wire version: absent, or 1.
pub fn check_request_version(value: &Json, context: &str) -> (r: Result<(), AdapterError>)
    ensures
        match r {
            Ok(()) => request_version_error(*value, context@) is None,
            Err(e) => request_version_error(*value, context@) == Some(e.message@),
        },
{
    match value.get("version") {
        None => Ok(()),
        Some(_) => require_wire_version(value, context),
    }
}

/// Some object inside the value has a `prompt_text` or `prompt` member.
pub open spec fn has_prompt_key(j: Json) -> bool
    decreases j,
{
    match j {
        Json::Object(entries) => (exists|i: int|
            0 <= i < entries@.len() && ((#[trigger] entries@[i]).0@ == "prompt_text"@
                || entries@[i].0@ == "prompt"@)) || exists|i: int|
            0 <= i < entries@.len() && has_prompt_key((#[trigger] entries@[i]).1),
        Json::Array(items) => exists|i: int|
            0 <= i < items@.len() && has_prompt_key(#[trigger] items@[i]),
        _ => false,
    }
}

fn any_prompt_key(entries: &Vec<(String, Json)>) -> (r: bool)
    ensures
        r == exists|i: int|
            0 <= i < entries@.len() && ((#[trigger] entries@[i]).0@ == "prompt_text"@
                || entries@[i].0@ == "prompt"@),
{
    let mut i: usize = 0;
    while i < entries.len()
        invariant
            i <= entries@.len(),
            forall|k: int|
                0 <= k < i ==> !((#[trigger] entries@[k]).0@ == "prompt_text"@ || entries@[k].0@
                    == "prompt"@),
        decreases entries@.len() - i,
    {
        let key = entries[i].0.as_str();
        if str_eq(key, "prompt_text") || str_eq(key, "prompt") {
            return true;
        }
        i = i + 1;
    }
    false
}

fn contains_prompt_key(j: &Json) -> (r: bool)
    ensures
        r == has_prompt_key(*j),
    decreases j,
{
    match j {
        Json::Object(entries) => {
            if any_prompt_key(entries) {
                return true;
            }
            let mut i: usize = 0;
            while i < entries.len()
                invariant
                    i <= entries@.len(),
                    *j == Json::Object(*entries),
                    forall|k: int| 0 <= k < i ==> !has_prompt_key((#[trigger] entries@[k]).1),
                decreases entries@.len() - i,
            {
                proof {
                    assert(decreases_to!(*j => (*j)->Object_0));
                    assert(decreases_to!(*entries => entries@));
                    assert(decreases_to!(entries@ => entries@[i as int]));
                    assert(decreases_to!(entries@[i as int] => entries@[i as int].1));
                }
                if contains_prompt_key(&entries[i].1) {
                    assert(has_prompt_key(entries@[i as int].1));
                    return true;
                }
                i = i + 1;
            }
            false
        },
        Json::Array(items) => {
            let mut i: usize = 0;
            while i < items.len()
                invariant
                    i <= items@.len(),
                    *j == Json::Array(*items),
                    forall|k: int| 0 <= k < i ==> !has_prompt_key(#[trigger] items@[k]),
                decreases items@.len() - i,
            {
                proof {
                    assert(decreases_to!(*j => (*j)->Array_0));
                    assert(decreases_to!(*items => items@));
                    assert(decreases_to!(items@ => items@[i as int]));
                }
                if contains_prompt_key(&items[i]) {
                    assert(has_prompt_key(items@[i as int]));
                    return true;
                }
                i = i + 1;
            }
            false
        },
        _ => false,
    }
}

/// Durable artifacts must never carry prompt text: no object anywhere inside
/// may have a `prompt_text` or `prompt` member.
pub fn ensure_no_prompt_text(value: &Json) -> (r: Result<(), AdapterError>)
    ensures
        match r {
            Ok(()) => !has_prompt_key(*value),
            Err(e) => has_prompt_key(*value) && e.message@
                == "Jailgun durable artifact contains prompt text key"@,
        },
{
    if contains_prompt_key(value) {
        Err(adapter_error("Jailgun durable artifact contains prompt text key".to_owned()))
    } else {
        Ok(())
    }
}

/// `jailgun work order missing {key}`.
pub open spec fn missing_text(key: Seq<char>) -> Seq<char> {
    "jailgun work order missing "@ + key
}

/// The payload's string member `key`, which must be present.
pub fn required_str(payload: &Json, key: &str) -> (r: Result<String, AdapterError>)
    ensures
        match r {
            Ok(s) => json_get_str(*payload, key@) == Some(s@),
            Err(e) => json_get_str(*payload, key@) is None && e.message@ == missing_text(key@),
        },
{
    match payload.get_str(key) {
        Some(s) => Ok(s.to_owned()),
        None => Err(adapter_error(concat("jailgun work order missing ", key))),
    }
}

/// The payload's string member `key`, if present.
pub fn payload_str(payload: &Json, key: &str) -> (r: Option<String>)
    ensures
        opt_text(r) == json_get_str(*payload, key@),
{
    match payload.get_str(key) {
        Some(s) => Some(s.to_owned()),
        None => None,
    }
}

/// A review-packet request.
#[derive(Clone, Debug, PartialEq, Eq)]
pub struct ReviewPacketRequest {
    pub cwd: String,
    pub summary_json: String,
    pub base: String,
    pub head: String,
    pub repo: String,
    pub output: String,
    pub patch_bytes: u64,
}

/// The text, or `default` when missing.
pub open spec fn or_text(o: Option<Seq<char>>, default: Seq<char>) -> Seq<char> {
    match o {
        Some(s) => s,
        None => default,
    }
}

/// The first error a review-packet payload has, in checking order.
pub open spec fn review_packet_error(payload: Json) -> Option<Seq<char>> {
    match request_version_error(payload, "Jailgun review-packet request"@) {
        Some(e) => Some(e),
        None => if json_get_str(payload, "summary_json"@) is None {
            Some(missing_text("summary_json"@))
        } else if json_get_str(payload, "base"@) is None {
            Some(missing_text("base"@))
        } else if json_get_str(payload, "head"@) is None {
            Some(missing_text("head"@))
        } else if json_get_str(payload, "output"@) is None {
            Some(missing_text("output"@))
        } else {
            None
        },
    }
}

/// Reads a review-packet request from a payload: no version, or version 1; `summary_json`,
/// `base`, `head` and `output` required; `cwd` and `repo` default to `.`;
/// `patch_bytes` defaults to 128 KiB.
pub fn review_packet_request(payload: &Json) -> (r: Result<ReviewPacketRequest, AdapterError>)
    ensures
        match r {
            Ok(req) => {
                &&& review_packet_error(*payload) is None
                &&& req.cwd@ == or_text(json_get_str(*payload, "cwd"@), "."@)
                &&& Some(req.summary_json@) == json_get_str(*payload, "summary_json"@)
                &&& Some(req.base@) == json_get_str(*payload, "base"@)
                &&& Some(req.head@) == json_get_str(*payload, "head"@)
                &&& req.repo@ == or_text(json_get_str(*payload, "repo"@), "."@)
                &&& Some(req.output@) == json_get_str(*payload, "output"@)
                &&& req.patch_bytes == (match json_u64(json_get(*payload, "patch_bytes"@)) {
                    Some(n) => n,
                    None => 131072,
                })
            },
            Err(e) => review_packet_error(*payload) == Some(e.message@),
        },
{
    match check_request_version(payload, "Jailgun review-packet request") {
        Err(e) => {
            return Err(e);
        },
        Ok(()) => {},
    }
    let cwd = match payload_str(payload, "cwd") {
        Some(c) => c,
        None => ".".to_owned(),
    };
    let summary_json = match required_str(payload, "summary_json") {
        Ok(s) => s,
        Err(e) => {
            return Err(e);
        },
    };
    let base = match required_str(payload, "base") {
        Ok(s) => s,
        Err(e) => {
            return Err(e);
        },
    };
    let head = match required_str(payload, "head") {
        Ok(s) => s,
        Err(e) => {
            return Err(e);
        },
    };
    let repo = match payload_str(payload, "repo") {
        Some(r) => r,
        None => ".".to_owned(),
    };
    let output = match required_str(payload, "output") {
        Ok(s) => s,
        Err(e) => {
            return Err(e);
        },
    };
    let patch_bytes = match payload.get("patch_bytes") {
        Some(v) => match v.as_u64() {
            Some(n) => n,
            None => 131072,
        },
        None => 131072,
    };
    Ok(ReviewPacketRequest { cwd, summary_json, base, head, repo, output, patch_bytes })
}

/// The evidence of a review packet written to `output`, once the packet's
/// JSON passes the version and no-prompt-text checks.
pub fn review_packet_evidence(output: &str, packet: &Json) -> (r: Result<Vec<Evidence>, AdapterError>)
    ensures
        match r {
            Ok(evidence) => {
                &&& wire_version_error(*packet, "Jailgun review packet"@) is None
                &&& !has_prompt_key(*packet)
                &&& evidence_views(evidence@) == seq![
                    ev("jailgun.review_packet"@, file_uri_spec(output@)),
                ]
            },
            Err(e) => match wire_version_error(*packet, "Jailgun review packet"@) {
                Some(m) => e.message@ == m,
                None => has_prompt_key(*packet) && e.message@
                    == "Jailgun durable artifact contains prompt text key"@,
            },
        },
{
    match require_wire_version(packet, "Jailgun review packet") {
        Err(e) => {
            return Err(e);
        },
        Ok(()) => {},
    }
    match ensure_no_prompt_text(packet) {
        Err(e) => {
            return Err(e);
        },
        Ok(()) => {},
    }
    let mut evidence: Vec<Evidence> = Vec::new();
    evidence.push(Evidence { kind: "jailgun.review_packet".to_owned(), uri: file_uri(output) });
    assert(evidence_views(evidence@) =~= seq![
        ev("jailgun.review_packet"@, file_uri_spec(output@)),
    ]);
    Ok(evidence)
}

// ---------------------------------------------------------------- run summaries

/// An artifact a finished run reports.
#[derive(Clone, Debug, PartialEq, Eq)]
pub struct JailgunArtifact {
    pub kind: String,
    pub path: String,
    pub sha256: Option<String>,
    pub receipt_path: Option<String>,
}

pub struct JailgunArtifactView {
    pub kind: Seq<char>,
    pub path: Seq<char>,
    pub sha256: Option<Seq<char>>,
    pub receipt_path: Option<Seq<char>>,
}

impl View for JailgunArtifact {
    type V = JailgunArtifactView;

    open spec fn view(&self) -> JailgunArtifactView {
        JailgunArtifactView {
            kind: self.kind@,
            path: self.path@,
            sha256: opt_text(self.sha256),
            receipt_path: opt_text(self.receipt_path),
        }
    }
}

/// The summary of a finished run as the ingest endpoint reports it. Each
/// failure is held as its compact JSON text.
#[derive(Clone, Debug, PartialEq, Eq)]
pub struct JailgunSummary {
    pub version: u16,
    pub run_id: String,
    pub status: String,
    pub prompt_ref: String,
    pub events_jsonl: String,
    pub receipt_paths: Vec<String>,
    pub artifacts: Vec<JailgunArtifact>,
    pub failures: Vec<String>,
}

pub struct JailgunSummaryView {
    pub version: u16,
    pub run_id: Seq<char>,
    pub status: Seq<char>,
    pub prompt_ref: Seq<char>,
    pub events_jsonl: Seq<char>,
    pub receipt_paths: Seq<Seq<char>>,
    pub artifacts: Seq<JailgunArtifactView>,
    pub failures: Seq<Seq<char>>,
}

impl View for JailgunSummary {
    type V = JailgunSummaryView;

    open spec fn view(&self) -> JailgunSummaryView {
        JailgunSummaryView {
            version: self.version,
            run_id: self.run_id@,
            status: self.status@,
            prompt_ref: self.prompt_ref@,
            events_jsonl: self.events_jsonl@,
            receipt_paths: texts(self.receipt_paths@),
            artifacts: self.artifacts@.map_values(|a: JailgunArtifact| a@),
            failures: texts(self.failures@),
        }
    }
}

/// The evidence of one artifact: the artifact itself, by digest when it has
/// one and by path otherwise, then its receipt when it has one.
pub open spec fn artifact_evidence(a: JailgunArtifactView) -> Seq<EvidenceView> {
    let uri = match a.sha256 {
        Some(d) => "sha256:"@ + d,
        None => file_uri_spec(a.path),
    };
    let main = ev("jailgun.artifact."@ + a.kind, uri);
    match a.receipt_path {
        Some(r) => seq![main, ev("jailgun.artifact.receipt"@, file_uri_spec(r))],
        None => seq![main],
    }
}

/// The evidence of the artifacts, in order.
pub open spec fn artifacts_evidence(items: Seq<JailgunArtifactView>) -> Seq<EvidenceView>
    decreases items.len(),
{
    if items.len() == 0 {
        seq![]
    } else {
        artifacts_evidence(items.drop_last()) + artifact_evidence(items.last())
    }
}

/// The compact JSON array of the failures, each given by its compact JSON text.
pub open spec fn failures_text(items: Seq<Seq<char>>) -> Seq<char> {
    "["@ + join_text(items, ","@) + "]"@
}

/// The receipt evidence of a run.
pub open spec fn receipts_evidence(paths: Seq<Seq<char>>) -> Seq<EvidenceView> {
    paths.map_values(|r: Seq<char>| ev("jailgun.receipt"@, file_uri_spec(r)))
}

/// The evidence of a finished run: the run, its summary, its events and its
/// prompt reference; the summary's own events path when it differs; each
/// receipt; each artifact; and a digest of the failures when there are any.
pub open spec fn summary_evidence_spec(
    s: JailgunSummaryView,
    summary_uri: Seq<char>,
    events_uri: Seq<char>,
) -> Seq<EvidenceView> {
    let head = seq![
        ev("jailgun.run"@, "jailgun://run/"@ + s.run_id),
        ev("jailgun.summary"@, summary_uri),
        ev("jailgun.events"@, events_uri),
        ev("jailgun.prompt_ref"@, s.prompt_ref),
    ];
    let own_events = file_uri_spec(s.events_jsonl);
    let moved = if own_events != events_uri {
        seq![ev("jailgun.events.summary-path"@, own_events)]
    } else {
        seq![]
    };
    let failures = if s.failures.len() > 0 {
        seq![
            ev(
                "jailgun.failures.digest"@,
                "sha256:"@ + hex_lower(
                    sha256_of(vstd::utf8::encode_utf8(failures_text(s.failures))),
                ),
            ),
        ]
    } else {
        seq![]
    };
    head + moved + receipts_evidence(s.receipt_paths) + artifacts_evidence(s.artifacts) + failures
}

proof fn lemma_views_push(v: Seq<Evidence>, e: Evidence)
    ensures
        evidence_views(v.push(e)) == evidence_views(v).push(e@),
{
    assert(evidence_views(v.push(e)) =~= evidence_views(v).push(e@));
}

/// The compact JSON array text of the failures.
pub fn failures_json(items: &Vec<String>) -> (text: String)
    ensures
        text@ == failures_text(texts(items@)),
{
    let inner = join(items.as_slice(), ",");
    let mut text = concat("[", inner.as_str());
    text.append("]");
    text
}

fn artifact_evidence_into(evidence: &mut Vec<Evidence>, a: &JailgunArtifact)
    ensures
        evidence_views(final(evidence)@) == evidence_views(old(evidence)@) + artifact_evidence(
            a@,
        ),
{
    let ghost start = evidence_views(evidence@);
    let uri = match &a.sha256 {
        Some(d) => concat("sha256:", d.as_str()),
        None => file_uri(a.path.as_str()),
    };
    let main = Evidence { kind: concat("jailgun.artifact.", a.kind.as_str()), uri };
    proof {
        lemma_views_push(evidence@, main);
    }
    evidence.push(main);
    match &a.receipt_path {
        Some(r) => {
            let receipt = Evidence {
                kind: "jailgun.artifact.receipt".to_owned(),
                uri: file_uri(r.as_str()),
            };
            proof {
                lemma_views_push(evidence@, receipt);
            }
            evidence.push(receipt);
        },
        None => {},
    }
    assert(evidence_views(evidence@) =~= start + artifact_evidence(a@));
}

/// The evidence of a finished run (see [`summary_evidence_spec`]).
pub fn evidence_for_summary(summary: &JailgunSummary, summary_uri: &str, events_uri: &str) -> (evidence: Vec<Evidence>)
    ensures
        evidence_views(evidence@) == summary_evidence_spec(summary@, summary_uri@, events_uri@),
{
    let ghost s = summary@;
    let mut evidence: Vec<Evidence> = Vec::new();
    evidence.push(Evidence { kind: "jailgun.run".to_owned(), uri: concat("jailgun://run/", summary.run_id.as_str()) });
    evidence.push(Evidence { kind: "jailgun.summary".to_owned(), uri: summary_uri.to_owned() });
    evidence.push(Evidence { kind: "jailgun.events".to_owned(), uri: events_uri.to_owned() });
    evidence.push(Evidence { kind: "jailgun.prompt_ref".to_owned(), uri: summary.prompt_ref.clone() });
    let ghost head = seq![
        ev("jailgun.run"@, "jailgun://run/"@ + s.run_id),
        ev("jailgun.summary"@, summary_uri@),
        ev("jailgun.events"@, events_uri@),
        ev("jailgun.prompt_ref"@, s.prompt_ref),
    ];
    assert(evidence_views(evidence@) =~= head);
    let own_events = file_uri(summary.events_jsonl.as_str());
    let ghost moved: Seq<EvidenceView> = if own_events@ != events_uri@ {
        seq![ev("jailgun.events.summary-path"@, own_events@)]
    } else {
        seq![]
    };
    if !str_eq(own_events.as_str(), events_uri) {
        let e = Evidence { kind: "jailgun.events.summary-path".to_owned(), uri: own_events };
        proof {
            lemma_views_push(evidence@, e);
        }
        evidence.push(e);
    }
    assert(evidence_views(evidence@) =~= head + moved);
    let ghost before_receipts = head + moved;
    let ghost receipts = receipts_evidence(s.receipt_paths);
    let mut i: usize = 0;
    while i < summary.receipt_paths.len()
        invariant
            i <= summary.receipt_paths@.len(),
            s == summary@,
            receipts == receipts_evidence(s.receipt_paths),
            receipts.len() == summary.receipt_paths@.len(),
            evidence_views(evidence@) == before_receipts + receipts.take(i as int),
        decreases summary.receipt_paths@.len() - i,
    {
        let e = Evidence { kind: "jailgun.receipt".to_owned(), uri: file_uri(summary.receipt_paths[i].as_str()) };
        proof {
            lemma_views_push(evidence@, e);
            assert(receipts[i as int] == e@);
            assert(receipts.take(i + 1) =~= receipts.take(i as int).push(e@));
        }
        evidence.push(e);
        i = i + 1;
    }
    assert(receipts.take(i as int) =~= receipts);
    let ghost before_artifacts = before_receipts + receipts;
    let ghost arts = s.artifacts;
    let mut k: usize = 0;
    while k < summary.artifacts.len()
        invariant
            k <= summary.artifacts@.len(),
            s == summary@,
            arts == s.artifacts,
            arts.len() == summary.artifacts@.len(),
            evidence_views(evidence@) == before_artifacts + artifacts_evidence(arts.take(k as int)),
        decreases summary.artifacts@.len() - k,
    {
        proof {
            assert(arts.take(k + 1).drop_last() =~= arts.take(k as int));
            assert(arts.take(k + 1).last() == summary.artifacts@[k as int]@);
        }
        artifact_evidence_into(&mut evidence, &summary.artifacts[k]);
        k = k + 1;
    }
    assert(arts.take(k as int) =~= arts);
    if summary.failures.len() > 0 {
        let text = failures_json(&summary.failures);
        let e = Evidence { kind: "jailgun.failures.digest".to_owned(), uri: text_digest_uri(text.as_str()) };
        proof {
            lemma_views_push(evidence@, e);
        }
        evidence.push(e);
    }
    evidence
}

// ---------------------------------------------------------------- the adapter

/// How long a Jailgun run or CLI operation may take: thirty minutes and
/// thirty seconds.
pub const JAILGUN_TIMEOUT_MS: u64 = 1830000;

/// The Jailgun adapter: the CLI it runs for review packets and how long it
/// waits.
#[derive(Clone, Debug, PartialEq, Eq)]
pub struct JailgunAdapter {
    pub command: String,
    pub timeout_ms: u64,
}

impl JailgunAdapter {
    /// An adapter running `command`, waiting at most `timeout_ms`.
    pub fn new(command: String, timeout_ms: u64) -> (a: JailgunAdapter)
        ensures
            a.command@ == command@,
            a.timeout_ms == timeout_ms,
    {
        JailgunAdapter { command, timeout_ms }
    }

    /// The adapter as configured: the CLI named by the setting when it is
    /// set, `jailgun` otherwise, with the default timeout.
    pub fn configured(command: Option<String>) -> (a: JailgunAdapter)
        ensures
            a.command@ == match command {
                Some(c) => c@,
                None => "jailgun"@,
            },
            a.timeout_ms == JAILGUN_TIMEOUT_MS,
    {
        let command = match command {
            Some(c) => c,
            None => "jailgun".to_owned(),
        };
        JailgunAdapter { command, timeout_ms: JAILGUN_TIMEOUT_MS }
    }

    /// What the adapter advertises.
    pub fn service_card(&self) -> (card: ServiceCard)
        ensures
            card.name@ == "jailgun"@,
            card.version@ == ADAPTER_VERSION@,
            texts(card.subjects@) == seq!["*/jailgun/*"@],
            texts(card.capabilities@) == seq![
                "bounded-chatgpt-capture"@,
                "run-agent"@,
                "review-packet"@,
            ],
    {
        let caps = text_list(&["bounded-chatgpt-capture", "run-agent", "review-packet"]);
        proof {
            reveal_strlit("*/");
            reveal_strlit("/*");
            reveal_strlit("jailgun");
            reveal_strlit("*/jailgun/*");
            assert("*/"@ + "jailgun"@ + "/*"@ =~= "*/jailgun/*"@);
        }
        adapter_card("jailgun", caps)
    }

    /// The routing of a work order's kind; other kinds fail closed.
    pub fn route(&self, kind: &str) -> (r: Result<JailgunRoute, AdapterError>)
        ensures
            match r {
                Ok(route) => jailgun_route_spec(kind@) == Some(route),
                Err(e) => jailgun_route_spec(kind@) is None && e.message@ == fail_closed_text(
                    "jailgun"@,
                ),
            },
    {
        match route_for(kind) {
            Some(route) => Ok(route),
            None => Err(fail_closed("jailgun")),
        }
    }
}

/// The arguments of the `review-packet` CLI call for a request.
pub open spec fn review_packet_args_spec(req: ReviewPacketRequest) -> Seq<Seq<char>> {
    seq![
        "review-packet"@,
        "--summary-json"@,
        req.summary_json@,
        "--base"@,
        req.base@,
        "--head"@,
        req.head@,
        "--repo"@,
        req.repo@,
        "--output"@,
        req.output@,
        "--patch-bytes"@,
        decimal_text(req.patch_bytes as nat),
    ]
}

/// The arguments of the `review-packet` CLI call for a request; it runs in
/// the request's `cwd`.
pub fn review_packet_args(req: &ReviewPacketRequest) -> (args: Vec<String>)
    ensures
        texts(args@) == review_packet_args_spec(*req),
{
    let mut args: Vec<String> = Vec::new();
    args.push("review-packet".to_owned());
    args.push("--summary-json".to_owned());
    args.push(req.summary_json.clone());
    args.push("--base".to_owned());
    args.push(req.base.clone());
    args.push("--head".to_owned());
    args.push(req.head.clone());
    args.push("--repo".to_owned());
    args.push(req.repo.clone());
    args.push("--output".to_owned());
    args.push(req.output.clone());
    args.push("--patch-bytes".to_owned());
    args.push(decimal(req.patch_bytes));
    assert(texts(args@) =~= review_packet_args_spec(*req));
    args
}

} // verus!
