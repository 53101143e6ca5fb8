//! The Jeryu forge adapter: which work it takes and how a CI run becomes evidence.

use vstd::prelude::*;

use crate::crypto::{hex_lower, sha256_of};
use crate::domain::{
    adapter_card, adapter_error, fail_closed, fail_closed_text, text_list, AdapterError, ServiceCard,
    ADAPTER_VERSION,
};
use crate::ecosystem::opt_text;
use crate::evidence::{ev, evidence_views, Evidence, EvidenceView};
use crate::jekko::{artifact_uri, artifact_uri_spec, text_digest_uri};
use crate::json::{json_get_str, Json};
use crate::text::{concat, str_eq, texts};

verus! {

/// An artifact attached to a CI run.
#[derive(Clone, Debug, PartialEq, Eq)]
pub struct JeryuArtifact {
    pub kind: String,
    pub reference: String,
    pub digest: Option<String>,
}

/// The evidence bundle of a CI run.
#[derive(Clone, Debug, PartialEq, Eq)]
pub struct JeryuCiRun {
    pub run_id: String,
    pub status: Option<String>,
    pub commit_sha: Option<String>,
    pub artifacts: Vec<JeryuArtifact>,
}

/// The work-order kinds the forge adapter takes.
pub open spec fn forge_kind_spec(kind: Seq<char>) -> bool {
    kind == "jeryu.ci"@ || kind == "jeryu.evidence"@ || kind == "jeryu.snapshot"@
}

/// Whether the forge adapter takes a work-order kind.
pub fn is_forge_kind(kind: &str) -> (r: bool)
    ensures
        r == forge_kind_spec(kind@),
{
    str_eq(kind, "jeryu.ci") || str_eq(kind, "jeryu.evidence") || str_eq(kind, "jeryu.snapshot")
}

/// The forge adapter.
#[derive(Clone, Copy, Debug, PartialEq, Eq)]
pub struct JeryuAdapter;

impl JeryuAdapter {
    /// The forge adapter.
    pub fn new() -> (a: JeryuAdapter) {
        JeryuAdapter
    }

    /// What the adapter advertises.
    pub fn service_card(&self) -> (card: ServiceCard)
        ensures
            card.name@ == "jeryu"@,
            card.version@ == ADAPTER_VERSION@,
            texts(card.subjects@) == seq!["*/jeryu/*"@],
            texts(card.capabilities@) == seq!["forge"@, "ci-evidence"@, "snapshot"@],
    {
        let caps = text_list(&["forge", "ci-evidence", "snapshot"]);
        proof {
            reveal_strlit("*/");
            reveal_strlit("/*");
            reveal_strlit("jeryu");
            reveal_strlit("*/jeryu/*");
            assert("*/"@ + "jeryu"@ + "/*"@ =~= "*/jeryu/*"@);
        }
        adapter_card("jeryu", caps)
    }

    /// Accepts forge kinds; every other kind fails closed.
    pub fn accept_kind(&self, kind: &str) -> (r: Result<(), AdapterError>)
        ensures
            match r {
                Ok(()) => forge_kind_spec(kind@),
                Err(e) => !forge_kind_spec(kind@) && e.message@ == fail_closed_text("jeryu"@),
            },
    {
        if is_forge_kind(kind) {
            Ok(())
        } else {
            Err(fail_closed("jeryu"))
        }
    }
}

/// After the forge's health check, which comes before anything else is read
/// so that an unreachable forge fails closed: a failed check fails the work
/// order with its error; a healthy forge is asked for the run the payload
/// names.
pub fn after_health(health: Result<(), String>, payload: &Json) -> (r: Result<String, AdapterError>)
    ensures
        match health {
            Err(h) => r matches Err(e) && e.message@ == h@,
            Ok(()) => match r {
                Ok(id) => json_get_str(*payload, "run_id"@) == Some(id@),
                Err(e) => json_get_str(*payload, "run_id"@) is None && e.message@
                    == "jeryu work order missing run_id"@,
            },
        },
{
    match health {
        Err(h) => Err(adapter_error(h)),
        Ok(()) => run_id_for(payload),
    }
}

/// After the forge answered for the run: its evidence, or the read's error.
pub fn after_run_lookup(run: Result<JeryuCiRun, String>) -> (r: Result<Vec<Evidence>, AdapterError>)
    ensures
        match run {
            Ok(c) => r matches Ok(ev) && evidence_views(ev@) == ci_evidence_spec(c),
            Err(m) => r matches Err(e) && e.message@ == m@,
        },
{
    match run {
        Ok(c) => Ok(ci_run_evidence(&c)),
        Err(m) => Err(adapter_error(m)),
    }
}

/// The CI run a work order names: its payload's `run_id` string.
pub fn run_id_for(payload: &Json) -> (r: Result<String, AdapterError>)
    ensures
        match r {
            Ok(id) => json_get_str(*payload, "run_id"@) == Some(id@),
            Err(e) => json_get_str(*payload, "run_id"@) is None && e.message@
                == "jeryu work order missing run_id"@,
        },
{
    match payload.get_str("run_id") {
        Some(id) => Ok(id.to_owned()),
        None => Err(adapter_error("jeryu work order missing run_id".to_owned())),
    }
}

/// The text whose digest binds the evidence to the run: `{run_id}|{status}`.
pub open spec fn run_identity_text(run: JeryuCiRun) -> Seq<char> {
    run.run_id@ + "|"@ + match run.status {
        Some(s) => s@,
        None => seq![],
    }
}

/// The evidence of a CI run: the run, its commit when known, one record per
/// artifact, and last a digest over the run's identity.
pub open spec fn ci_evidence_spec(run: JeryuCiRun) -> Seq<EvidenceView> {
    let head = seq![ev("jeryu.ci-run"@, "jeryu://ci/run/"@ + run.run_id@)];
    let commit = match run.commit_sha {
        Some(c) => seq![ev("jeryu.ci-run.commit"@, "jeryu://commit/"@ + c@)],
        None => seq![],
    };
    head + commit + Seq::new(
        run.artifacts@.len(),
        |i: int|
            ev(
                "jeryu.artifact."@ + run.artifacts@[i].kind@,
                artifact_uri_spec(run.artifacts@[i].digest, run.artifacts@[i].reference@),
            ),
    ) + seq![
        ev(
            "jeryu.ci-run.digest"@,
            "sha256:"@ + hex_lower(sha256_of(vstd::utf8::encode_utf8(run_identity_text(run)))),
        ),
    ]
}

/// Maps a CI run into evidence.
pub fn ci_run_evidence(run: &JeryuCiRun) -> (evidence: Vec<Evidence>)
    ensures
        evidence_views(evidence@) == ci_evidence_spec(*run),
{
    let ghost want = ci_evidence_spec(*run);
    let mut evidence: Vec<Evidence> = Vec::new();
    evidence.push(
        Evidence {
            kind: "jeryu.ci-run".to_owned(),
            uri: concat("jeryu://ci/run/", run.run_id.as_str()),
        },
    );
    match &run.commit_sha {
        Some(commit) => {
            evidence.push(
                Evidence {
                    kind: "jeryu.ci-run.commit".to_owned(),
                    uri: concat("jeryu://commit/", commit.as_str()),
                },
            );
        },
        None => {},
    }
    let base = evidence.len();
    let mut i: usize = 0;
    while i < run.artifacts.len()
        invariant
            i <= run.artifacts@.len(),
            base == (if run.commit_sha is Some { 2int } else { 1int }),
            want == ci_evidence_spec(*run),
            want.len() == base + run.artifacts@.len() + 1,
            evidence@.len() == base + i,
            forall|j: int| 0 <= j < base + i ==> (#[trigger] evidence@[j])@ == want[j],
        decreases run.artifacts@.len() - i,
    {
        let artifact = &run.artifacts[i];
        evidence.push(
            Evidence {
                kind: concat("jeryu.artifact.", artifact.kind.as_str()),
                uri: artifact_uri(&artifact.digest, artifact.reference.as_str()),
            },
        );
        i = i + 1;
    }
    let identity = match &run.status {
        Some(status) => concat(concat(run.run_id.as_str(), "|").as_str(), status.as_str()),
        None => concat(run.run_id.as_str(), "|"),
    };
    proof {
        reveal_strlit("");
        assert(identity@ == run_identity_text(*run));
    }
    evidence.push(
        Evidence { kind: "jeryu.ci-run.digest".to_owned(), uri: text_digest_uri(identity.as_str()) },
    );
    assert(evidence_views(evidence@) =~= want);
    evidence
}

/// A CI run's evidence opens with the run node under `jeryu://ci/run/`,
/// has a commit node exactly when the run names its commit, one node per
/// artifact, and closes with its single `sha256:` digest node.
pub proof fn law_ci_evidence_shape(run: JeryuCiRun)
    ensures
        ci_evidence_spec(run).len() == 2 + run.artifacts@.len() + (if run.commit_sha is Some {
            1int
        } else {
            0int
        }),
        ci_evidence_spec(run)[0].kind == "jeryu.ci-run"@,
        ci_evidence_spec(run)[0].uri == "jeryu://ci/run/"@ + run.run_id@,
        ci_evidence_spec(run).last().kind == "jeryu.ci-run.digest"@,
        ci_evidence_spec(run).last().uri.subrange(0, 7) == "sha256:"@,
        run.commit_sha is Some <==> ci_evidence_spec(run)[1].kind == "jeryu.ci-run.commit"@,
        forall|i: int|
            0 <= i < ci_evidence_spec(run).len() - 1 ==> (#[trigger] ci_evidence_spec(run)[i]).kind
                != "jeryu.ci-run.digest"@,
{
    let e = ci_evidence_spec(run);
    let c: int = if run.commit_sha is Some { 1 } else { 0 };
    reveal_strlit("jeryu.ci-run");
    reveal_strlit("jeryu.ci-run.commit");
    reveal_strlit("jeryu.ci-run.digest");
    reveal_strlit("jeryu.artifact.");
    reveal_strlit("sha256:");
    let d = "sha256:"@ + hex_lower(sha256_of(vstd::utf8::encode_utf8(run_identity_text(run))));
    assert(d.subrange(0, 7) =~= "sha256:"@);
    assert forall|i: int| 0 <= i < e.len() - 1 implies (#[trigger] e[i]).kind
        != "jeryu.ci-run.digest"@ by {
        if i == 0 {
            assert(e[0].kind.len() != "jeryu.ci-run.digest"@.len());
        } else if c == 1 && i == 1 {
            assert(e[1].kind[13] != "jeryu.ci-run.digest"@[13]);
        } else {
            let k = i - 1 - c;
            assert(0 <= k < run.artifacts@.len());
            let kind = "jeryu.artifact."@ + run.artifacts@[k].kind@;
            assert(e[i].kind == kind);
            assert(kind[6] == 'a');
            assert("jeryu.ci-run.digest"@[6] == 'c');
            if kind.len() == "jeryu.ci-run.digest"@.len() {
                assert(kind[6] != "jeryu.ci-run.digest"@[6]);
            }
        }
    }
    if run.commit_sha is None {
        if run.artifacts@.len() > 0 {
            let kind = "jeryu.artifact."@ + run.artifacts@[0].kind@;
            assert(e[1].kind == kind);
            assert(kind[6] == 'a');
            assert("jeryu.ci-run.commit"@[6] == 'c');
        } else {
            assert(e[1].kind == "jeryu.ci-run.digest"@);
            assert("jeryu.ci-run.digest"@[13] != "jeryu.ci-run.commit"@[13]);
        }
    }
}

} // verus!
