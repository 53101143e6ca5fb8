//! ZYAL superworkflow runs: the status model of a run and what an adapter
//! reports of it.

use vstd::prelude::*;

use crate::ecosystem::opt_text;
use crate::evidence::{ev, evidence_views, Evidence, EvidenceView};
use crate::json::{Json, JsonNumber};
use crate::worker_json::{deref_opt, field_at, opt_text_at, opt_text_field_at, struct_field};
use crate::domain::{
    adapter_card, adapter_error, fail_closed, fail_closed_text, text_list, AdapterError, ServiceCard,
    ADAPTER_VERSION,
};
use crate::text::{concat, decimal, decimal_text, signed_decimal, signed_decimal_text, str_eq, texts};

verus! {

/// One phase row of a run's status.
#[derive(Clone, Debug, PartialEq, Eq)]
pub struct ZyalPhase {
    pub phase_id: String,
    pub status: String,
}

/// A run's status snapshot.
#[derive(Clone, Debug, PartialEq, Eq)]
pub struct ZyalRunStatus {
    pub run_id: String,
    pub phases: Vec<ZyalPhase>,
}

/// How many phases have status `status`.
pub open spec fn count_status(phases: Seq<ZyalPhase>, status: Seq<char>) -> nat
    decreases phases.len(),
{
    if phases.len() == 0 {
        0
    } else {
        count_status(phases.drop_last(), status) + if phases.last().status@ == status {
            1nat
        } else {
            0nat
        }
    }
}

/// Some phase has status `status`.
pub open spec fn any_status(phases: Seq<ZyalPhase>, status: Seq<char>) -> bool {
    exists|i: int| 0 <= i < phases.len() && (#[trigger] phases[i]).status@ == status
}

/// A phase status that ends the phase.
pub open spec fn is_terminal_status(status: Seq<char>) -> bool {
    status == "complete"@ || status == "blocked"@ || status == "failed"@
}

/// Percent complete: completed phases times 100 over all phases, rounded down;
/// 0 for an empty run.
pub open spec fn percent_spec(phases: Seq<ZyalPhase>) -> nat {
    if phases.len() == 0 {
        0
    } else {
        (count_status(phases, "complete"@) * 100) / phases.len()
    }
}

/// Every phase has ended, and there is at least one.
pub open spec fn is_terminal_spec(phases: Seq<ZyalPhase>) -> bool {
    phases.len() > 0 && forall|i: int|
        0 <= i < phases.len() ==> is_terminal_status((#[trigger] phases[i]).status@)
}

/// The run's coarse state: `unknown` when empty, else `failed` if any phase
/// failed, else `blocked` if any is blocked, else `complete` if all are,
/// else `partial`.
pub open spec fn state_label_spec(phases: Seq<ZyalPhase>) -> Seq<char> {
    if phases.len() == 0 {
        "unknown"@
    } else if any_status(phases, "failed"@) {
        "failed"@
    } else if any_status(phases, "blocked"@) {
        "blocked"@
    } else if forall|i: int|
        0 <= i < phases.len() ==> (#[trigger] phases[i]).status@ == "complete"@ {
        "complete"@
    } else {
        "partial"@
    }
}

proof fn lemma_count_le_len(phases: Seq<ZyalPhase>, status: Seq<char>)
    ensures
        count_status(phases, status) <= phases.len(),
    decreases phases.len(),
{
    if phases.len() > 0 {
        lemma_count_le_len(phases.drop_last(), status);
    }
}

impl ZyalRunStatus {
    /// Total phases known for the run.
    pub fn total(&self) -> (n: usize)
        ensures
            n == self.phases@.len(),
    {
        self.phases.len()
    }

    /// Count of phases in the `complete` state.
    pub fn completed(&self) -> (n: usize)
        ensures
            n == count_status(self.phases@, "complete"@),
    {
        let mut n: usize = 0;
        let mut i: usize = 0;
        while i < self.phases.len()
            invariant
                i <= self.phases@.len(),
                n == count_status(self.phases@.take(i as int), "complete"@),
                n <= i,
            decreases self.phases@.len() - i,
        {
            assert(self.phases@.take(i + 1).drop_last() =~= self.phases@.take(i as int));
            if str_eq(self.phases[i].status.as_str(), "complete") {
                n = n + 1;
            }
            i = i + 1;
        }
        assert(self.phases@.take(i as int) =~= self.phases@);
        n
    }

    /// Percent complete in `0..=100`; an empty run is 0%.
    pub fn percent(&self) -> (pct: u8)
        requires
            self.phases@.len() <= usize::MAX / 100,
        ensures
            pct == percent_spec(self.phases@),
            pct <= 100,
    {
        let total = self.total();
        if total == 0 {
            return 0;
        }
        let done = self.completed();
        proof {
            lemma_count_le_len(self.phases@, "complete"@);
            assert(done * 100 <= total * 100) by (nonlinear_arith)
                requires
                    done <= total,
            ;
            assert(((done * 100) as int) / (total as int) <= 100) by (nonlinear_arith)
                requires
                    done <= total,
                    total > 0,
            ;
        }
        ((done * 100) / total) as u8
    }

    /// True once every phase is `complete`, `blocked` or `failed`; an empty run
    /// is never terminal.
    pub fn is_terminal(&self) -> (r: bool)
        ensures
            r == is_terminal_spec(self.phases@),
    {
        if self.phases.len() == 0 {
            return false;
        }
        let mut i: usize = 0;
        while i < self.phases.len()
            invariant
                i <= self.phases@.len(),
                forall|j: int| 0 <= j < i ==> is_terminal_status(#[trigger] self.phases@[j].status@),
            decreases self.phases@.len() - i,
        {
            let s = self.phases[i].status.as_str();
            if !(str_eq(s, "complete") || str_eq(s, "blocked") || str_eq(s, "failed")) {
                return false;
            }
            i = i + 1;
        }
        true
    }

    fn any_phase(&self, status: &str) -> (r: bool)
        ensures
            r == any_status(self.phases@, status@),
    {
        let mut i: usize = 0;
        while i < self.phases.len()
            invariant
                i <= self.phases@.len(),
                forall|j: int| 0 <= j < i ==> (#[trigger] self.phases@[j]).status@ != status@,
            decreases self.phases@.len() - i,
        {
            if str_eq(self.phases[i].status.as_str(), status) {
                return true;
            }
            i = i + 1;
        }
        false
    }

    fn all_complete(&self) -> (r: bool)
        ensures
            r == forall|i: int|
                0 <= i < self.phases@.len() ==> (#[trigger] self.phases@[i]).status@
                    == "complete"@,
    {
        let mut i: usize = 0;
        while i < self.phases.len()
            invariant
                i <= self.phases@.len(),
                forall|j: int| 0 <= j < i ==> (#[trigger] self.phases@[j]).status@ == "complete"@,
            decreases self.phases@.len() - i,
        {
            if !str_eq(self.phases[i].status.as_str(), "complete") {
                return false;
            }
            i = i + 1;
        }
        true
    }

    /// Coarse run-state label for evidence.
    pub fn state_label(&self) -> (label: &'static str)
        ensures
            label@ == state_label_spec(self.phases@),
    {
        if self.phases.len() == 0 {
            return "unknown";
        }
        if self.any_phase("failed") {
            return "failed";
        }
        if self.any_phase("blocked") {
            return "blocked";
        }
        if self.all_complete() {
            return "complete";
        }
        "partial"
    }

    /// The snapshot with `run_id` filled in when the status omitted it.
    pub fn with_run_id_default(self, run_id: &str) -> (s: ZyalRunStatus)
        ensures
            s.phases == self.phases,
            s.run_id@ == (if self.run_id@.len() == 0 {
                run_id@
            } else {
                self.run_id@
            }),
    {
        let mut s = self;
        if s.run_id.unicode_len() == 0 {
            s.run_id = run_id.to_owned();
        }
        s
    }
}

/// At most this many phase rows are reported as evidence.
pub const MAX_PHASE_EVIDENCE: usize = 32;

/// The work-order kind a ZYAL adapter accepts.
pub fn zyal_kind_supported(kind: &str) -> (ok: bool)
    ensures
        ok == (kind@ == "zyal.run"@),
{
    str_eq(kind, "zyal.run")
}

/// The run id a submission uses: the payload's own, else `wo-` and the work
/// order's id text.
pub fn zyal_run_id(payload_run_id: Option<String>, work_order_id_text: &str) -> (id: String)
    ensures
        id@ == (match payload_run_id {
            Some(r) => r@,
            None => "wo-"@ + work_order_id_text@,
        }),
{
    match payload_run_id {
        Some(r) => r,
        None => concat("wo-", work_order_id_text),
    }
}

/// Whether polling stops: the run is terminal or the poll budget is spent.
pub fn poll_should_stop(snapshot: &ZyalRunStatus, elapsed_ms: u64, timeout_ms: u64) -> (stop:
    bool)
    ensures
        stop == (is_terminal_spec(snapshot.phases@) || elapsed_ms >= timeout_ms),
{
    snapshot.is_terminal() || elapsed_ms >= timeout_ms
}

/// `zyal://run/{run_id}`.
pub open spec fn run_uri(run_id: Seq<char>) -> Seq<char> {
    "zyal://run/"@ + run_id
}

/// The evidence reported for a finished run: the run, its progress percent,
/// its state label, then up to 32 phase rows in order.
pub open spec fn zyal_evidence_spec(run_id: Seq<char>, phases: Seq<ZyalPhase>) -> Seq<EvidenceView> {
    let head = seq![
        ev("zyal.run"@, run_uri(run_id)),
        ev("zyal.progress"@, run_uri(run_id) + "/progress/"@ + decimal_text(percent_spec(phases))),
        ev("zyal.status"@, run_uri(run_id) + "/status/"@ + state_label_spec(phases)),
    ];
    let n = if phases.len() < 32 { phases.len() as int } else { 32 };
    head + Seq::new(
        n as nat,
        |i: int| ev("zyal.phase."@ + phases[i].status@, run_uri(run_id) + "/phase/"@ + phases[i].phase_id@),
    )
}

/// Maps a run status into evidence.
pub fn zyal_evidence(run_id: &str, status: &ZyalRunStatus) -> (evidence: Vec<Evidence>)
    requires
        status.phases@.len() <= usize::MAX / 100,
    ensures
        evidence_views(evidence@) == zyal_evidence_spec(run_id@, status.phases@),
{
    let base = concat("zyal://run/", run_id);
    let pct = decimal(status.percent() as u64);
    let progress = concat(concat(base.as_str(), "/progress/").as_str(), pct.as_str());
    let state = concat(concat(base.as_str(), "/status/").as_str(), status.state_label());
    let mut evidence: Vec<Evidence> = Vec::new();
    evidence.push(Evidence { kind: "zyal.run".to_owned(), uri: base.clone() });
    evidence.push(Evidence { kind: "zyal.progress".to_owned(), uri: progress });
    evidence.push(Evidence { kind: "zyal.status".to_owned(), uri: state });
    let n = if status.phases.len() < MAX_PHASE_EVIDENCE {
        status.phases.len()
    } else {
        MAX_PHASE_EVIDENCE
    };
    let ghost want = zyal_evidence_spec(run_id@, status.phases@);
    let mut i: usize = 0;
    while i < n
        invariant
            n <= status.phases@.len(),
            n == (if status.phases@.len() < 32 { status.phases@.len() as int } else { 32 }),
            i <= n,
            base@ == run_uri(run_id@),
            want == zyal_evidence_spec(run_id@, status.phases@),
            evidence@.len() == 3 + i,
            forall|j: int| 0 <= j < 3 + i ==> (#[trigger] evidence@[j])@ == want[j],
        decreases n - i,
    {
        let phase = &status.phases[i];
        let kind = concat("zyal.phase.", phase.status.as_str());
        let uri = concat(concat(base.as_str(), "/phase/").as_str(), phase.phase_id.as_str());
        evidence.push(Evidence { kind, uri });
        i = i + 1;
    }
    assert(evidence_views(evidence@) =~= want);
    evidence
}

// ---------------------------------------------------------------- running a work order

/// What running a ZYAL work order does next.
#[derive(Debug)]
pub enum ZyalStep {
    /// Read the run's status now.
    Poll,
    /// Pause for the poll interval, then read the run's status.
    WaitThenPoll,
    /// The run is done: report this evidence (the manifest file is removed).
    Finish(Vec<Evidence>),
    /// The work order fails with this context over the runner's error (the
    /// manifest file is removed).
    Fail { context: String, cause: String },
}

/// A `zyal.run` payload's options; the manifest itself stays in the payload.
#[derive(Clone, Debug, PartialEq, Eq)]
pub struct ZyalRunPayload {
    pub run_id: Option<String>,
    pub db: Option<String>,
    pub live: bool,
    pub max_stages: Option<u32>,
    /// The wall-clock budget in hours, as the JSON number given.
    pub time_budget_hours: Option<JsonNumber>,
    pub per_phase_timeout_secs: Option<u64>,
    pub poll_timeout_secs: Option<u64>,
}

/// A flag field: missing is `false`; anything but a boolean is refused.
pub open spec fn bool_field(f: Option<Json>) -> Option<bool> {
    match f {
        None => Some(false),
        Some(Json::Bool(b)) => Some(b),
        _ => None,
    }
}

/// An optional 64-bit count: missing or `null` is `None`; anything but a
/// non-negative integer is refused.
pub open spec fn opt_u64_field(f: Option<Json>) -> Option<Option<u64>> {
    match f {
        None => Some(None),
        Some(Json::Null) => Some(None),
        Some(Json::Number(JsonNumber::PosInt(n))) => Some(Some(n)),
        _ => None,
    }
}

/// An optional 32-bit count: as [`opt_u64_field`], and at most `u32::MAX`.
pub open spec fn opt_u32_field(f: Option<Json>) -> Option<Option<u32>> {
    match opt_u64_field(f) {
        Some(Some(n)) => if n <= u32::MAX {
            Some(Some(n as u32))
        } else {
            None
        },
        Some(None) => Some(None),
        None => None,
    }
}

/// An optional number: missing or `null` is `None`; anything but a number is
/// refused.
pub open spec fn opt_number_field(f: Option<Json>) -> Option<Option<JsonNumber>> {
    match f {
        None => Some(None),
        Some(Json::Null) => Some(None),
        Some(Json::Number(n)) => Some(Some(n)),
        _ => None,
    }
}

/// Field `i` of the eight fields of a `zyal.run` payload.
pub open spec fn zyal_field(v: Json, i: int, name: Seq<char>) -> Option<Option<Json>> {
    struct_field(v, 8, i, name)
}

/// The payload reads: it has a `manifest` and each option has its type.
pub open spec fn zyal_payload_holds(v: Json, p: ZyalRunPayload) -> bool {
    &&& zyal_field(v, 0, "manifest"@) matches Some(Some(_))
    &&& opt_text_at(v, 8, 1, "run_id"@) == Some(opt_text(p.run_id))
    &&& opt_text_at(v, 8, 2, "db"@) == Some(opt_text(p.db))
    &&& (zyal_field(v, 3, "live"@) matches Some(f) && bool_field(f) == Some(p.live))
    &&& (zyal_field(v, 4, "max_stages"@) matches Some(f) && opt_u32_field(f) == Some(p.max_stages))
    &&& (zyal_field(v, 5, "time_budget_hours"@) matches Some(f) && opt_number_field(f) == Some(
        p.time_budget_hours,
    ))
    &&& (zyal_field(v, 6, "per_phase_timeout_secs"@) matches Some(f) && opt_u64_field(f) == Some(
        p.per_phase_timeout_secs,
    ))
    &&& (zyal_field(v, 7, "poll_timeout_secs"@) matches Some(f) && opt_u64_field(f) == Some(
        p.poll_timeout_secs,
    ))
}

/// Whether a `zyal.run` payload reads at all.
pub open spec fn zyal_payload_readable(v: Json) -> bool {
    &&& zyal_field(v, 0, "manifest"@) matches Some(Some(_))
    &&& opt_text_at(v, 8, 1, "run_id"@) is Some
    &&& opt_text_at(v, 8, 2, "db"@) is Some
    &&& (zyal_field(v, 3, "live"@) matches Some(f) && bool_field(f) is Some)
    &&& (zyal_field(v, 4, "max_stages"@) matches Some(f) && opt_u32_field(f) is Some)
    &&& (zyal_field(v, 5, "time_budget_hours"@) matches Some(f) && opt_number_field(f) is Some)
    &&& (zyal_field(v, 6, "per_phase_timeout_secs"@) matches Some(f) && opt_u64_field(f) is Some)
    &&& (zyal_field(v, 7, "poll_timeout_secs"@) matches Some(f) && opt_u64_field(f) is Some)
}

/// The refusal of a payload that does not read.
pub const ZYAL_PAYLOAD_ERROR: &'static str = "zyal.run payload must carry a `manifest` object";

fn opt_u64_from(f: Option<&Json>) -> (r: Option<Option<u64>>)
    ensures
        r == opt_u64_field(deref_opt(f)),
{
    match f {
        None => Some(None),
        Some(Json::Null) => Some(None),
        Some(Json::Number(JsonNumber::PosInt(n))) => Some(Some(*n)),
        _ => None,
    }
}

/// Reads a `zyal.run` payload, as an object by name or an array by position:
/// a `manifest` of any value is required; `run_id` and `db` are optional
/// texts, `live` a flag (default `false`), `max_stages` an optional 32-bit
/// count, `time_budget_hours` an optional number, and the two timeouts
/// optional 64-bit counts. Any other shape is refused.
pub fn read_zyal_payload(v: &Json) -> (r: Result<ZyalRunPayload, AdapterError>)
    ensures
        match r {
            Ok(p) => zyal_payload_holds(*v, p),
            Err(e) => !zyal_payload_readable(*v) && e.message@ == ZYAL_PAYLOAD_ERROR@,
        },
{
    let err = adapter_error(ZYAL_PAYLOAD_ERROR.to_owned());
    match field_at(v, 8, 0, "manifest") {
        Some(Some(_)) => {},
        _ => {
            return Err(err);
        },
    }
    let run_id = match opt_text_field_at(v, 8, 1, "run_id") {
        Some(x) => x,
        None => {
            return Err(err);
        },
    };
    let db = match opt_text_field_at(v, 8, 2, "db") {
        Some(x) => x,
        None => {
            return Err(err);
        },
    };
    let live = match field_at(v, 8, 3, "live") {
        Some(None) => false,
        Some(Some(Json::Bool(b))) => *b,
        _ => {
            return Err(err);
        },
    };
    let max_stages = match field_at(v, 8, 4, "max_stages") {
        Some(f) => match opt_u64_from(f) {
            Some(Some(n)) => if n <= 4294967295 {
                Some(n as u32)
            } else {
                return Err(err);
            },
            Some(None) => None,
            None => {
                return Err(err);
            },
        },
        None => {
            return Err(err);
        },
    };
    let time_budget_hours = match field_at(v, 8, 5, "time_budget_hours") {
        Some(None) => None,
        Some(Some(Json::Null)) => None,
        Some(Some(Json::Number(n))) => Some(
            match n {
                JsonNumber::PosInt(u) => JsonNumber::PosInt(*u),
                JsonNumber::NegInt(i) => JsonNumber::NegInt(*i),
                JsonNumber::Float(t) => JsonNumber::Float(t.clone()),
            },
        ),
        _ => {
            return Err(err);
        },
    };
    let per_phase_timeout_secs = match field_at(v, 8, 6, "per_phase_timeout_secs") {
        Some(f) => match opt_u64_from(f) {
            Some(x) => x,
            None => {
                return Err(err);
            },
        },
        None => {
            return Err(err);
        },
    };
    let poll_timeout_secs = match field_at(v, 8, 7, "poll_timeout_secs") {
        Some(f) => match opt_u64_from(f) {
            Some(x) => x,
            None => {
                return Err(err);
            },
        },
        None => {
            return Err(err);
        },
    };
    Ok(
        ZyalRunPayload {
            run_id,
            db,
            live,
            max_stages,
            time_budget_hours,
            per_phase_timeout_secs,
            poll_timeout_secs,
        },
    )
}

/// Starts a work order: kinds other than `zyal.run` fail closed; else the run
/// id the submission uses.
pub fn zyal_begin(kind: &str, payload_run_id: Option<String>, work_order_id_text: &str) -> (r:
    Result<String, AdapterError>)
    ensures
        match r {
            Ok(id) => kind@ == "zyal.run"@ && id@ == (match payload_run_id {
                Some(p) => p@,
                None => "wo-"@ + work_order_id_text@,
            }),
            Err(e) => kind@ != "zyal.run"@ && e.message@ == fail_closed_text("zyal"@),
        },
{
    if !zyal_kind_supported(kind) {
        return Err(fail_closed("zyal"));
    }
    Ok(zyal_run_id(payload_run_id, work_order_id_text))
}

/// After the submission: poll on success, else fail with the submission's
/// context.
pub fn zyal_after_submit(run_id: &str, submitted: Result<(), String>) -> (step: ZyalStep)
    ensures
        match submitted {
            Ok(()) => step is Poll,
            Err(e) => step matches ZyalStep::Fail { context, cause } && context@
                == "submit zyal run "@ + run_id@ && cause@ == e@,
        },
{
    match submitted {
        Ok(()) => ZyalStep::Poll,
        Err(e) => ZyalStep::Fail { context: concat("submit zyal run ", run_id), cause: e },
    }
}

/// After a status read `elapsed_ms` into the poll budget: a failed read fails
/// the work order; a terminal run, or a spent budget, finishes it with the
/// run's evidence; otherwise the adapter waits and polls again.
pub fn zyal_after_poll(
    run_id: &str,
    snapshot: Result<ZyalRunStatus, String>,
    elapsed_ms: u64,
    timeout_ms: u64,
) -> (step: ZyalStep)
    requires
        snapshot matches Ok(s) ==> s.phases@.len() <= usize::MAX / 100,
    ensures
        match snapshot {
            Err(e) => step matches ZyalStep::Fail { context, cause } && context@
                == "poll zyal run "@ + run_id@ && cause@ == e@,
            Ok(s) => if is_terminal_spec(s.phases@) || elapsed_ms >= timeout_ms {
                step matches ZyalStep::Finish(ev) && evidence_views(ev@) == zyal_evidence_spec(
                    run_id@,
                    s.phases@,
                )
            } else {
                step is WaitThenPoll
            },
        },
{
    match snapshot {
        Err(e) => ZyalStep::Fail { context: concat("poll zyal run ", run_id), cause: e },
        Ok(s) => if poll_should_stop(&s, elapsed_ms, timeout_ms) {
            ZyalStep::Finish(zyal_evidence(run_id, &s))
        } else {
            ZyalStep::WaitThenPoll
        },
    }
}

// ---------------------------------------------------------------- the CLI runner

/// A phase row.
pub fn phase(id: &str, status: &str) -> (p: ZyalPhase)
    ensures
        p.phase_id@ == id@,
        p.status@ == status@,
{
    ZyalPhase { phase_id: id.to_owned(), status: status.to_owned() }
}

/// A status snapshot.
pub fn status_of(run_id: &str, phases: Vec<ZyalPhase>) -> (s: ZyalRunStatus)
    ensures
        s.run_id@ == run_id@,
        s.phases@ == phases@,
{
    ZyalRunStatus { run_id: run_id.to_owned(), phases }
}

/// Options of a `jekko port-run` submission. The wall-clock budget in hours
/// is held as the text it is passed as.
#[derive(Clone, Debug, PartialEq, Eq)]
pub struct SubmitOpts {
    pub live: bool,
    pub max_stages: Option<u32>,
    pub time_budget_hours: Option<String>,
    pub per_phase_timeout_secs: Option<u64>,
}

/// The `jekko` executable the runner calls.
#[derive(Clone, Debug, PartialEq, Eq)]
pub struct CliZyalRunner {
    pub bin: String,
}

impl CliZyalRunner {
    /// A runner calling `bin`.
    pub fn with_bin(bin: String) -> (r: CliZyalRunner)
        ensures
            r.bin@ == bin@,
    {
        CliZyalRunner { bin }
    }

    /// The runner as configured: the setting's executable when it is set and
    /// not empty, `jekko` otherwise.
    pub fn configured(setting: Option<String>) -> (r: CliZyalRunner)
        ensures
            r.bin@ == match setting {
                Some(b) => if b@.len() > 0 {
                    b@
                } else {
                    "jekko"@
                },
                None => "jekko"@,
            },
    {
        match setting {
            Some(b) => if b.unicode_len() > 0 {
                CliZyalRunner { bin: b }
            } else {
                CliZyalRunner { bin: "jekko".to_owned() }
            },
            None => CliZyalRunner { bin: "jekko".to_owned() },
        }
    }
}

/// `--db {db}` when a database is named.
pub open spec fn db_args(db: Option<Seq<char>>) -> Seq<Seq<char>> {
    match db {
        Some(d) => seq!["--db"@, d],
        None => seq![],
    }
}

/// The arguments of a `port-run --super` submission.
pub open spec fn submit_args_spec(manifest_path: Seq<char>, db: Option<Seq<char>>, run_id: Seq<char>, opts: SubmitOpts) -> Seq<Seq<char>> {
    seq!["port-run"@, "--super"@, manifest_path, "--run-id"@, run_id] + db_args(db) + (if opts.live {
        seq!["--live"@]
    } else {
        seq![]
    }) + (match opts.max_stages {
        Some(n) => seq!["--max-stages"@, decimal_text(n as nat)],
        None => seq![],
    }) + (match opts.time_budget_hours {
        Some(h) => seq!["--time-budget-hours"@, h@],
        None => seq![],
    }) + (match opts.per_phase_timeout_secs {
        Some(t) => seq!["--per-phase-timeout-secs"@, decimal_text(t as nat)],
        None => seq![],
    })
}

/// The text of an optional string slice.
pub open spec fn opt_text_of(o: Option<&str>) -> Option<Seq<char>> {
    match o {
        Some(s) => Some(s@),
        None => None,
    }
}

/// The arguments of a `jekko port-run --super` submission.
pub fn submit_args(manifest_path: &str, db: Option<&str>, run_id: &str, opts: &SubmitOpts) -> (args: Vec<String>)
    ensures
        texts(args@) == submit_args_spec(manifest_path@, opt_text_of(db), run_id@, *opts),
{
    let mut args: Vec<String> = Vec::new();
    args.push("port-run".to_owned());
    args.push("--super".to_owned());
    args.push(manifest_path.to_owned());
    args.push("--run-id".to_owned());
    args.push(run_id.to_owned());
    let ghost a0 = texts(args@);
    match db {
        Some(d) => {
            args.push("--db".to_owned());
            args.push(d.to_owned());
        },
        None => {},
    }
    let ghost a1 = texts(args@);
    assert(a1 =~= a0 + db_args(opt_text_of(db)));
    if opts.live {
        args.push("--live".to_owned());
    }
    let ghost a2 = texts(args@);
    assert(a2 =~= a1 + (if opts.live { seq!["--live"@] } else { seq![] }));
    match opts.max_stages {
        Some(n) => {
            args.push("--max-stages".to_owned());
            args.push(decimal(n as u64));
        },
        None => {},
    }
    let ghost a3 = texts(args@);
    assert(a3 =~= a2 + (match opts.max_stages {
        Some(n) => seq!["--max-stages"@, decimal_text(n as nat)],
        None => seq![],
    }));
    match &opts.time_budget_hours {
        Some(h) => {
            args.push("--time-budget-hours".to_owned());
            args.push(h.clone());
        },
        None => {},
    }
    let ghost a4 = texts(args@);
    assert(a4 =~= a3 + (match opts.time_budget_hours {
        Some(h) => seq!["--time-budget-hours"@, h@],
        None => seq![],
    }));
    match opts.per_phase_timeout_secs {
        Some(t) => {
            args.push("--per-phase-timeout-secs".to_owned());
            args.push(decimal(t));
        },
        None => {},
    }
    assert(texts(args@) =~= a4 + (match opts.per_phase_timeout_secs {
        Some(t) => seq!["--per-phase-timeout-secs"@, decimal_text(t as nat)],
        None => seq![],
    }));
    args
}

/// The arguments of a `jekko port-run --status` query.
pub fn status_args(db: Option<&str>, run_id: &str) -> (args: Vec<String>)
    ensures
        texts(args@) == seq!["port-run"@, "--status"@, run_id@] + db_args(opt_text_of(db)),
{
    let mut args: Vec<String> = Vec::new();
    args.push("port-run".to_owned());
    args.push("--status".to_owned());
    args.push(run_id.to_owned());
    match db {
        Some(d) => {
            args.push("--db".to_owned());
            args.push(d.to_owned());
        },
        None => {},
    }
    assert(texts(args@) =~= seq!["port-run"@, "--status"@, run_id@] + db_args(opt_text_of(db)));
    args
}

/// What a failed CLI call reports of its (trimmed) standard error.
pub open spec fn stderr_note_spec(stderr: Seq<char>) -> Seq<char> {
    if stderr.len() == 0 {
        "<no stderr>"@
    } else {
        stderr
    }
}

/// The `Debug` text of an optional exit code: `Some(code)` or `None`.
pub open spec fn code_debug_text(code: Option<i32>) -> Seq<char> {
    match code {
        Some(c) => "Some("@ + signed_decimal_text(c as int) + ")"@,
        None => "None"@,
    }
}

/// The error of a failed submission.
pub fn submit_failure_text(code: Option<i32>, stderr_trimmed: &str) -> (m: String)
    ensures
        m@ == "jekko port-run submit failed ("@ + code_debug_text(code) + "): "@ + stderr_note_spec(
            stderr_trimmed@,
        ),
{
    let mut m = "jekko port-run submit failed (".to_owned();
    match code {
        Some(c) => {
            m.append("Some(");
            let d = signed_decimal(c as i64);
            m.append(d.as_str());
            m.append(")");
        },
        None => {
            m.append("None");
        },
    }
    m.append("): ");
    if stderr_trimmed.unicode_len() == 0 {
        m.append("<no stderr>");
    } else {
        m.append(stderr_trimmed);
    }
    m
}

/// The error of a failed status query.
pub fn status_failure_text(stderr_trimmed: &str) -> (m: String)
    ensures
        m@ == "jekko port-run --status failed: "@ + stderr_note_spec(stderr_trimmed@),
{
    if stderr_trimmed.unicode_len() == 0 {
        concat("jekko port-run --status failed: ", "<no stderr>")
    } else {
        concat("jekko port-run --status failed: ", stderr_trimmed)
    }
}

/// The file a run's manifest is written to, named by run and work order so
/// concurrent runs never collide.
pub fn manifest_file_name(run_id: &str, work_order_id_text: &str) -> (name: String)
    ensures
        name@ == "jmcp-zyal-"@ + run_id@ + "-"@ + work_order_id_text@ + ".json"@,
{
    let mut name = concat("jmcp-zyal-", run_id);
    name.append("-");
    name.append(work_order_id_text);
    name.append(".json");
    name
}

/// The poll budget of a run in milliseconds: the payload's seconds, else
/// thirty minutes; at most `u64::MAX`.
pub fn poll_timeout_ms(poll_timeout_secs: Option<u64>) -> (ms: u64)
    ensures
        ms == (match poll_timeout_secs {
            Some(s) => if s * 1000 <= u64::MAX {
                (s * 1000) as u64
            } else {
                u64::MAX
            },
            None => 1800000,
        }),
{
    match poll_timeout_secs {
        Some(s) => if s <= u64::MAX / 1000 {
            s * 1000
        } else {
            u64::MAX
        },
        None => 1800000,
    }
}

/// The ZYAL adapter: how long it pauses between status polls.
#[derive(Clone, Debug, PartialEq, Eq)]
pub struct ZyalAdapter {
    pub poll_interval_ms: u64,
}

impl ZyalAdapter {
    /// An adapter polling every five seconds.
    pub fn new() -> (a: ZyalAdapter)
        ensures
            a.poll_interval_ms == 5000,
    {
        ZyalAdapter { poll_interval_ms: 5000 }
    }

    /// The same adapter with another poll interval.
    pub fn with_poll_interval(self, interval_ms: u64) -> (a: ZyalAdapter)
        ensures
            a.poll_interval_ms == interval_ms,
    {
        ZyalAdapter { poll_interval_ms: interval_ms }
    }

    /// What the adapter advertises.
    pub fn service_card(&self) -> (card: ServiceCard)
        ensures
            card.name@ == "zyal"@,
            card.version@ == ADAPTER_VERSION@,
            texts(card.subjects@) == seq!["*/zyal/*"@],
            texts(card.capabilities@) == seq!["zyal.run"@, "port-run"@],
    {
        let caps = text_list(&["zyal.run", "port-run"]);
        proof {
            reveal_strlit("*/");
            reveal_strlit("/*");
            reveal_strlit("zyal");
            reveal_strlit("*/zyal/*");
            assert("*/"@ + "zyal"@ + "/*"@ =~= "*/zyal/*"@);
        }
        adapter_card("zyal", caps)
    }
}

// ---------------------------------------------------------------- laws

proof fn lemma_count_all(phases: Seq<ZyalPhase>, status: Seq<char>)
    ensures
        count_status(phases, status) == phases.len() <==> forall|i: int|
            0 <= i < phases.len() ==> (#[trigger] phases[i]).status@ == status,
    decreases phases.len(),
{
    if phases.len() > 0 {
        let rest = phases.drop_last();
        lemma_count_all(rest, status);
        lemma_count_le_len(rest, status);
        if count_status(phases, status) == phases.len() {
            assert forall|i: int| 0 <= i < phases.len() implies (#[trigger] phases[i]).status@
                == status by {
                if i < phases.len() - 1 {
                    assert(phases[i] == rest[i]);
                }
            }
        }
        if forall|i: int| 0 <= i < phases.len() ==> (#[trigger] phases[i]).status@ == status {
            assert forall|i: int| 0 <= i < rest.len() implies (#[trigger] rest[i]).status@
                == status by {
                assert(rest[i] == phases[i]);
            }
            assert(phases.last() == phases[phases.len() - 1]);
        }
    }
}

/// A run is at 100% exactly when every one of its phases is complete.
pub proof fn law_full_percent_iff_all_complete(phases: Seq<ZyalPhase>)
    requires
        phases.len() > 0,
    ensures
        percent_spec(phases) == 100 <==> forall|i: int|
            0 <= i < phases.len() ==> (#[trigger] phases[i]).status@ == "complete"@,
{
    let c = count_status(phases, "complete"@);
    let n = phases.len();
    lemma_count_all(phases, "complete"@);
    lemma_count_le_len(phases, "complete"@);
    if c == n {
        assert((n * 100) / n == 100) by (nonlinear_arith)
            requires
                n > 0,
        ;
    } else {
        assert((c * 100) / n < 100) by (nonlinear_arith)
            requires
                c < n,
                n > 0,
        ;
    }
}

/// A run labelled `complete` is terminal.
pub proof fn law_complete_label_is_terminal(phases: Seq<ZyalPhase>)
    requires
        state_label_spec(phases) == "complete"@,
    ensures
        is_terminal_spec(phases),
{
    reveal_strlit("complete");
    reveal_strlit("unknown");
    reveal_strlit("failed");
    reveal_strlit("blocked");
    reveal_strlit("partial");
    assert("complete"@ != "unknown"@ && "complete"@ != "failed"@ && "complete"@ != "blocked"@
        && "complete"@ != "partial"@) by {
        assert("complete"@[0] != "unknown"@[0]);
        assert("complete"@.len() != "failed"@.len());
        assert("complete"@[0] != "blocked"@[0]);
        assert("complete"@[0] != "partial"@[0]);
    }
}

/// A phase whose status is anything but `complete`, `blocked` or `failed`
/// (such as `pending` or `running`) has not ended, and keeps its run from
/// being terminal: polling goes on until the run ends or the budget is spent.
pub proof fn law_unended_phase_keeps_run_open(phases: Seq<ZyalPhase>, i: int)
    requires
        0 <= i < phases.len(),
        phases[i].status@ != "complete"@,
        phases[i].status@ != "blocked"@,
        phases[i].status@ != "failed"@,
    ensures
        !is_terminal_spec(phases),
{
}

/// In particular a `pending` or `running` phase keeps the run open.
pub proof fn law_pending_or_running_is_not_terminal(phases: Seq<ZyalPhase>, i: int)
    requires
        0 <= i < phases.len(),
        phases[i].status@ == "pending"@ || phases[i].status@ == "running"@,
    ensures
        !is_terminal_spec(phases),
{
    reveal_strlit("pending");
    reveal_strlit("running");
    reveal_strlit("complete");
    reveal_strlit("blocked");
    reveal_strlit("failed");
    let st = phases[i].status@;
    assert(st != "complete"@ && st != "blocked"@ && st != "failed"@) by {
        if st == "pending"@ {
            assert("pending"@[0] != "complete"@[0] && "pending"@[0] != "blocked"@[0]
                && "pending"@[0] != "failed"@[0]);
        } else {
            assert("running"@[0] != "complete"@[0] && "running"@[0] != "blocked"@[0]
                && "running"@[0] != "failed"@[0]);
        }
    }
    law_unended_phase_keeps_run_open(phases, i);
}

/// A run with at least one phase, each `complete`, `blocked` or `failed`,
/// is terminal; a run without phases never is.
pub proof fn law_ended_phases_make_run_terminal(phases: Seq<ZyalPhase>)
    ensures
        phases.len() == 0 ==> !is_terminal_spec(phases),
        (phases.len() > 0 && forall|i: int|
            0 <= i < phases.len() ==> (#[trigger] phases[i]).status@ == "complete"@
                || phases[i].status@ == "blocked"@ || phases[i].status@ == "failed"@)
            ==> is_terminal_spec(phases),
{
}

/// A terminal run is never labelled `partial` or `unknown`: its label is
/// `failed`, `blocked` or `complete`.
pub proof fn law_terminal_run_label(phases: Seq<ZyalPhase>)
    requires
        is_terminal_spec(phases),
    ensures
        state_label_spec(phases) == "failed"@ || state_label_spec(phases) == "blocked"@
            || state_label_spec(phases) == "complete"@,
{
    if !any_status(phases, "failed"@) && !any_status(phases, "blocked"@) {
        assert forall|i: int| 0 <= i < phases.len() implies (#[trigger] phases[i]).status@
            == "complete"@ by {
            assert(is_terminal_status(phases[i].status@));
            if phases[i].status@ == "failed"@ {
                assert(any_status(phases, "failed"@));
            }
            if phases[i].status@ == "blocked"@ {
                assert(any_status(phases, "blocked"@));
            }
        }
    }
}

/// How a run is labelled: a run without phases is `unknown`; a failed phase
/// makes it `failed`; else a blocked phase makes it `blocked`; else it is
/// `complete` when every phase is complete, and `partial` otherwise.
pub proof fn law_state_label_rules(phases: Seq<ZyalPhase>, i: int)
    ensures
        phases.len() == 0 ==> state_label_spec(phases) == "unknown"@,
        0 <= i < phases.len() && phases[i].status@ == "failed"@ ==> state_label_spec(phases)
            == "failed"@,
        0 <= i < phases.len() && phases[i].status@ == "blocked"@ && !any_status(phases, "failed"@)
            ==> state_label_spec(phases) == "blocked"@,
        0 <= i < phases.len() && phases[i].status@ != "complete"@ && !any_status(
            phases,
            "failed"@,
        ) && !any_status(phases, "blocked"@) ==> state_label_spec(phases) == "partial"@,
        (phases.len() > 0 && forall|k: int|
            0 <= k < phases.len() ==> (#[trigger] phases[k]).status@ == "complete"@)
            ==> state_label_spec(phases) == "complete"@,
{
    if 0 <= i < phases.len() && phases[i].status@ == "failed"@ {
        assert(any_status(phases, "failed"@));
    }
    if 0 <= i < phases.len() && phases[i].status@ == "blocked"@ {
        assert(any_status(phases, "blocked"@));
    }
    if (phases.len() > 0 && forall|k: int|
        0 <= k < phases.len() ==> (#[trigger] phases[k]).status@ == "complete"@) {
        reveal_strlit("complete");
        reveal_strlit("failed");
        reveal_strlit("blocked");
        assert("complete"@ != "failed"@ && "complete"@ != "blocked"@) by {
            assert("complete"@[0] != "failed"@[0] && "complete"@[0] != "blocked"@[0]);
        }
        if any_status(phases, "failed"@) {
            let k = choose|k: int| 0 <= k < phases.len() && (#[trigger] phases[k]).status@ == "failed"@;
            assert(phases[k].status@ == "complete"@);
        }
        if any_status(phases, "blocked"@) {
            let k = choose|k: int| 0 <= k < phases.len() && (#[trigger] phases[k]).status@ == "blocked"@;
            assert(phases[k].status@ == "complete"@);
        }
    }
}

/// Percent complete stays between 0 and 100, and is 0 while no phase is
/// complete.
pub proof fn law_percent_bounds(phases: Seq<ZyalPhase>)
    ensures
        percent_spec(phases) <= 100,
        count_status(phases, "complete"@) == 0 ==> percent_spec(phases) == 0,
{
    lemma_count_le_len(phases, "complete"@);
    if phases.len() > 0 {
        let c = count_status(phases, "complete"@);
        let n = phases.len();
        assert((c * 100) / n <= 100) by (nonlinear_arith)
            requires
                c <= n,
                n > 0,
        ;
    }
}

} // verus!
