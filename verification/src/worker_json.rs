//! Reading a worker's structured result out of JSON, field by field as the
//! router sends it. A field may be missing (it then takes its default), and
//! every struct may come as an object (members by name, others ignored) or as
//! an array (fields by position, no more of them than the struct has). A
//! value of the wrong type anywhere makes the whole result unreadable, and
//! the mapping then reads it as the default result.

use vstd::prelude::*;

use crate::ecosystem::opt_text;
use crate::jekko::{
    map_worker_outcome, non_empty_spec, status_text, worker_outcome_spec, JekkoRunOutcome,
    WorkerFileChange, WorkerReport, WorkerStructured,
};
use crate::json::{entries_get, json_get, json_str, lookup, Json};
use crate::text::texts;

verus! {

/// Field `i` of a struct of `n` fields, named `name`: `None` when the value
/// cannot hold such a struct, `Some(None)` when the field is missing.
pub open spec fn struct_field(v: Json, n: nat, i: int, name: Seq<char>) -> Option<Option<Json>> {
    match v {
        Json::Object(entries) => Some(lookup(entries@, name)),
        Json::Array(items) => if items@.len() > n {
            None
        } else if i < items@.len() {
            Some(Some(items@[i]))
        } else {
            Some(None)
        },
        _ => None,
    }
}

/// An optional text field: missing or `null` is `None`.
pub open spec fn opt_text_field(f: Option<Json>) -> Option<Option<Seq<char>>> {
    match f {
        None => Some(None),
        Some(Json::Null) => Some(None),
        Some(Json::String(s)) => Some(Some(s@)),
        _ => None,
    }
}

/// A text field: missing is empty; `null` is refused.
pub open spec fn text_field(f: Option<Json>) -> Option<Seq<char>> {
    match f {
        None => Some(seq![]),
        Some(Json::String(s)) => Some(s@),
        _ => None,
    }
}

/// The values are all strings.
pub open spec fn all_strings(items: Seq<Json>) -> bool {
    forall|k: int| 0 <= k < items.len() ==> (#[trigger] items[k]) is String
}

/// The texts of string values.
pub open spec fn string_texts(items: Seq<Json>) -> Seq<Seq<char>> {
    items.map_values(
        |j: Json|
            match j {
                Json::String(s) => s@,
                _ => seq![],
            },
    )
}

/// A list-of-texts field: missing is empty; anything but an array of
/// strings is refused.
pub open spec fn strings_field(f: Option<Json>) -> Option<Seq<Seq<char>>> {
    match f {
        None => Some(seq![]),
        Some(Json::Array(items)) => if all_strings(items@) {
            Some(string_texts(items@))
        } else {
            None
        },
        _ => None,
    }
}

/// A file change as plain values.
pub struct FileChangeView {
    pub path: Seq<char>,
    pub before_sha256: Option<Seq<char>>,
    pub after_sha256: Option<Seq<char>>,
}

/// A report as plain values.
pub struct ReportView {
    pub files_read: Seq<Seq<char>>,
    pub files_changed: Seq<Seq<char>>,
    pub file_changes: Seq<FileChangeView>,
    pub commands_run: Seq<Seq<char>>,
    pub failures: Seq<Seq<char>>,
}

/// A worker result as plain values.
pub struct WorkerView {
    pub job_id: Option<Seq<char>>,
    pub status: Option<Seq<char>>,
    pub summary: Option<Seq<char>>,
    pub report: ReportView,
    pub raw_model_summary: Option<Seq<char>>,
}

impl View for WorkerFileChange {
    type V = FileChangeView;

    open spec fn view(&self) -> FileChangeView {
        FileChangeView {
            path: self.path@,
            before_sha256: opt_text(self.before_sha256),
            after_sha256: opt_text(self.after_sha256),
        }
    }
}

/// The plain values of file changes.
pub open spec fn change_views(cs: Seq<WorkerFileChange>) -> Seq<FileChangeView> {
    cs.map_values(|c: WorkerFileChange| c@)
}

impl View for WorkerReport {
    type V = ReportView;

    open spec fn view(&self) -> ReportView {
        ReportView {
            files_read: texts(self.files_read@),
            files_changed: texts(self.files_changed@),
            file_changes: change_views(self.file_changes@),
            commands_run: texts(self.commands_run@),
            failures: texts(self.failures@),
        }
    }
}

impl View for WorkerStructured {
    type V = WorkerView;

    open spec fn view(&self) -> WorkerView {
        WorkerView {
            job_id: opt_text(self.job_id),
            status: opt_text(self.status),
            summary: opt_text(self.summary),
            report: self.report@,
            raw_model_summary: opt_text(self.raw_model_summary),
        }
    }
}

/// A file change read from JSON: `path`, `before_sha256`, `after_sha256`.
pub open spec fn file_change_of(v: Json) -> Option<FileChangeView> {
    match struct_field(v, 3, 0, "path"@) {
        None => None,
        Some(pf) => match text_field(pf) {
            None => None,
            Some(path) => match struct_field(v, 3, 1, "before_sha256"@) {
                None => None,
                Some(bf) => match opt_text_field(bf) {
                    None => None,
                    Some(before) => match struct_field(v, 3, 2, "after_sha256"@) {
                        None => None,
                        Some(af) => match opt_text_field(af) {
                            None => None,
                            Some(after) => Some(
                                FileChangeView { path, before_sha256: before, after_sha256: after },
                            ),
                        },
                    },
                },
            },
        },
    }
}

/// The file changes are all readable.
pub open spec fn all_changes(items: Seq<Json>) -> bool {
    forall|k: int| 0 <= k < items.len() ==> (#[trigger] file_change_of(items[k])) is Some
}

/// A list of file changes: missing is empty; anything but an array of
/// readable file changes is refused.
pub open spec fn changes_field(f: Option<Json>) -> Option<Seq<FileChangeView>> {
    match f {
        None => Some(seq![]),
        Some(Json::Array(items)) => if all_changes(items@) {
            Some(Seq::new(items@.len(), |k: int| file_change_of(items@[k])->0))
        } else {
            None
        },
        _ => None,
    }
}

/// A list-of-texts field of a struct.
pub open spec fn strings_at(v: Json, n: nat, i: int, name: Seq<char>) -> Option<Seq<Seq<char>>> {
    match struct_field(v, n, i, name) {
        None => None,
        Some(f) => strings_field(f),
    }
}

/// An optional text field of a struct.
pub open spec fn opt_text_at(v: Json, n: nat, i: int, name: Seq<char>) -> Option<Option<Seq<char>>> {
    match struct_field(v, n, i, name) {
        None => None,
        Some(f) => opt_text_field(f),
    }
}

/// The empty report.
pub open spec fn empty_report() -> ReportView {
    ReportView {
        files_read: seq![],
        files_changed: seq![],
        file_changes: seq![],
        commands_run: seq![],
        failures: seq![],
    }
}

/// A report read from JSON: `files_read`, `files_changed`, `file_changes`,
/// `commands_run`, `failures`.
pub open spec fn report_of(v: Json) -> Option<ReportView> {
    match (
        strings_at(v, 5, 0, "files_read"@),
        strings_at(v, 5, 1, "files_changed"@),
        struct_field(v, 5, 2, "file_changes"@),
        strings_at(v, 5, 3, "commands_run"@),
        strings_at(v, 5, 4, "failures"@),
    ) {
        (Some(read), Some(changed), Some(cf), Some(commands), Some(failures)) => match changes_field(
            cf,
        ) {
            Some(changes) => Some(
                ReportView {
                    files_read: read,
                    files_changed: changed,
                    file_changes: changes,
                    commands_run: commands,
                    failures,
                },
            ),
            None => None,
        },
        _ => None,
    }
}

/// A report field: missing is the empty report.
pub open spec fn report_field(f: Option<Json>) -> Option<ReportView> {
    match f {
        None => Some(empty_report()),
        Some(v) => report_of(v),
    }
}

/// A worker result read from JSON: `job_id`, `status`, `summary`, `report`,
/// `raw_model_summary`.
pub open spec fn worker_of(v: Json) -> Option<WorkerView> {
    match (
        opt_text_at(v, 5, 0, "job_id"@),
        opt_text_at(v, 5, 1, "status"@),
        opt_text_at(v, 5, 2, "summary"@),
        struct_field(v, 5, 3, "report"@),
        opt_text_at(v, 5, 4, "raw_model_summary"@),
    ) {
        (Some(job_id), Some(status), Some(summary), Some(rf), Some(raw)) => match report_field(rf) {
            Some(report) => Some(
                WorkerView { job_id, status, summary, report, raw_model_summary: raw },
            ),
            None => None,
        },
        _ => None,
    }
}

/// The default worker result: every field missing.
pub open spec fn default_worker() -> WorkerView {
    WorkerView {
        job_id: None,
        status: None,
        summary: None,
        report: empty_report(),
        raw_model_summary: None,
    }
}

/// The worker result a JSON value is read as: the readable one, else the
/// default.
pub open spec fn worker_or_default(v: Json) -> WorkerView {
    match worker_of(v) {
        Some(w) => w,
        None => default_worker(),
    }
}

/// The value an optional reference points to.
pub open spec fn deref_opt(f: Option<&Json>) -> Option<Json> {
    match f {
        Some(j) => Some(*j),
        None => None,
    }
}

pub(crate) fn field_at<'a>(v: &'a Json, n: usize, i: usize, name: &str) -> (r: Option<Option<&'a Json>>)
    requires
        i < n,
    ensures
        match r {
            None => struct_field(*v, n as nat, i as int, name@) is None,
            Some(None) => struct_field(*v, n as nat, i as int, name@) == Some(None::<Json>),
            Some(Some(j)) => struct_field(*v, n as nat, i as int, name@) == Some(Some(*j)),
        },
{
    match v {
        Json::Object(entries) => Some(entries_get(entries, name)),
        Json::Array(items) => if items.len() > n {
            None
        } else if i < items.len() {
            Some(Some(&items[i]))
        } else {
            Some(None)
        },
        _ => None,
    }
}

fn opt_text_from(f: Option<&Json>) -> (r: Option<Option<String>>)
    ensures
        match r {
            None => opt_text_field(deref_opt(f)) is None,
            Some(o) => opt_text_field(deref_opt(f)) == Some(opt_text(o)),
        },
{
    match f {
        None => Some(None),
        Some(Json::Null) => Some(None),
        Some(Json::String(s)) => Some(Some(s.clone())),
        _ => None,
    }
}

fn text_from(f: Option<&Json>) -> (r: Option<String>)
    ensures
        match r {
            None => text_field(deref_opt(f)) is None,
            Some(t) => text_field(deref_opt(f)) == Some(t@),
        },
{
    match f {
        None => Some(String::new()),
        Some(Json::String(s)) => Some(s.clone()),
        _ => None,
    }
}

fn strings_of_items(items: &Vec<Json>) -> (r: Option<Vec<String>>)
    ensures
        match r {
            None => !all_strings(items@),
            Some(out) => all_strings(items@) && texts(out@) == string_texts(items@),
        },
{
    let mut out: Vec<String> = Vec::new();
    let mut k: usize = 0;
    while k < items.len()
        invariant
            k <= items@.len(),
            all_strings(items@.take(k as int)),
            texts(out@) == string_texts(items@.take(k as int)),
        decreases items@.len() - k,
    {
        match &items[k] {
            Json::String(s) => {
                let ghost before = out@;
                out.push(s.clone());
                assert(texts(out@) =~= texts(before).push(s@));
                assert(items@.take(k + 1) =~= items@.take(k as int).push(items@[k as int]));
                assert(string_texts(items@.take(k + 1)) =~= string_texts(items@.take(k as int)).push(
                    s@,
                ));
            },
            _ => {
                assert(!(items@[k as int] is String));
                return None;
            },
        }
        k = k + 1;
    }
    assert(items@.take(k as int) =~= items@);
    Some(out)
}

fn strings_from(f: Option<&Json>) -> (r: Option<Vec<String>>)
    ensures
        match r {
            None => strings_field(deref_opt(f)) is None,
            Some(out) => strings_field(deref_opt(f)) == Some(texts(out@)),
        },
{
    match f {
        None => Some(Vec::new()),
        Some(Json::Array(items)) => strings_of_items(items),
        _ => None,
    }
}

fn strings_field_at(v: &Json, n: usize, i: usize, name: &str) -> (r: Option<Vec<String>>)
    requires
        i < n,
    ensures
        match r {
            None => strings_at(*v, n as nat, i as int, name@) is None,
            Some(out) => strings_at(*v, n as nat, i as int, name@) == Some(texts(out@)),
        },
{
    match field_at(v, n, i, name) {
        None => None,
        Some(f) => strings_from(f),
    }
}

pub(crate) fn opt_text_field_at(v: &Json, n: usize, i: usize, name: &str) -> (r: Option<Option<String>>)
    requires
        i < n,
    ensures
        match r {
            None => opt_text_at(*v, n as nat, i as int, name@) is None,
            Some(o) => opt_text_at(*v, n as nat, i as int, name@) == Some(opt_text(o)),
        },
{
    match field_at(v, n, i, name) {
        None => None,
        Some(f) => opt_text_from(f),
    }
}

/// Reads a file change.
pub fn file_change_from(v: &Json) -> (r: Option<WorkerFileChange>)
    ensures
        match r {
            None => file_change_of(*v) is None,
            Some(c) => file_change_of(*v) == Some(c@),
        },
{
    let path = match field_at(v, 3, 0, "path") {
        None => {
            return None;
        },
        Some(f) => match text_from(f) {
            None => {
                return None;
            },
            Some(p) => p,
        },
    };
    let before = match opt_text_field_at(v, 3, 1, "before_sha256") {
        None => {
            return None;
        },
        Some(b) => b,
    };
    let after = match opt_text_field_at(v, 3, 2, "after_sha256") {
        None => {
            return None;
        },
        Some(a) => a,
    };
    Some(WorkerFileChange { path, before_sha256: before, after_sha256: after })
}

fn changes_of_items(items: &Vec<Json>) -> (r: Option<Vec<WorkerFileChange>>)
    ensures
        match r {
            None => !all_changes(items@),
            Some(out) => all_changes(items@) && change_views(out@) == Seq::new(
                items@.len(),
                |j: int| file_change_of(items@[j])->0,
            ),
        },
{
    let mut out: Vec<WorkerFileChange> = Vec::new();
    let mut k: usize = 0;
    while k < items.len()
        invariant
            k <= items@.len(),
            out@.len() == k,
            forall|j: int| 0 <= j < k ==> (#[trigger] file_change_of(items@[j])) == Some(out@[j]@),
        decreases items@.len() - k,
    {
        match file_change_from(&items[k]) {
            Some(c) => {
                out.push(c);
            },
            None => {
                assert(file_change_of(items@[k as int]) is None);
                return None;
            },
        }
        k = k + 1;
    }
    assert(all_changes(items@)) by {
        assert forall|j: int| 0 <= j < items@.len() implies (#[trigger] file_change_of(
            items@[j],
        )) is Some by {
            assert(file_change_of(items@[j]) == Some(out@[j]@));
        }
    }
    assert(change_views(out@) =~= Seq::new(items@.len(), |j: int| file_change_of(items@[j])->0));
    Some(out)
}

fn changes_from(f: Option<&Json>) -> (r: Option<Vec<WorkerFileChange>>)
    ensures
        match r {
            None => changes_field(deref_opt(f)) is None,
            Some(out) => changes_field(deref_opt(f)) == Some(change_views(out@)),
        },
{
    match f {
        None => {
            let out: Vec<WorkerFileChange> = Vec::new();
            assert(change_views(out@) =~= Seq::<FileChangeView>::empty());
            Some(out)
        },
        Some(Json::Array(items)) => changes_of_items(items),
        _ => None,
    }
}

fn report_from(f: Option<&Json>) -> (r: Option<WorkerReport>)
    ensures
        match r {
            None => report_field(deref_opt(f)) is None,
            Some(rep) => report_field(deref_opt(f)) == Some(rep@),
        },
{
    let v = match f {
        None => {
            let rep = WorkerReport {
                files_read: Vec::new(),
                files_changed: Vec::new(),
                file_changes: Vec::new(),
                commands_run: Vec::new(),
                failures: Vec::new(),
            };
            assert(rep@ =~= empty_report()) by {
                assert(texts(rep.files_read@) =~= Seq::<Seq<char>>::empty());
                assert(change_views(rep.file_changes@) =~= Seq::<FileChangeView>::empty());
            }
            return Some(rep);
        },
        Some(v) => v,
    };
    let files_read = match strings_field_at(v, 5, 0, "files_read") {
        None => {
            return None;
        },
        Some(x) => x,
    };
    let files_changed = match strings_field_at(v, 5, 1, "files_changed") {
        None => {
            return None;
        },
        Some(x) => x,
    };
    let cf = match field_at(v, 5, 2, "file_changes") {
        None => {
            return None;
        },
        Some(x) => x,
    };
    let commands_run = match strings_field_at(v, 5, 3, "commands_run") {
        None => {
            return None;
        },
        Some(x) => x,
    };
    let failures = match strings_field_at(v, 5, 4, "failures") {
        None => {
            return None;
        },
        Some(x) => x,
    };
    let file_changes = match changes_from(cf) {
        None => {
            return None;
        },
        Some(x) => x,
    };
    Some(WorkerReport { files_read, files_changed, file_changes, commands_run, failures })
}

/// Reads a worker's structured result; `None` when it is not readable.
pub fn worker_structured_of(v: &Json) -> (r: Option<WorkerStructured>)
    ensures
        match r {
            None => worker_of(*v) is None,
            Some(w) => worker_of(*v) == Some(w@),
        },
{
    let job_id = match opt_text_field_at(v, 5, 0, "job_id") {
        None => {
            return None;
        },
        Some(x) => x,
    };
    let status = match opt_text_field_at(v, 5, 1, "status") {
        None => {
            return None;
        },
        Some(x) => x,
    };
    let summary = match opt_text_field_at(v, 5, 2, "summary") {
        None => {
            return None;
        },
        Some(x) => x,
    };
    let rf = match field_at(v, 5, 3, "report") {
        None => {
            return None;
        },
        Some(x) => x,
    };
    let raw_model_summary = match opt_text_field_at(v, 5, 4, "raw_model_summary") {
        None => {
            return None;
        },
        Some(x) => x,
    };
    let report = match report_from(rf) {
        None => {
            return None;
        },
        Some(x) => x,
    };
    Some(WorkerStructured { job_id, status, summary, report, raw_model_summary })
}

/// Reads a worker's structured result, falling back to the default (every
/// field missing) when it is not readable.
pub fn worker_structured_or_default(v: &Json) -> (w: WorkerStructured)
    ensures
        w@ == worker_or_default(*v),
{
    match worker_structured_of(v) {
        Some(w) => w,
        None => {
            let w = WorkerStructured {
                job_id: None,
                status: None,
                summary: None,
                report: WorkerReport {
                    files_read: Vec::new(),
                    files_changed: Vec::new(),
                    file_changes: Vec::new(),
                    commands_run: Vec::new(),
                    failures: Vec::new(),
                },
                raw_model_summary: None,
            };
            assert(w@ =~= default_worker()) by {
                assert(texts(w.report.files_read@) =~= Seq::<Seq<char>>::empty());
                assert(change_views(w.report.file_changes@) =~= Seq::<FileChangeView>::empty());
            }
            w
        },
    }
}

/// Maps a worker's structured JSON result to a run outcome, reading a result
/// that is not readable as the default one.
pub fn map_worker_json(v: &Json) -> (outcome: JekkoRunOutcome)
    ensures
        exists|w: WorkerStructured| w@ == worker_or_default(*v) && #[trigger] worker_outcome_spec(outcome, w),
{
    let w = worker_structured_or_default(v);
    let outcome = map_worker_outcome(&w);
    assert(w@ == worker_or_default(*v) && worker_outcome_spec(outcome, w));
    outcome
}

/// The status text a worker view reports; empty when it has none.
pub open spec fn view_status_text(w: WorkerView) -> Seq<char> {
    match w.status {
        Some(s) => s,
        None => seq![],
    }
}

/// A text when it is present and non-empty.
pub open spec fn non_empty_text(o: Option<Seq<char>>) -> Option<Seq<char>> {
    match o {
        Some(t) => if t.len() > 0 {
            Some(t)
        } else {
            None
        },
        None => None,
    }
}

/// What mapping a worker's JSON result gives, stated over the result as it
/// reads (the default one when it does not): success exactly on status
/// `succeeded`; the job id as run reference when non-empty, else
/// `jnoccio-worker`, so never empty; the summary, else the raw model summary,
/// when non-empty, as assistant text; one `file` artifact per file change, in
/// order, with its path and after-digest; and an error exactly on status
/// `failed`, which is the failures joined with `; `, or a default text, and
/// never empty. On an object that reads, the status is its `status` string.
pub proof fn law_worker_json_outcome(v: Json, outcome: JekkoRunOutcome, w: WorkerStructured)
    requires
        w@ == worker_or_default(v),
        worker_outcome_spec(outcome, w),
    ensures
        ({
            let r = worker_or_default(v);
            &&& outcome.success == (view_status_text(r) == "succeeded"@)
            &&& outcome.run_ref@ == (match non_empty_text(r.job_id) {
                Some(j) => j,
                None => "jnoccio-worker"@,
            })
            &&& outcome.run_ref@.len() > 0
            &&& opt_text(outcome.assistant_text) == (match non_empty_text(r.summary) {
                Some(t) => Some(t),
                None => non_empty_text(r.raw_model_summary),
            })
            &&& outcome.artifacts@.len() == r.report.file_changes.len()
            &&& forall|i: int|
                0 <= i < outcome.artifacts@.len() ==> {
                    &&& (#[trigger] outcome.artifacts@[i]).kind@ == "file"@
                    &&& outcome.artifacts@[i].reference@ == r.report.file_changes[i].path
                    &&& opt_text(outcome.artifacts@[i].digest)
                        == r.report.file_changes[i].after_sha256
                }
            &&& (outcome.error is Some) == (view_status_text(r) == "failed"@)
            &&& (outcome.error matches Some(e) ==> e@.len() > 0)
        }),
        (v is Object && worker_of(v) is Some) ==> worker_or_default(v).status == json_str(
            json_get(v, "status"@),
        ),
{
    reveal_strlit("jnoccio-worker");
    reveal_strlit("jekko worker_run failed");
    let r = worker_or_default(v);
    assert(status_text(w) == view_status_text(r));
    assert(opt_text(w.job_id) == r.job_id);
    assert(non_empty_spec(w.job_id) == non_empty_text(r.job_id));
    assert(non_empty_spec(w.summary) == non_empty_text(r.summary));
    assert(non_empty_spec(w.raw_model_summary) == non_empty_text(r.raw_model_summary));
    assert(r.report.file_changes == change_views(w.report.file_changes@));
    assert forall|i: int| 0 <= i < outcome.artifacts@.len() implies {
        &&& (#[trigger] outcome.artifacts@[i]).kind@ == "file"@
        &&& outcome.artifacts@[i].reference@ == r.report.file_changes[i].path
        &&& opt_text(outcome.artifacts@[i].digest) == r.report.file_changes[i].after_sha256
    } by {
        assert(r.report.file_changes[i] == w.report.file_changes@[i]@);
    }
}

} // verus!
