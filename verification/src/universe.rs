//! The cockpit's universe projection: per-repo scores and agent placements
//! from work orders, leases and the Jeryu ecosystem, and the slices that say
//! how much of it was actually observed.

use vstd::prelude::*;

use crate::clock::Timestamp;
use crate::domain::{Lease, SystemStatus, WorkOrder};
use crate::ecosystem::{opt_text, EcosystemSnapshot, EcosystemTool};
use crate::json::{json_get, payload_contains_spec, value_contains_spec, work_order_payload_contains, Json};
use crate::text::{
    ascii_lower_text, concat, contains, contains_text, eq_ignore_ascii_case, is_blank,
    is_blank_text, join, join_text, str_eq, texts, to_ascii_lowercase,
};

verus! {

/// A coarse health level.
#[derive(Clone, Copy, Debug, PartialEq, Eq)]
pub enum HealthLevel {
    Nominal,
    Watch,
    Degraded,
    Blocked,
}

/// The sum of a list of small numbers.
pub open spec fn sum_u8(values: Seq<u8>) -> nat
    decreases values.len(),
{
    if values.len() == 0 {
        0
    } else {
        sum_u8(values.drop_last()) + values.last() as nat
    }
}

/// The rounded-down mean; 0 for an empty list.
pub open spec fn average_spec(values: Seq<u8>) -> nat {
    if values.len() == 0 {
        0
    } else {
        sum_u8(values) / values.len()
    }
}

proof fn lemma_sum_u8_bound(values: Seq<u8>)
    ensures
        sum_u8(values) <= 255 * values.len(),
    decreases values.len(),
{
    if values.len() > 0 {
        lemma_sum_u8_bound(values.drop_last());
    }
}

/// The rounded-down mean of the values; 0 when there are none.
pub fn average_numbers(values: &[u8]) -> (avg: u8)
    requires
        values@.len() <= 16_843_009,
    ensures
        avg == average_spec(values@),
{
    if values.len() == 0 {
        return 0;
    }
    let mut total: u32 = 0;
    let mut i: usize = 0;
    while i < values.len()
        invariant
            i <= values@.len(),
            values@.len() <= 16_843_009,
            total == sum_u8(values@.take(i as int)),
        decreases values@.len() - i,
    {
        assert(values@.take(i + 1).drop_last() =~= values@.take(i as int));
        proof {
            lemma_sum_u8_bound(values@.take(i + 1));
        }
        total = total + values[i] as u32;
        i = i + 1;
    }
    assert(values@.take(i as int) =~= values@);
    proof {
        lemma_sum_u8_bound(values@);
        let n = values@.len() as int;
        assert(sum_u8(values@) as int / n <= 255) by (nonlinear_arith)
            requires
                sum_u8(values@) <= 255 * n,
                n > 0,
        ;
    }
    (total / (values.len() as u32)) as u8
}

/// Whether the text is the placeholder for something not observed.
pub open spec fn observed(value: Seq<char>, placeholder: Seq<char>) -> nat {
    if value == placeholder {
        0
    } else {
        1
    }
}

/// Coverage of a repo: the share (in percent, rounded down) of task, branch and
/// pool that were observed.
pub open spec fn coverage_spec(task: Seq<char>, branch: Seq<char>, pool: Seq<char>) -> nat {
    ((observed(task, "unobserved"@) + observed(branch, "unobserved"@) + observed(
        pool,
        "unassigned"@,
    )) * 100) / 3
}

/// The share of task, branch and pool that were observed, in percent.
pub fn repo_coverage(current_task: &str, branch: &str, pool: &str) -> (c: u8)
    ensures
        c == coverage_spec(current_task@, branch@, pool@),
        c <= 100,
{
    let mut n: u32 = 0;
    if !str_eq(current_task, "unobserved") {
        n = n + 1;
    }
    if !str_eq(branch, "unobserved") {
        n = n + 1;
    }
    if !str_eq(pool, "unassigned") {
        n = n + 1;
    }
    ((n * 100) / 3) as u8
}

/// The value clamped into `0..=100`.
pub open spec fn clamp_pct(v: int) -> int {
    if v < 0 {
        0
    } else if v > 100 {
        100
    } else {
        v
    }
}

/// The score penalty of one tool's health.
pub open spec fn health_penalty(health: Option<String>) -> int {
    match health {
        Some(h) => if h@ == "degraded"@ {
            18
        } else if h@ == "blocked"@ {
            22
        } else if h@ == "watch"@ {
            8
        } else {
            0
        },
        None => 0,
    }
}

/// A repo's score: 46, plus half the coverage, plus 4 per tool, minus the
/// tools' health penalties, clamped into `0..=100`.
pub open spec fn repo_score_spec(tool_count: int, coverage: int, penalty: int) -> int {
    clamp_pct(46 + coverage / 2 + tool_count * 4 - penalty)
}

/// A repo's score from its tool count, coverage and the summed health
/// penalties of its tools.
pub fn repo_score(tool_count: usize, coverage: u8, penalty: i128) -> (score: u8)
    requires
        0 <= penalty,
    ensures
        score == repo_score_spec(tool_count as int, coverage as int, penalty as int),
{
    let score: i128 = 46 + (coverage as i128) / 2 + (tool_count as i128) * 4 - penalty;
    if score < 0 {
        0
    } else if score > 100 {
        100
    } else {
        score as u8
    }
}

fn tool_penalty(health: &Option<String>) -> (p: i128)
    ensures
        p == health_penalty(*health),
{
    match health {
        Some(h) => if str_eq(h.as_str(), "degraded") {
            18
        } else if str_eq(h.as_str(), "blocked") {
            22
        } else if str_eq(h.as_str(), "watch") {
            8
        } else {
            0
        },
        None => 0,
    }
}

/// The repo a tool is grouped under: its tag, else `local`.
pub open spec fn repo_key(tool: EcosystemTool) -> Seq<char> {
    match tool.repo {
        Some(r) => r@,
        None => "local"@,
    }
}

/// How many tools are grouped under `repo`.
pub open spec fn count_repo_tools(tools: Seq<EcosystemTool>, repo: Seq<char>) -> nat
    decreases tools.len(),
{
    if tools.len() == 0 {
        0
    } else {
        count_repo_tools(tools.drop_last(), repo) + if repo_key(tools.last()) == repo {
            1nat
        } else {
            0nat
        }
    }
}

/// The summed health penalties of the tools grouped under `repo`.
pub open spec fn repo_penalties(tools: Seq<EcosystemTool>, repo: Seq<char>) -> int
    decreases tools.len(),
{
    if tools.len() == 0 {
        0
    } else {
        repo_penalties(tools.drop_last(), repo) + if repo_key(tools.last()) == repo {
            health_penalty(tools.last().health)
        } else {
            0
        }
    }
}

proof fn lemma_repo_stats_bound(tools: Seq<EcosystemTool>, repo: Seq<char>)
    ensures
        count_repo_tools(tools, repo) <= tools.len(),
        0 <= repo_penalties(tools, repo) <= 22 * tools.len(),
    decreases tools.len(),
{
    if tools.len() > 0 {
        lemma_repo_stats_bound(tools.drop_last(), repo);
    }
}

/// The number of tools grouped under `repo` and their summed health penalties.
pub fn repo_tool_stats(tools: &[EcosystemTool], repo: &str) -> (stats: (usize, i128))
    ensures
        stats.0 == count_repo_tools(tools@, repo@),
        stats.1 == repo_penalties(tools@, repo@),
        stats.0 <= tools@.len(),
        0 <= stats.1 <= 22 * tools@.len(),
{
    let mut count: usize = 0;
    let mut total: i128 = 0;
    let mut i: usize = 0;
    while i < tools.len()
        invariant
            i <= tools@.len(),
            count == count_repo_tools(tools@.take(i as int), repo@),
            total == repo_penalties(tools@.take(i as int), repo@),
        decreases tools@.len() - i,
    {
        assert(tools@.take(i + 1).drop_last() =~= tools@.take(i as int));
        proof {
            lemma_repo_stats_bound(tools@.take(i + 1), repo@);
        }
        let in_repo = match &tools[i].repo {
            Some(r) => str_eq(r.as_str(), repo),
            None => str_eq("local", repo),
        };
        if in_repo {
            count = count + 1;
            total = total + tool_penalty(&tools[i].health);
        }
        i = i + 1;
    }
    assert(tools@.take(i as int) =~= tools@);
    proof {
        lemma_repo_stats_bound(tools@, repo@);
    }
    (count, total)
}

/// The health level of a score.
pub open spec fn score_health_spec(score: u8) -> HealthLevel {
    if 85 <= score <= 100 {
        HealthLevel::Nominal
    } else if 65 <= score <= 84 {
        HealthLevel::Watch
    } else if 35 <= score <= 64 {
        HealthLevel::Degraded
    } else {
        HealthLevel::Blocked
    }
}

/// The health level of a score: 85-100 nominal, 65-84 watch, 35-64 degraded,
/// otherwise blocked.
pub fn score_health(score: u8) -> (h: HealthLevel)
    ensures
        h == score_health_spec(score),
{
    if 85 <= score && score <= 100 {
        HealthLevel::Nominal
    } else if 65 <= score && score <= 84 {
        HealthLevel::Watch
    } else if 35 <= score && score <= 64 {
        HealthLevel::Degraded
    } else {
        HealthLevel::Blocked
    }
}

/// The `; `-joined reasons, or `None` when there are none.
pub open spec fn join_reasons_spec(reasons: Seq<Seq<char>>) -> Option<Seq<char>> {
    if reasons.len() == 0 {
        None
    } else {
        Some(join_text(reasons, "; "@))
    }
}

/// Joins reasons with `; `; no reasons give `None`.
pub fn join_reasons(values: &[String]) -> (r: Option<String>)
    ensures
        opt_text(r) == join_reasons_spec(texts(values@)),
{
    if values.len() == 0 {
        None
    } else {
        Some(join(values, "; "))
    }
}

/// The reasons a placement is not fully observed.
pub open spec fn placement_reasons(
    repo: Seq<char>,
    task: Seq<char>,
    branch: Seq<char>,
    pool: Seq<char>,
) -> Seq<Seq<char>> {
    let a: Seq<Seq<char>> = if task == "unobserved"@ {
        seq![repo + " current task not observed"@]
    } else {
        seq![]
    };
    let b: Seq<Seq<char>> = if branch == "unobserved"@ {
        seq![repo + " branch not observed"@]
    } else {
        seq![]
    };
    let c: Seq<Seq<char>> = if pool == "unassigned"@ {
        seq![repo + " pool not observed"@]
    } else {
        seq![]
    };
    a + b + c
}

fn push_unobserved_reasons(
    reasons: &mut Vec<String>,
    repo: &str,
    current_task: &str,
    branch: &str,
    pool: &str,
)
    ensures
        texts(final(reasons)@) == texts(old(reasons)@) + placement_reasons(
            repo@,
            current_task@,
            branch@,
            pool@,
        ),
{
    let ghost start = texts(reasons@);
    if str_eq(current_task, "unobserved") {
        reasons.push(concat(repo, " current task not observed"));
    }
    let ghost after_a = texts(reasons@);
    if str_eq(branch, "unobserved") {
        reasons.push(concat(repo, " branch not observed"));
    }
    let ghost after_b = texts(reasons@);
    if str_eq(pool, "unassigned") {
        reasons.push(concat(repo, " pool not observed"));
    }
    assert(texts(reasons@) =~= start + placement_reasons(repo@, current_task@, branch@, pool@));
}

/// Why a placement is degraded: each of task, branch and pool that was not
/// observed, joined with `; `; `None` when all were.
pub fn placement_degraded_reason(repo: &str, current_task: &str, branch: &str, pool: &str) -> (r:
    Option<String>)
    ensures
        opt_text(r) == join_reasons_spec(placement_reasons(repo@, current_task@, branch@, pool@)),
{
    let mut reasons: Vec<String> = Vec::new();
    assert(texts(reasons@) =~= seq![]);
    push_unobserved_reasons(&mut reasons, repo, current_task, branch, pool);
    assert(texts(reasons@) =~= placement_reasons(repo@, current_task@, branch@, pool@));
    join_reasons(reasons.as_slice())
}

/// The reasons a repo score is not fully observed.
pub open spec fn repo_reasons(
    repo: Seq<char>,
    tool_count: int,
    task: Seq<char>,
    branch: Seq<char>,
    pool: Seq<char>,
    eco_live: bool,
    eco_reason: Seq<char>,
) -> Seq<Seq<char>> {
    let tools: Seq<Seq<char>> = if tool_count == 0 {
        seq![repo + " has no observed ecosystem tools"@]
    } else {
        seq![]
    };
    let jeryu: Seq<Seq<char>> = if !eco_live && ascii_lower_text(repo) == "jeryu"@ {
        seq![
            if eco_reason.len() == 0 {
                "Jeryu ecosystem unavailable"@
            } else {
                eco_reason
            },
        ]
    } else {
        seq![]
    };
    tools + placement_reasons(repo, task, branch, pool) + jeryu
}

/// Why a repo score is degraded: no tools, unobserved task, branch or pool,
/// and for Jeryu an unavailable ecosystem; `None` when nothing is missing.
pub fn repo_degraded_reason(
    repo: &str,
    tool_count: usize,
    current_task: &str,
    branch: &str,
    pool: &str,
    ecosystem: &EcosystemSnapshot,
) -> (r: Option<String>)
    ensures
        opt_text(r) == join_reasons_spec(
            repo_reasons(
                repo@,
                tool_count as int,
                current_task@,
                branch@,
                pool@,
                ecosystem.live,
                ecosystem.degraded_reason@,
            ),
        ),
{
    proof {
        reveal_strlit("jeryu");
        assert(ascii_lower_text("jeryu"@) =~= "jeryu"@);
    }
    let mut reasons: Vec<String> = Vec::new();
    if tool_count == 0 {
        reasons.push(concat(repo, " has no observed ecosystem tools"));
    }
    let ghost tools_part: Seq<Seq<char>> = if tool_count == 0 {
        seq![repo@ + " has no observed ecosystem tools"@]
    } else {
        seq![]
    };
    assert(texts(reasons@) =~= tools_part);
    push_unobserved_reasons(&mut reasons, repo, current_task, branch, pool);
    let ghost before = texts(reasons@);
    if !ecosystem.live && eq_ignore_ascii_case(repo, "jeryu") {
        if ecosystem.degraded_reason.unicode_len() == 0 {
            reasons.push("Jeryu ecosystem unavailable".to_owned());
        } else {
            reasons.push(ecosystem.degraded_reason.clone());
        }
    }
    assert(texts(reasons@) =~= repo_reasons(
        repo@,
        tool_count as int,
        current_task@,
        branch@,
        pool@,
        ecosystem.live,
        ecosystem.degraded_reason@,
    ));
    join_reasons(reasons.as_slice())
}


// ---------------------------------------------------------------- work orders

/// The work order mentions `repo` (ASCII case ignored) in its subject, its kind
/// or any string of its payload.
pub open spec fn order_matches_spec(order: WorkOrder, repo: Seq<char>) -> bool {
    let r = ascii_lower_text(repo);
    contains_text(ascii_lower_text(order.subject@), r) || contains_text(
        ascii_lower_text(order.task.kind@),
        r,
    ) || payload_contains_spec(order.task.payload, r)
}

/// Whether a work order mentions `repo`.
pub fn order_matches_repo(order: &WorkOrder, repo: &str) -> (r: bool)
    ensures
        r == order_matches_spec(*order, repo@),
{
    let repo_lower = to_ascii_lowercase(repo);
    let subject = to_ascii_lowercase(order.subject.as_str());
    if contains(subject.as_str(), repo_lower.as_str()) {
        return true;
    }
    let kind = to_ascii_lowercase(order.task.kind.as_str());
    if contains(kind.as_str(), repo_lower.as_str()) {
        return true;
    }
    work_order_payload_contains(&order.task.payload, repo_lower.as_str())
}

/// `a` is no later than `b`.
pub open spec fn ts_le(a: (i64, u32), b: (i64, u32)) -> bool {
    a.0 < b.0 || (a.0 == b.0 && a.1 <= b.1)
}

/// The index of the most recently updated work order that mentions `repo`;
/// among equally recent ones, the last.
pub open spec fn latest_match(orders: Seq<WorkOrder>, repo: Seq<char>) -> Option<int>
    decreases orders.len(),
{
    if orders.len() == 0 {
        None
    } else {
        let prev = latest_match(orders.drop_last(), repo);
        let k = orders.len() - 1;
        if order_matches_spec(orders[k], repo) && (match prev {
            Some(p) => ts_le(orders[p].updated_at@, orders[k].updated_at@),
            None => true,
        }) {
            Some(k)
        } else {
            prev
        }
    }
}

proof fn lemma_latest_match_in_range(orders: Seq<WorkOrder>, repo: Seq<char>)
    ensures
        latest_match(orders, repo) matches Some(k) ==> 0 <= k < orders.len(),
    decreases orders.len(),
{
    if orders.len() > 0 {
        lemma_latest_match_in_range(orders.drop_last(), repo);
    }
}

/// The index of the most recently updated work order that mentions `repo`.
pub fn find_work_order_for_repo(repo: &str, orders: &[WorkOrder]) -> (r: Option<usize>)
    ensures
        match r {
            Some(k) => latest_match(orders@, repo@) == Some(k as int),
            None => latest_match(orders@, repo@) is None,
        },
{
    let mut best: Option<usize> = None;
    let mut i: usize = 0;
    while i < orders.len()
        invariant
            i <= orders@.len(),
            match best {
                Some(k) => latest_match(orders@.take(i as int), repo@) == Some(k as int),
                None => latest_match(orders@.take(i as int), repo@) is None,
            },
        decreases orders@.len() - i,
    {
        let ghost prefix = orders@.take(i + 1);
        assert(prefix.drop_last() =~= orders@.take(i as int));
        proof {
            lemma_latest_match_in_range(orders@.take(i as int), repo@);
        }
        if order_matches_repo(&orders[i], repo) {
            let replace = match best {
                None => true,
                Some(k) => {
                    let a = orders[k].updated_at;
                    let b = orders[i].updated_at;
                    a.unix_secs() < b.unix_secs() || (a.unix_secs() == b.unix_secs()
                        && a.subsec_nanos() <= b.subsec_nanos())
                },
            };
            if replace {
                best = Some(i);
            }
        }
        i = i + 1;
    }
    assert(orders@.take(i as int) =~= orders@);
    best
}

/// The payload keys a branch may be carried under, in order of preference.
pub open spec fn branch_keys() -> Seq<Seq<char>> {
    seq!["branch"@, "repo_branch"@, "repoBranch"@, "git_branch"@, "gitBranch"@]
}

/// The first of `keys` whose payload value is a string that is not blank.
pub open spec fn branch_from(payload: Json, keys: Seq<Seq<char>>) -> Option<Seq<char>>
    decreases keys.len(),
{
    if keys.len() == 0 {
        None
    } else {
        match json_get(payload, keys[0]) {
            Some(Json::String(b)) => if !is_blank_text(b@) {
                Some(b@)
            } else {
                branch_from(payload, keys.drop_first())
            },
            _ => branch_from(payload, keys.drop_first()),
        }
    }
}

fn branch_under(payload: &Json, key: &str) -> (b: Option<String>)
    ensures
        opt_text(b) == (match json_get(*payload, key@) {
            Some(Json::String(b)) => if !is_blank_text(b@) {
                Some(b@)
            } else {
                None
            },
            _ => None,
        }),
{
    match payload.get(key) {
        Some(Json::String(b)) => if !is_blank(b.as_str()) {
            Some(b.clone())
        } else {
            None
        },
        _ => None,
    }
}

/// The branch a work order names in its payload, if any.
pub fn work_order_branch(order: &WorkOrder) -> (b: Option<String>)
    ensures
        opt_text(b) == branch_from(order.task.payload, branch_keys()),
{
    let payload = &order.task.payload;
    let ghost keys = branch_keys();
    assert(keys.drop_first() =~= seq!["repo_branch"@, "repoBranch"@, "git_branch"@, "gitBranch"@]);
    assert(keys.drop_first().drop_first() =~= seq!["repoBranch"@, "git_branch"@, "gitBranch"@]);
    assert(keys.drop_first().drop_first().drop_first() =~= seq!["git_branch"@, "gitBranch"@]);
    assert(keys.drop_first().drop_first().drop_first().drop_first() =~= seq!["gitBranch"@]);
    assert(keys.drop_first().drop_first().drop_first().drop_first().drop_first() =~= Seq::<
        Seq<char>,
    >::empty());
    proof {
        reveal_with_fuel(branch_from, 6);
    }
    match branch_under(payload, "branch") {
        Some(b) => {
            return Some(b);
        },
        None => {},
    }
    match branch_under(payload, "repo_branch") {
        Some(b) => {
            return Some(b);
        },
        None => {},
    }
    match branch_under(payload, "repoBranch") {
        Some(b) => {
            return Some(b);
        },
        None => {},
    }
    match branch_under(payload, "git_branch") {
        Some(b) => {
            return Some(b);
        },
        None => {},
    }
    branch_under(payload, "gitBranch")
}

/// The holder of the last lease on work order `id`.
pub open spec fn lease_holder_spec(leases: Seq<Lease>, id: u128) -> Option<Seq<char>>
    decreases leases.len(),
{
    if leases.len() == 0 {
        None
    } else if leases.last().work_order_id == id {
        Some(leases.last().holder@)
    } else {
        lease_holder_spec(leases.drop_last(), id)
    }
}

/// The holder of the last lease on work order `id`.
pub fn lease_holder(leases: &[Lease], id: u128) -> (h: Option<String>)
    ensures
        opt_text(h) == lease_holder_spec(leases@, id),
{
    let mut i: usize = leases.len();
    assert(leases@.take(i as int) =~= leases@);
    while i > 0
        invariant
            i <= leases@.len(),
            lease_holder_spec(leases@, id) == lease_holder_spec(leases@.take(i as int), id),
        decreases i,
    {
        assert(leases@.take(i as int).drop_last() =~= leases@.take(i - 1));
        if leases[i - 1].work_order_id == id {
            return Some(leases[i - 1].holder.clone());
        }
        i = i - 1;
    }
    None
}

/// How many distinct work orders the leases cover.
pub open spec fn distinct_lease_count(leases: Seq<Lease>) -> nat
    decreases leases.len(),
{
    if leases.len() == 0 {
        0
    } else {
        distinct_lease_count(leases.drop_last()) + if exists|j: int|
            0 <= j < leases.len() - 1 && (#[trigger] leases[j]).work_order_id
                == leases.last().work_order_id {
            0nat
        } else {
            1nat
        }
    }
}

proof fn lemma_distinct_le(leases: Seq<Lease>)
    ensures
        distinct_lease_count(leases) <= leases.len(),
    decreases leases.len(),
{
    if leases.len() > 0 {
        lemma_distinct_le(leases.drop_last());
    }
}

/// How many distinct work orders the leases cover.
pub fn count_leased_orders(leases: &[Lease]) -> (n: usize)
    ensures
        n == distinct_lease_count(leases@),
        n <= leases@.len(),
{
    let mut n: usize = 0;
    let mut i: usize = 0;
    while i < leases.len()
        invariant
            i <= leases@.len(),
            n == distinct_lease_count(leases@.take(i as int)),
        decreases leases@.len() - i,
    {
        let ghost prefix = leases@.take(i + 1);
        assert(prefix.drop_last() =~= leases@.take(i as int));
        proof {
            lemma_distinct_le(leases@.take(i as int));
        }
        let mut seen = false;
        let mut j: usize = 0;
        while j < i
            invariant
                i < leases@.len(),
                j <= i,
                prefix == leases@.take(i + 1),
                seen == exists|k: int|
                    0 <= k < j && (#[trigger] prefix[k]).work_order_id == prefix.last().work_order_id,
            decreases i - j,
        {
            if leases[j].work_order_id == leases[i].work_order_id {
                assert(prefix[j as int].work_order_id == prefix.last().work_order_id);
                seen = true;
            }
            j = j + 1;
        }
        if !seen {
            n = n + 1;
        }
        i = i + 1;
    }
    assert(leases@.take(i as int) =~= leases@);
    proof {
        lemma_distinct_le(leases@);
    }
    n
}

/// How many work orders mention `repo`.
pub open spec fn count_matching(orders: Seq<WorkOrder>, repo: Seq<char>) -> nat
    decreases orders.len(),
{
    if orders.len() == 0 {
        0
    } else {
        count_matching(orders.drop_last(), repo) + if order_matches_spec(orders.last(), repo) {
            1nat
        } else {
            0nat
        }
    }
}

proof fn lemma_count_matching_le(orders: Seq<WorkOrder>, repo: Seq<char>)
    ensures
        count_matching(orders, repo) <= orders.len(),
    decreases orders.len(),
{
    if orders.len() > 0 {
        lemma_count_matching_le(orders.drop_last(), repo);
    }
}

/// A placement's score: 42, plus half its coverage, plus 8 per work order that
/// mentions the repo, plus 2 per leased work order, clamped into `0..=100`.
pub open spec fn placement_score_spec(
    repo: Seq<char>,
    task: Seq<char>,
    branch: Seq<char>,
    pool: Seq<char>,
    orders: Seq<WorkOrder>,
    leases: Seq<Lease>,
) -> int {
    clamp_pct(
        42 + coverage_spec(task, branch, pool) as int / 2 + count_matching(orders, repo) * 8
            + distinct_lease_count(leases) * 2,
    )
}

/// The score of a placement.
pub fn placement_score(
    repo: &str,
    current_task: &str,
    branch: &str,
    pool: &str,
    work_orders: &[WorkOrder],
    leases: &[Lease],
) -> (score: u8)
    ensures
        score == placement_score_spec(repo@, current_task@, branch@, pool@, work_orders@, leases@),
{
    let mut matching: i128 = 0;
    let mut i: usize = 0;
    while i < work_orders.len()
        invariant
            i <= work_orders@.len(),
            matching == count_matching(work_orders@.take(i as int), repo@),
        decreases work_orders@.len() - i,
    {
        assert(work_orders@.take(i + 1).drop_last() =~= work_orders@.take(i as int));
        proof {
            lemma_count_matching_le(work_orders@.take(i as int), repo@);
        }
        if order_matches_repo(&work_orders[i], repo) {
            matching = matching + 1;
        }
        i = i + 1;
    }
    assert(work_orders@.take(i as int) =~= work_orders@);
    proof {
        lemma_count_matching_le(work_orders@, repo@);
    }
    let leased = count_leased_orders(leases) as i128;
    let coverage = repo_coverage(current_task, branch, pool) as i128;
    let score: i128 = 42 + coverage / 2 + matching * 8 + leased * 2;
    if score < 0 {
        0
    } else if score > 100 {
        100
    } else {
        score as u8
    }
}


// ---------------------------------------------------------------- placements and scores

/// Where an agent for a repo is placed, and how well that was observed.
#[derive(Clone, Debug, PartialEq, Eq)]
pub struct UniversePlacement {
    pub agent: String,
    pub repo: String,
    pub current_task: String,
    pub branch: String,
    pub pool: String,
    pub placement: String,
    pub score: u8,
    pub health: HealthLevel,
    pub degraded_reason: Option<String>,
}

/// A repo's score and how it was derived.
#[derive(Clone, Debug, PartialEq, Eq)]
pub struct UniverseRepoScore {
    pub repo: String,
    pub tool_count: usize,
    pub score: u8,
    pub coverage: u8,
    pub current_task: String,
    pub branch: String,
    pub pool: String,
    pub placement: String,
    pub health: HealthLevel,
    pub degraded_reason: Option<String>,
}

/// The index of the first system named `repo` (ASCII case ignored).
pub open spec fn first_system_named(systems: Seq<SystemStatus>, repo: Seq<char>) -> Option<int>
    decreases systems.len(),
{
    if systems.len() == 0 {
        None
    } else {
        match first_system_named(systems.drop_last(), repo) {
            Some(k) => Some(k),
            None => if ascii_lower_text(systems.last().name@) == ascii_lower_text(repo) {
                Some(systems.len() - 1)
            } else {
                None
            },
        }
    }
}

proof fn lemma_first_system_in_range(systems: Seq<SystemStatus>, repo: Seq<char>)
    ensures
        first_system_named(systems, repo) matches Some(k) ==> 0 <= k < systems.len(),
    decreases systems.len(),
{
    if systems.len() > 0 {
        lemma_first_system_in_range(systems.drop_last(), repo);
    }
}

/// The system a repo is placed on: the one named like the repo, else the first.
pub open spec fn placement_system(systems: Seq<SystemStatus>, repo: Seq<char>) -> int {
    match first_system_named(systems, repo) {
        Some(k) => k,
        None => 0,
    }
}

fn find_system(systems: &[SystemStatus], repo: &str) -> (k: usize)
    requires
        systems@.len() > 0,
    ensures
        k == placement_system(systems@, repo@),
        k < systems@.len(),
{
    let mut i: usize = 0;
    while i < systems.len()
        invariant
            i <= systems@.len(),
            first_system_named(systems@.take(i as int), repo@) is None,
        decreases systems@.len() - i,
    {
        assert(systems@.take(i + 1).drop_last() =~= systems@.take(i as int));
        if eq_ignore_ascii_case(systems[i].name.as_str(), repo) {
            proof {
                lemma_prefix_first_system(systems@, repo@, i as int + 1);
            }
            return i;
        }
        i = i + 1;
    }
    assert(systems@.take(i as int) =~= systems@);
    0
}

proof fn lemma_prefix_first_system(systems: Seq<SystemStatus>, repo: Seq<char>, n: int)
    requires
        0 < n <= systems.len(),
        first_system_named(systems.take(n), repo) == Some(n - 1),
    ensures
        first_system_named(systems, repo) == Some(n - 1),
    decreases systems.len(),
{
    if systems.len() > n {
        assert(systems.drop_last().take(n) =~= systems.take(n));
        lemma_prefix_first_system(systems.drop_last(), repo, n);
    } else {
        assert(systems.take(n) =~= systems);
    }
}

/// The current task of a repo's placement: the kind of its latest work order.
pub open spec fn placement_task(orders: Seq<WorkOrder>, repo: Seq<char>) -> Seq<char> {
    match latest_match(orders, repo) {
        Some(k) => orders[k].task.kind@,
        None => "unobserved"@,
    }
}

/// The branch of a repo's placement: named by its latest work order.
pub open spec fn placement_branch(orders: Seq<WorkOrder>, repo: Seq<char>) -> Seq<char> {
    match latest_match(orders, repo) {
        Some(k) => match branch_from(orders[k].task.payload, branch_keys()) {
            Some(b) => b,
            None => "unobserved"@,
        },
        None => "unobserved"@,
    }
}

/// The pool of a repo's placement: the holder of the latest work order's lease,
/// else the system's role.
pub open spec fn placement_pool(
    orders: Seq<WorkOrder>,
    leases: Seq<Lease>,
    repo: Seq<char>,
    system: SystemStatus,
) -> Seq<char> {
    match latest_match(orders, repo) {
        Some(k) => match lease_holder_spec(leases, orders[k].id) {
            Some(h) => h,
            None => system.role@,
        },
        None => system.role@,
    }
}

/// `p` is the placement of `repo` on `system`.
pub open spec fn placement_ok(
    p: UniversePlacement,
    repo: Seq<char>,
    system: SystemStatus,
    orders: Seq<WorkOrder>,
    leases: Seq<Lease>,
) -> bool {
    let task = placement_task(orders, repo);
    let branch = placement_branch(orders, repo);
    let pool = placement_pool(orders, leases, repo, system);
    let score = placement_score_spec(repo, task, branch, pool, orders, leases);
    &&& p.agent@ == repo
    &&& p.repo@ == repo
    &&& p.current_task@ == task
    &&& p.branch@ == branch
    &&& p.pool@ == pool
    &&& p.placement@ == system.name@
    &&& p.score == score
    &&& p.health == score_health_spec(p.score)
    &&& opt_text(p.degraded_reason) == join_reasons_spec(placement_reasons(repo, task, branch, pool))
}

fn place_repo(
    system: &SystemStatus,
    repo: &str,
    work_orders: &[WorkOrder],
    leases: &[Lease],
) -> (p: UniversePlacement)
    ensures
        placement_ok(p, repo@, *system, work_orders@, leases@),
{
    let found = find_work_order_for_repo(repo, work_orders);
    proof {
        lemma_latest_match_in_range(work_orders@, repo@);
    }
    let (current_task, branch, pool) = match found {
        Some(k) => {
            let order = &work_orders[k];
            let branch = match work_order_branch(order) {
                Some(b) => b,
                None => "unobserved".to_owned(),
            };
            let pool = match lease_holder(leases, order.id) {
                Some(h) => h,
                None => system.role.clone(),
            };
            (order.task.kind.clone(), branch, pool)
        },
        None => ("unobserved".to_owned(), "unobserved".to_owned(), system.role.clone()),
    };
    let score = placement_score(
        repo,
        current_task.as_str(),
        branch.as_str(),
        pool.as_str(),
        work_orders,
        leases,
    );
    let health = score_health(score);
    let degraded_reason = placement_degraded_reason(
        repo,
        current_task.as_str(),
        branch.as_str(),
        pool.as_str(),
    );
    UniversePlacement {
        agent: repo.to_owned(),
        repo: repo.to_owned(),
        current_task,
        branch,
        pool,
        placement: system.name.clone(),
        score,
        health,
        degraded_reason,
    }
}

/// Places each repo: on the system named like it, else the first system; with
/// no systems nothing is placed.
pub fn universe_placements(
    systems: &[SystemStatus],
    repo_names: &[String],
    work_orders: &[WorkOrder],
    leases: &[Lease],
) -> (placements: Vec<UniversePlacement>)
    ensures
        systems@.len() == 0 ==> placements@.len() == 0,
        systems@.len() > 0 ==> placements@.len() == repo_names@.len(),
        systems@.len() > 0 ==> forall|i: int|
            0 <= i < repo_names@.len() ==> placement_ok(
                #[trigger] placements@[i],
                repo_names@[i]@,
                systems@[placement_system(systems@, repo_names@[i]@)],
                work_orders@,
                leases@,
            ),
{
    let mut placements: Vec<UniversePlacement> = Vec::new();
    if systems.len() == 0 {
        return placements;
    }
    let mut i: usize = 0;
    while i < repo_names.len()
        invariant
            i <= repo_names@.len(),
            systems@.len() > 0,
            placements@.len() == i,
            forall|j: int|
                0 <= j < i ==> placement_ok(
                    #[trigger] placements@[j],
                    repo_names@[j]@,
                    systems@[placement_system(systems@, repo_names@[j]@)],
                    work_orders@,
                    leases@,
                ),
        decreases repo_names@.len() - i,
    {
        let repo = repo_names[i].as_str();
        let k = find_system(systems, repo);
        placements.push(place_repo(&systems[k], repo, work_orders, leases));
        i = i + 1;
    }
    placements
}

/// The index of the first placement whose repo is `repo` (ASCII case ignored).
pub open spec fn first_placement(placements: Seq<UniversePlacement>, repo: Seq<char>) -> Option<
    int,
>
    decreases placements.len(),
{
    if placements.len() == 0 {
        None
    } else {
        match first_placement(placements.drop_last(), repo) {
            Some(k) => Some(k),
            None => if ascii_lower_text(placements.last().repo@) == ascii_lower_text(repo) {
                Some(placements.len() - 1)
            } else {
                None
            },
        }
    }
}

proof fn lemma_prefix_first_placement(placements: Seq<UniversePlacement>, repo: Seq<char>, n: int)
    requires
        0 < n <= placements.len(),
        first_placement(placements.take(n), repo) == Some(n - 1),
    ensures
        first_placement(placements, repo) == Some(n - 1),
    decreases placements.len(),
{
    if placements.len() > n {
        assert(placements.drop_last().take(n) =~= placements.take(n));
        lemma_prefix_first_placement(placements.drop_last(), repo, n);
    } else {
        assert(placements.take(n) =~= placements);
    }
}

fn find_placement(placements: &[UniversePlacement], repo: &str) -> (k: Option<usize>)
    ensures
        match k {
            Some(k) => first_placement(placements@, repo@) == Some(k as int) && k
                < placements@.len(),
            None => first_placement(placements@, repo@) is None,
        },
{
    let mut i: usize = 0;
    while i < placements.len()
        invariant
            i <= placements@.len(),
            first_placement(placements@.take(i as int), repo@) is None,
        decreases placements@.len() - i,
    {
        assert(placements@.take(i + 1).drop_last() =~= placements@.take(i as int));
        if eq_ignore_ascii_case(placements[i].repo.as_str(), repo) {
            proof {
                lemma_prefix_first_placement(placements@, repo@, i as int + 1);
            }
            return Some(i);
        }
        i = i + 1;
    }
    assert(placements@.take(i as int) =~= placements@);
    None
}

/// The task, branch, pool and placement name a repo score takes from the repo's
/// placement; without one: unobserved, unobserved, unassigned, and the
/// repo's lower-cased name.
pub open spec fn score_fields(placements: Seq<UniversePlacement>, repo: Seq<char>) -> (
    Seq<char>,
    Seq<char>,
    Seq<char>,
    Seq<char>,
) {
    match first_placement(placements, repo) {
        Some(k) => (
            placements[k].current_task@,
            placements[k].branch@,
            placements[k].pool@,
            placements[k].placement@,
        ),
        None => ("unobserved"@, "unobserved"@, "unassigned"@, crate::text::unicode_lowercase(repo)),
    }
}

/// `s` is the score of `repo` given the ecosystem and the placements.
pub open spec fn repo_score_ok(
    s: UniverseRepoScore,
    repo: Seq<char>,
    ecosystem: EcosystemSnapshot,
    placements: Seq<UniversePlacement>,
) -> bool {
    let (task, branch, pool, place) = score_fields(placements, repo);
    let count = count_repo_tools(ecosystem.tools@, repo);
    let coverage = coverage_spec(task, branch, pool);
    &&& s.repo@ == repo
    &&& s.tool_count == count
    &&& s.coverage == coverage
    &&& s.current_task@ == task
    &&& s.branch@ == branch
    &&& s.pool@ == pool
    &&& s.placement@ == place
    &&& s.score == repo_score_spec(
        count as int,
        coverage as int,
        repo_penalties(ecosystem.tools@, repo),
    )
    &&& s.health == score_health_spec(s.score)
    &&& opt_text(s.degraded_reason) == join_reasons_spec(
        repo_reasons(
            repo,
            count as int,
            task,
            branch,
            pool,
            ecosystem.live,
            ecosystem.degraded_reason@,
        ),
    )
}

/// Scores each repo from its ecosystem tools and its placement.
pub fn universe_repo_scores(
    repo_names: &[String],
    ecosystem: &EcosystemSnapshot,
    placements: &[UniversePlacement],
) -> (scores: Vec<UniverseRepoScore>)
    ensures
        scores@.len() == repo_names@.len(),
        forall|i: int|
            0 <= i < repo_names@.len() ==> repo_score_ok(
                #[trigger] scores@[i],
                repo_names@[i]@,
                *ecosystem,
                placements@,
            ),
{
    let mut scores: Vec<UniverseRepoScore> = Vec::new();
    let mut i: usize = 0;
    while i < repo_names.len()
        invariant
            i <= repo_names@.len(),
            scores@.len() == i,
            forall|j: int|
                0 <= j < i ==> repo_score_ok(
                    #[trigger] scores@[j],
                    repo_names@[j]@,
                    *ecosystem,
                    placements@,
                ),
        decreases repo_names@.len() - i,
    {
        let repo = repo_names[i].as_str();
        let (tool_count, penalty) = repo_tool_stats(ecosystem.tools.as_slice(), repo);
        let (current_task, branch, pool, placement) = match find_placement(placements, repo) {
            Some(k) => (
                placements[k].current_task.clone(),
                placements[k].branch.clone(),
                placements[k].pool.clone(),
                placements[k].placement.clone(),
            ),
            None => (
                "unobserved".to_owned(),
                "unobserved".to_owned(),
                "unassigned".to_owned(),
                crate::text::to_lowercase(repo),
            ),
        };
        let coverage = repo_coverage(current_task.as_str(), branch.as_str(), pool.as_str());
        let score = repo_score(tool_count, coverage, penalty);
        let health = score_health(score);
        let degraded_reason = repo_degraded_reason(
            repo,
            tool_count,
            current_task.as_str(),
            branch.as_str(),
            pool.as_str(),
            ecosystem,
        );
        scores.push(
            UniverseRepoScore {
                repo: repo.to_owned(),
                tool_count,
                score,
                coverage,
                current_task,
                branch,
                pool,
                placement,
                health,
                degraded_reason,
            },
        );
        i = i + 1;
    }
    scores
}


// ---------------------------------------------------------------- slices and the payload

/// One observed slice of the universe.
#[derive(Clone, Debug, PartialEq, Eq)]
pub struct UniverseSliceObservation {
    pub name: String,
    pub live: bool,
    pub coverage: u8,
    pub degraded_reason: Option<String>,
}

/// A repo as the bootstrap view lists it.
#[derive(Clone, Debug, PartialEq, Eq)]
pub struct UniverseActiveRepo {
    pub repo: String,
    pub tool_count: usize,
    pub score: u8,
    pub health: HealthLevel,
}

/// The bootstrap view: repos, placements, and the slices behind them.
#[derive(Clone, Debug, PartialEq, Eq)]
pub struct UniverseBootstrapTui {
    pub live: bool,
    pub observed_coverage: u8,
    pub active_repos: Vec<UniverseActiveRepo>,
    pub repo_scores: Vec<UniverseRepoScore>,
    pub placements: Vec<UniversePlacement>,
    pub degraded_slices: Vec<UniverseSliceObservation>,
    pub degraded_reason: Option<String>,
}

/// The whole universe projection.
#[derive(Clone, Debug, PartialEq, Eq)]
pub struct UniversePayload {
    pub live: bool,
    pub bootstrap_tui: UniverseBootstrapTui,
    pub ecosystem: EcosystemSnapshot,
}

/// The coverages of the repo scores.
pub open spec fn score_coverages(scores: Seq<UniverseRepoScore>) -> Seq<u8> {
    scores.map_values(|s: UniverseRepoScore| s.coverage)
}

/// The degraded reasons that are present, in order.
pub open spec fn present_reasons(reasons: Seq<Option<String>>) -> Seq<Seq<char>>
    decreases reasons.len(),
{
    if reasons.len() == 0 {
        seq![]
    } else {
        let rest = present_reasons(reasons.drop_last());
        match reasons.last() {
            Some(r) => rest.push(r@),
            None => rest,
        }
    }
}

/// The slice of the bootstrap view: live when every repo is fully covered, with
/// the mean coverage, and the repos' reasons (or a note when there are no repos).
pub open spec fn bootstrap_slice_ok(slice: UniverseSliceObservation, scores: Seq<UniverseRepoScore>) -> bool {
    let reasons = present_reasons(scores.map_values(|s: UniverseRepoScore| s.degraded_reason));
    &&& slice.name@ == "bootstrap.tui"@
    &&& slice.live == (scores.len() > 0 && forall|i: int|
        0 <= i < scores.len() ==> (#[trigger] scores[i]).coverage == 100)
    &&& slice.coverage == average_spec(score_coverages(scores))
    &&& opt_text(slice.degraded_reason) == (match join_reasons_spec(reasons) {
        Some(r) => Some(r),
        None => if scores.len() == 0 {
            Some("no repo scores observed"@)
        } else {
            None
        },
    })
}

/// The slice of the ecosystem: live as the snapshot is, fully covered when
/// live, with its note; a degraded snapshot always carries a reason.
pub open spec fn ecosystem_slice_ok(slice: UniverseSliceObservation, ecosystem: EcosystemSnapshot) -> bool {
    let note = ecosystem.degraded_reason@;
    &&& slice.name@ == "ecosystem"@
    &&& slice.live == ecosystem.live
    &&& slice.coverage == (if ecosystem.live { 100u8 } else { 0u8 })
    &&& opt_text(slice.degraded_reason) == (if ecosystem.live {
        if note.len() == 0 {
            None
        } else {
            Some(note)
        }
    } else {
        Some(
            if note.len() == 0 {
                "Jeryu ecosystem unavailable"@
            } else {
                note
            },
        )
    })
}

/// The two observed slices: the bootstrap view, then the ecosystem.
pub fn universe_slices(ecosystem: &EcosystemSnapshot, repo_scores: &[UniverseRepoScore]) -> (slices:
    Vec<UniverseSliceObservation>)
    requires
        repo_scores@.len() <= 16_843_009,
    ensures
        slices@.len() == 2,
        bootstrap_slice_ok(slices@[0], repo_scores@),
        ecosystem_slice_ok(slices@[1], *ecosystem),
{
    let mut coverages: Vec<u8> = Vec::new();
    let mut reasons: Vec<String> = Vec::new();
    let mut all_full = true;
    let mut i: usize = 0;
    while i < repo_scores.len()
        invariant
            i <= repo_scores@.len(),
            coverages@ == score_coverages(repo_scores@.take(i as int)),
            texts(reasons@) == present_reasons(
                repo_scores@.take(i as int).map_values(|s: UniverseRepoScore| s.degraded_reason),
            ),
            all_full == forall|j: int| 0 <= j < i ==> (#[trigger] repo_scores@[j]).coverage == 100,
        decreases repo_scores@.len() - i,
    {
        let ghost prefix = repo_scores@.take(i + 1);
        assert(prefix.drop_last() =~= repo_scores@.take(i as int));
        assert(prefix.map_values(|s: UniverseRepoScore| s.degraded_reason).drop_last()
            =~= repo_scores@.take(i as int).map_values(|s: UniverseRepoScore| s.degraded_reason));
        let score = &repo_scores[i];
        coverages.push(score.coverage);
        assert(coverages@ =~= score_coverages(prefix));
        let ghost before = reasons@;
        match &score.degraded_reason {
            Some(r) => {
                reasons.push(r.clone());
                assert(texts(reasons@) =~= texts(before).push(r@));
            },
            None => {},
        }
        if score.coverage != 100 {
            all_full = false;
        }
        i = i + 1;
    }
    assert(repo_scores@.take(i as int) =~= repo_scores@);
    let work_reason = match join_reasons(reasons.as_slice()) {
        Some(r) => Some(r),
        None => if repo_scores.len() == 0 {
            Some("no repo scores observed".to_owned())
        } else {
            None
        },
    };
    let work_slice = UniverseSliceObservation {
        name: "bootstrap.tui".to_owned(),
        live: repo_scores.len() > 0 && all_full,
        coverage: average_numbers(coverages.as_slice()),
        degraded_reason: work_reason,
    };
    let note_empty = ecosystem.degraded_reason.unicode_len() == 0;
    let eco_reason = if ecosystem.live {
        if note_empty {
            None
        } else {
            Some(ecosystem.degraded_reason.clone())
        }
    } else if note_empty {
        Some("Jeryu ecosystem unavailable".to_owned())
    } else {
        Some(ecosystem.degraded_reason.clone())
    };
    let eco_slice = UniverseSliceObservation {
        name: "ecosystem".to_owned(),
        live: ecosystem.live,
        coverage: if ecosystem.live {
            100
        } else {
            0
        },
        degraded_reason: eco_reason,
    };
    let mut slices: Vec<UniverseSliceObservation> = Vec::new();
    slices.push(work_slice);
    slices.push(eco_slice);
    slices
}

/// The mean coverage of the slices.
pub fn average_coverage(slices: &[UniverseSliceObservation]) -> (avg: u8)
    requires
        slices@.len() <= 16_843_009,
    ensures
        avg == average_spec(slices@.map_values(|s: UniverseSliceObservation| s.coverage)),
{
    let mut coverages: Vec<u8> = Vec::new();
    let mut i: usize = 0;
    while i < slices.len()
        invariant
            i <= slices@.len(),
            coverages@ == slices@.take(i as int).map_values(
                |s: UniverseSliceObservation| s.coverage,
            ),
        decreases slices@.len() - i,
    {
        coverages.push(slices[i].coverage);
        assert(coverages@ =~= slices@.take(i + 1).map_values(
            |s: UniverseSliceObservation| s.coverage,
        ));
        i = i + 1;
    }
    assert(slices@.take(i as int) =~= slices@);
    average_numbers(coverages.as_slice())
}

/// The repos the universe observes.
pub open spec fn observed_repo_names_spec() -> Seq<Seq<char>> {
    seq!["Jeryu"@, "Jekko"@, "Jankurai"@, "Jailgun"@]
}

/// The repos the universe observes, in order.
pub fn observed_repo_names() -> (names: Vec<String>)
    ensures
        texts(names@) == observed_repo_names_spec(),
{
    let mut names: Vec<String> = Vec::new();
    names.push("Jeryu".to_owned());
    names.push("Jekko".to_owned());
    names.push("Jankurai".to_owned());
    names.push("Jailgun".to_owned());
    assert(texts(names@) =~= observed_repo_names_spec());
    names
}

/// The bootstrap view is degraded unless every slice is live; its reason joins
/// the slices' reasons, and is absent when that is empty.
pub open spec fn bootstrap_reason_spec(slices: Seq<UniverseSliceObservation>) -> Option<Seq<char>> {
    if forall|i: int| 0 <= i < slices.len() ==> (#[trigger] slices[i]).live {
        None
    } else {
        let joined = join_text(
            present_reasons(slices.map_values(|s: UniverseSliceObservation| s.degraded_reason)),
            "; "@,
        );
        if joined.len() == 0 {
            None
        } else {
            Some(joined)
        }
    }
}

/// What the universe over a roster of repos holds: placements and scores for
/// each repo in roster order, the observed slices, the bootstrap view, and the
/// ecosystem. The universe is live only when every slice is live and the
/// ecosystem is live.
pub open spec fn universe_holds(
    names: Seq<Seq<char>>,
    systems: Seq<SystemStatus>,
    work_orders: Seq<WorkOrder>,
    leases: Seq<Lease>,
    ecosystem: EcosystemSnapshot,
    payload: UniversePayload,
) -> bool {
    let n = names.len();
    let tui = payload.bootstrap_tui;
    &&& systems.len() == 0 ==> tui.placements@.len() == 0
    &&& systems.len() > 0 ==> tui.placements@.len() == n
    &&& systems.len() > 0 ==> forall|i: int|
        0 <= i < n ==> placement_ok(
            #[trigger] tui.placements@[i],
            names[i],
            systems[placement_system(systems, names[i])],
            work_orders,
            leases,
        )
    &&& tui.repo_scores@.len() == n
    &&& forall|i: int|
        0 <= i < n ==> repo_score_ok(#[trigger] tui.repo_scores@[i], names[i], ecosystem, tui.placements@)
    &&& tui.degraded_slices@.len() == 2
    &&& bootstrap_slice_ok(tui.degraded_slices@[0], tui.repo_scores@)
    &&& ecosystem_slice_ok(tui.degraded_slices@[1], ecosystem)
    &&& tui.observed_coverage == average_spec(
        tui.degraded_slices@.map_values(|s: UniverseSliceObservation| s.coverage),
    )
    &&& tui.active_repos@.len() == n
    &&& forall|i: int|
        0 <= i < n ==> {
            &&& (#[trigger] tui.active_repos@[i]).repo@ == tui.repo_scores@[i].repo@
            &&& tui.active_repos@[i].tool_count == tui.repo_scores@[i].tool_count
            &&& tui.active_repos@[i].score == tui.repo_scores@[i].score
            &&& tui.active_repos@[i].health == tui.repo_scores@[i].health
        }
    &&& tui.live == (tui.degraded_slices@[0].live && tui.degraded_slices@[1].live)
    &&& opt_text(tui.degraded_reason) == bootstrap_reason_spec(tui.degraded_slices@)
    &&& payload.live == (tui.live && ecosystem.live)
    &&& payload.ecosystem == ecosystem
}

/// Composes the universe over the observed repos.
pub fn compose_universe(
    systems: &[SystemStatus],
    work_orders: &[WorkOrder],
    leases: &[Lease],
    ecosystem: EcosystemSnapshot,
) -> (payload: UniversePayload)
    ensures
        universe_holds(observed_repo_names_spec(), systems@, work_orders@, leases@, ecosystem, payload),
{
    let repo_names = observed_repo_names();
    compose_universe_over(repo_names.as_slice(), systems, work_orders, leases, ecosystem)
}

/// Composes the universe over a roster of repos.
pub fn compose_universe_over(
    repo_names: &[String],
    systems: &[SystemStatus],
    work_orders: &[WorkOrder],
    leases: &[Lease],
    ecosystem: EcosystemSnapshot,
) -> (payload: UniversePayload)
    requires
        repo_names@.len() <= 16_843_009,
    ensures
        universe_holds(texts(repo_names@), systems@, work_orders@, leases@, ecosystem, payload),
{
    proof {
        assert forall|i: int| 0 <= i < repo_names@.len() implies #[trigger] repo_names@[i]@ == texts(
            repo_names@,
        )[i] by {}
    }
    let placements = universe_placements(systems, repo_names, work_orders, leases);
    let repo_scores = universe_repo_scores(repo_names, &ecosystem, placements.as_slice());
    let degraded_slices = universe_slices(&ecosystem, repo_scores.as_slice());
    let observed_coverage = average_coverage(degraded_slices.as_slice());
    let mut active_repos: Vec<UniverseActiveRepo> = Vec::new();
    let mut i: usize = 0;
    while i < repo_scores.len()
        invariant
            i <= repo_scores@.len(),
            active_repos@.len() == i,
            forall|j: int|
                0 <= j < i ==> {
                    &&& (#[trigger] active_repos@[j]).repo@ == repo_scores@[j].repo@
                    &&& active_repos@[j].tool_count == repo_scores@[j].tool_count
                    &&& active_repos@[j].score == repo_scores@[j].score
                    &&& active_repos@[j].health == repo_scores@[j].health
                },
        decreases repo_scores@.len() - i,
    {
        let score = &repo_scores[i];
        active_repos.push(
            UniverseActiveRepo {
                repo: score.repo.clone(),
                tool_count: score.tool_count,
                score: score.score,
                health: score.health,
            },
        );
        i = i + 1;
    }
    let bootstrap_live = degraded_slices[0].live && degraded_slices[1].live;
    proof {
        let sl = degraded_slices@;
        assert((forall|k: int| 0 <= k < sl.len() ==> (#[trigger] sl[k]).live) == (sl[0].live
            && sl[1].live));
    }
    let bootstrap_reason = if bootstrap_live {
        None
    } else {
        let mut reasons: Vec<String> = Vec::new();
        let ghost sl = degraded_slices@;
        let ghost opts = sl.map_values(|s: UniverseSliceObservation| s.degraded_reason);
        assert(opts.take(0) =~= Seq::<Option<String>>::empty());
        let mut k: usize = 0;
        while k < degraded_slices.len()
            invariant
                k <= degraded_slices@.len(),
                sl == degraded_slices@,
                opts == sl.map_values(|s: UniverseSliceObservation| s.degraded_reason),
                texts(reasons@) == present_reasons(opts.take(k as int)),
            decreases degraded_slices@.len() - k,
        {
            assert(opts.take(k + 1).drop_last() =~= opts.take(k as int));
            let ghost before = reasons@;
            match &degraded_slices[k].degraded_reason {
                Some(r) => {
                    reasons.push(r.clone());
                    assert(texts(reasons@) =~= texts(before).push(r@));
                },
                None => {},
            }
            k = k + 1;
        }
        assert(opts.take(k as int) =~= opts);
        let joined = join(reasons.as_slice(), "; ");
        if joined.unicode_len() == 0 {
            None
        } else {
            Some(joined)
        }
    };
    let bootstrap_tui = UniverseBootstrapTui {
        live: bootstrap_live,
        observed_coverage,
        active_repos,
        repo_scores,
        placements,
        degraded_slices,
        degraded_reason: bootstrap_reason,
    };
    let live = bootstrap_tui.live && ecosystem.live;
    UniversePayload { live, bootstrap_tui, ecosystem }
}

/// Whether a work order belongs to a repo ignores ASCII case: orders whose
/// subjects and kinds agree up to case, with the same payload, match repo
/// names that agree up to case alike.
pub proof fn law_order_match_ignores_case(o1: WorkOrder, o2: WorkOrder, r1: Seq<char>, r2: Seq<char>)
    requires
        ascii_lower_text(o1.subject@) == ascii_lower_text(o2.subject@),
        ascii_lower_text(o1.task.kind@) == ascii_lower_text(o2.task.kind@),
        o1.task.payload == o2.task.payload,
        ascii_lower_text(r1) == ascii_lower_text(r2),
    ensures
        order_matches_spec(o1, r1) == order_matches_spec(o2, r2),
{
}

/// A work order whose subject or kind mentions the repo's name, in any case,
/// belongs to that repo.
pub proof fn law_named_order_matches(o: WorkOrder, repo: Seq<char>)
    requires
        contains_text(ascii_lower_text(o.subject@), ascii_lower_text(repo)) || contains_text(
            ascii_lower_text(o.task.kind@),
            ascii_lower_text(repo),
        ),
    ensures
        order_matches_spec(o, repo),
{
}

/// A work order whose payload has a string member mentioning the repo's
/// name, in any case, belongs to that repo.
pub proof fn law_payload_mention_matches(o: WorkOrder, repo: Seq<char>, i: int)
    requires
        o.task.payload matches Json::Object(entries) && 0 <= i < entries@.len() && (
        entries@[i].1 matches Json::String(s) && contains_text(
            ascii_lower_text(s@),
            ascii_lower_text(repo),
        )),
    ensures
        order_matches_spec(o, repo),
{
    match o.task.payload {
        Json::Object(entries) => {
            assert(value_contains_spec(entries@[i].1, ascii_lower_text(repo)));
        },
        _ => {},
    }
}

/// A work order that names the repo nowhere, in its subject, its kind or an
/// object payload, does not belong to it.
pub proof fn law_unnamed_order_does_not_match(o: WorkOrder, repo: Seq<char>)
    requires
        !contains_text(ascii_lower_text(o.subject@), ascii_lower_text(repo)),
        !contains_text(ascii_lower_text(o.task.kind@), ascii_lower_text(repo)),
        !(o.task.payload is Object),
    ensures
        !order_matches_spec(o, repo),
{
}

/// Coverage counts what was observed of task, branch and pool: it is 100
/// exactly when all three were, 0 exactly when none was, and otherwise 33
/// for one and 66 for two.
pub proof fn law_coverage_levels(task: Seq<char>, branch: Seq<char>, pool: Seq<char>)
    ensures
        ({
            let n = (if task != "unobserved"@ { 1int } else { 0int }) + (if branch
                != "unobserved"@ { 1int } else { 0int }) + (if pool != "unassigned"@ {
                1int
            } else {
                0int
            });
            coverage_spec(task, branch, pool) == (if n == 3 {
                100int
            } else if n == 2 {
                66int
            } else if n == 1 {
                33int
            } else {
                0int
            })
        }),
{
}

} // verus!
