//! The Jeryu ecosystem snapshot: governed tools across repos, the managed repos
//! themselves, and explicit degradation when records are thin or missing.

use vstd::prelude::*;

use crate::text::{concat, decimal, decimal_text, str_eq};

verus! {

/// The view of an optional text.
pub open spec fn opt_text(o: Option<String>) -> Option<Seq<char>> {
    match o {
        Some(s) => Some(s@),
        None => None,
    }
}

/// A governed tool node of the ecosystem graph.
#[derive(Clone, Debug, PartialEq, Eq)]
pub struct EcosystemTool {
    pub name: String,
    pub class_name: String,
    pub conformance: String,
    pub side_effects: String,
    pub data_classes: Vec<String>,
    pub repo: Option<String>,
    pub provider: Option<String>,
    pub health: Option<String>,
    pub depends_on: Vec<String>,
    pub queue: Option<u32>,
}

/// A managed git repository node.
#[derive(Clone, Debug, PartialEq, Eq)]
pub struct EcosystemRepo {
    pub name: String,
    pub head: Option<String>,
    pub score: Option<u32>,
    pub conformance: Option<String>,
    pub health: Option<String>,
    pub status: Option<String>,
    pub tool_count: u32,
}

pub struct EcosystemRepoView {
    pub name: Seq<char>,
    pub head: Option<Seq<char>>,
    pub score: Option<u32>,
    pub conformance: Option<Seq<char>>,
    pub health: Option<Seq<char>>,
    pub status: Option<Seq<char>>,
    pub tool_count: u32,
}

impl View for EcosystemRepo {
    type V = EcosystemRepoView;

    open spec fn view(&self) -> EcosystemRepoView {
        EcosystemRepoView {
            name: self.name@,
            head: opt_text(self.head),
            score: self.score,
            conformance: opt_text(self.conformance),
            health: opt_text(self.health),
            status: opt_text(self.status),
            tool_count: self.tool_count,
        }
    }
}

/// The full snapshot: tools, managed repos, liveness and the degradation note.
#[derive(Clone, Debug, PartialEq, Eq)]
pub struct EcosystemSnapshot {
    pub tools: Vec<EcosystemTool>,
    pub repos: Vec<EcosystemRepo>,
    pub live: bool,
    pub degraded_reason: String,
}

/// A tool record as Jeryu may send it: every field may be missing.
#[derive(Clone, Debug, Default, PartialEq, Eq)]
pub struct RawJeryuTool {
    pub name: Option<String>,
    pub class_name: Option<String>,
    pub conformance: Option<String>,
    pub side_effects: Option<String>,
    pub data_classes: Vec<String>,
    pub repo: Option<String>,
    pub provider: Option<String>,
    pub health: Option<String>,
    pub depends_on: Vec<String>,
    pub queue: Option<u32>,
}

/// A repo record as Jeryu may send it.
#[derive(Clone, Debug, Default, PartialEq, Eq)]
pub struct RawJeryuRepo {
    pub name: Option<String>,
    pub head: Option<String>,
    pub score: Option<u32>,
    pub conformance: Option<String>,
    pub health: Option<String>,
    pub status: Option<String>,
}

/// An ecosystem payload as Jeryu may send it.
#[derive(Clone, Debug, Default, PartialEq, Eq)]
pub struct RawEcosystem {
    pub tools: Vec<RawJeryuTool>,
    pub repos: Vec<RawJeryuRepo>,
}

impl EcosystemSnapshot {
    /// An explicitly degraded snapshot: no tools, no repos, not live, with the reason.
    pub fn degraded(reason: String) -> (s: EcosystemSnapshot)
        ensures
            s.tools@.len() == 0,
            s.repos@.len() == 0,
            !s.live,
            s.degraded_reason@ == reason@,
    {
        EcosystemSnapshot { tools: Vec::new(), repos: Vec::new(), live: false, degraded_reason: reason }
    }
}

// ---------------------------------------------------------------- repos

/// Severity of a tool health: `degraded`/`blocked` 2, `watch` 1, else 0.
pub open spec fn health_rank(health: Option<String>) -> nat {
    match health {
        Some(h) => if h@ == "degraded"@ || h@ == "blocked"@ {
            2
        } else if h@ == "watch"@ {
            1
        } else {
            0
        },
        None => 0,
    }
}

/// The tool is tagged with `repo`.
pub open spec fn tool_in_repo(tool: EcosystemTool, repo: Seq<char>) -> bool {
    tool.repo matches Some(r) && r@ == repo
}

/// How many tools are tagged with `repo`.
pub open spec fn count_in_repo(tools: Seq<EcosystemTool>, repo: Seq<char>) -> nat
    decreases tools.len(),
{
    if tools.len() == 0 {
        0
    } else {
        count_in_repo(tools.drop_last(), repo) + if tool_in_repo(tools.last(), repo) {
            1nat
        } else {
            0nat
        }
    }
}

/// The worst health rank among the tools tagged with `repo`.
pub open spec fn worst_rank(tools: Seq<EcosystemTool>, repo: Seq<char>) -> nat
    decreases tools.len(),
{
    if tools.len() == 0 {
        0
    } else {
        let w = worst_rank(tools.drop_last(), repo);
        if tool_in_repo(tools.last(), repo) && health_rank(tools.last().health) > w {
            health_rank(tools.last().health)
        } else {
            w
        }
    }
}

/// Worst-of health across the tools of `repo`, or `None` when it has none.
pub open spec fn repo_health_spec(tools: Seq<EcosystemTool>, repo: Seq<char>) -> Option<Seq<char>> {
    if count_in_repo(tools, repo) == 0 {
        None
    } else {
        let w = worst_rank(tools, repo);
        Some(
            if w == 2 {
                "degraded"@
            } else if w == 1 {
                "watch"@
            } else {
                "nominal"@
            },
        )
    }
}

proof fn lemma_count_in_repo_le(tools: Seq<EcosystemTool>, repo: Seq<char>)
    ensures
        count_in_repo(tools, repo) <= tools.len(),
    decreases tools.len(),
{
    if tools.len() > 0 {
        lemma_count_in_repo_le(tools.drop_last(), repo);
    }
}

proof fn lemma_worst_rank_le_2(tools: Seq<EcosystemTool>, repo: Seq<char>)
    ensures
        worst_rank(tools, repo) <= 2,
    decreases tools.len(),
{
    if tools.len() > 0 {
        lemma_worst_rank_le_2(tools.drop_last(), repo);
    }
}

fn tool_repo_is(tool: &EcosystemTool, repo: &str) -> (r: bool)
    ensures
        r == tool_in_repo(*tool, repo@),
{
    match &tool.repo {
        Some(r) => str_eq(r.as_str(), repo),
        None => false,
    }
}

fn rank_of(health: &Option<String>) -> (rank: u8)
    ensures
        rank == health_rank(*health),
{
    match health {
        Some(h) => if str_eq(h.as_str(), "degraded") || str_eq(h.as_str(), "blocked") {
            2
        } else if str_eq(h.as_str(), "watch") {
            1
        } else {
            0
        },
        None => 0,
    }
}

/// Worst-of health (degraded > watch > nominal) across the tools tagged with
/// `repo`, or `None` when the repo has no tools.
pub fn derive_repo_health(tools: &[EcosystemTool], repo: &str) -> (health: Option<String>)
    ensures
        opt_text(health) == repo_health_spec(tools@, repo@),
{
    let mut worst: u8 = 0;
    let mut any = false;
    let mut i: usize = 0;
    while i < tools.len()
        invariant
            i <= tools@.len(),
            worst == worst_rank(tools@.take(i as int), repo@),
            any == (count_in_repo(tools@.take(i as int), repo@) > 0),
        decreases tools@.len() - i,
    {
        assert(tools@.take(i + 1).drop_last() =~= tools@.take(i as int));
        if tool_repo_is(&tools[i], repo) {
            any = true;
            let rank = rank_of(&tools[i].health);
            if rank > worst {
                worst = rank;
            }
        }
        i = i + 1;
    }
    assert(tools@.take(i as int) =~= tools@);
    if !any {
        return None;
    }
    proof {
        lemma_worst_rank_le_2(tools@, repo@);
    }
    Some(
        if worst == 2 {
            "degraded".to_owned()
        } else if worst == 1 {
            "watch".to_owned()
        } else {
            "nominal".to_owned()
        },
    )
}

/// Count the governed tools tagged with `name`, as a `u32` (wrapping past
/// `u32::MAX`, as the count's cast does).
pub fn count_tools(tools: &[EcosystemTool], name: &str) -> (n: u32)
    ensures
        n == count_in_repo(tools@, name@) as u32,
{
    let mut n: usize = 0;
    let mut i: usize = 0;
    while i < tools.len()
        invariant
            i <= tools@.len(),
            n == count_in_repo(tools@.take(i as int), name@),
            n <= i,
        decreases tools@.len() - i,
    {
        assert(tools@.take(i + 1).drop_last() =~= tools@.take(i as int));
        if tool_repo_is(&tools[i], name) {
            n = n + 1;
        }
        i = i + 1;
    }
    assert(tools@.take(i as int) =~= tools@);
    n as u32
}

/// The repo node for a repo record with a name: health as recorded, else derived.
pub open spec fn repo_from_record_spec(
    raw: RawJeryuRepo,
    name: Seq<char>,
    tools: Seq<EcosystemTool>,
) -> EcosystemRepoView {
    EcosystemRepoView {
        name,
        head: opt_text(raw.head),
        score: raw.score,
        conformance: opt_text(raw.conformance),
        health: match raw.health {
            Some(h) => Some(h@),
            None => repo_health_spec(tools, name),
        },
        status: opt_text(raw.status),
        tool_count: count_in_repo(tools, name) as u32,
    }
}

/// Repo nodes from explicit records, in order; records without a name are dropped.
pub open spec fn repos_from_records_spec(
    raws: Seq<RawJeryuRepo>,
    tools: Seq<EcosystemTool>,
) -> Seq<EcosystemRepoView>
    decreases raws.len(),
{
    if raws.len() == 0 {
        seq![]
    } else {
        let rest = repos_from_records_spec(raws.drop_last(), tools);
        match raws.last().name {
            Some(n) => rest.push(repo_from_record_spec(raws.last(), n@, tools)),
            None => rest,
        }
    }
}

/// The distinct repo tags of the tools, in first-seen order.
pub open spec fn distinct_repos(tools: Seq<EcosystemTool>) -> Seq<Seq<char>>
    decreases tools.len(),
{
    if tools.len() == 0 {
        seq![]
    } else {
        let seen = distinct_repos(tools.drop_last());
        match tools.last().repo {
            Some(r) => if seen.contains(r@) {
                seen
            } else {
                seen.push(r@)
            },
            None => seen,
        }
    }
}

/// The repo node derived from a tool tag.
pub open spec fn repo_from_tag_spec(name: Seq<char>, tools: Seq<EcosystemTool>) -> EcosystemRepoView {
    EcosystemRepoView {
        name,
        head: None,
        score: None,
        conformance: None,
        health: repo_health_spec(tools, name),
        status: Some("managed"@),
        tool_count: count_in_repo(tools, name) as u32,
    }
}

/// Repo nodes derived from the distinct repo tags of the tools.
pub open spec fn repos_from_tools_spec(tools: Seq<EcosystemTool>) -> Seq<EcosystemRepoView> {
    distinct_repos(tools).map_values(|name: Seq<char>| repo_from_tag_spec(name, tools))
}

/// Explicit records when there are any, else nodes derived from the tool tags.
pub open spec fn build_repos_spec(raws: Seq<RawJeryuRepo>, tools: Seq<EcosystemTool>) -> Seq<
    EcosystemRepoView,
> {
    if raws.len() == 0 {
        repos_from_tools_spec(tools)
    } else {
        repos_from_records_spec(raws, tools)
    }
}

/// The views of a list of repo nodes.
pub open spec fn repo_views(repos: Seq<EcosystemRepo>) -> Seq<EcosystemRepoView> {
    repos.map_values(|r: EcosystemRepo| r@)
}

fn clone_opt(o: &Option<String>) -> (c: Option<String>)
    ensures
        opt_text(c) == opt_text(*o),
{
    match o {
        Some(s) => Some(s.clone()),
        None => None,
    }
}

/// Repo nodes from Jeryu's explicit records, joining tool counts and deriving
/// health when the record omits it. Records without a name are dropped.
pub fn repos_from_records(raw_repos: &[RawJeryuRepo], tools: &[EcosystemTool]) -> (repos: Vec<
    EcosystemRepo,
>)
    ensures
        repo_views(repos@) == repos_from_records_spec(raw_repos@, tools@),
{
    let mut repos: Vec<EcosystemRepo> = Vec::new();
    let mut i: usize = 0;
    while i < raw_repos.len()
        invariant
            i <= raw_repos@.len(),
            repo_views(repos@) == repos_from_records_spec(raw_repos@.take(i as int), tools@),
        decreases raw_repos@.len() - i,
    {
        assert(raw_repos@.take(i + 1).drop_last() =~= raw_repos@.take(i as int));
        let raw = &raw_repos[i];
        match &raw.name {
            Some(name) => {
                let health = match &raw.health {
                    Some(h) => Some(h.clone()),
                    None => derive_repo_health(tools, name.as_str()),
                };
                let tool_count = count_tools(tools, name.as_str());
                let repo = EcosystemRepo {
                    name: name.clone(),
                    head: clone_opt(&raw.head),
                    score: raw.score,
                    conformance: clone_opt(&raw.conformance),
                    health,
                    status: clone_opt(&raw.status),
                    tool_count,
                };
                let ghost before = repos@;
                repos.push(repo);
                assert(repo_views(repos@) =~= repo_views(before).push(repo@));
            },
            None => {},
        }
        i = i + 1;
    }
    assert(raw_repos@.take(i as int) =~= raw_repos@);
    repos
}

fn seen_contains(seen: &Vec<String>, name: &str) -> (r: bool)
    ensures
        r == seen@.map_values(|s: String| s@).contains(name@),
{
    let mut i: usize = 0;
    while i < seen.len()
        invariant
            i <= seen@.len(),
            forall|j: int| 0 <= j < i ==> (#[trigger] seen@[j])@ != name@,
        decreases seen@.len() - i,
    {
        if str_eq(seen[i].as_str(), name) {
            assert(seen@.map_values(|s: String| s@)[i as int] == name@);
            return true;
        }
        i = i + 1;
    }
    proof {
        let m = seen@.map_values(|s: String| s@);
        if m.contains(name@) {
            let k = choose|k: int| 0 <= k < m.len() && m[k] == name@;
            assert(seen@[k]@ == name@);
        }
    }
    false
}

/// Repo nodes derived from the distinct repos the tools are tagged with, in
/// first-seen order, each marked `managed`.
pub fn repos_from_tools(tools: &[EcosystemTool]) -> (repos: Vec<EcosystemRepo>)
    ensures
        repo_views(repos@) == repos_from_tools_spec(tools@),
{
    let mut seen: Vec<String> = Vec::new();
    let mut i: usize = 0;
    while i < tools.len()
        invariant
            i <= tools@.len(),
            seen@.map_values(|s: String| s@) == distinct_repos(tools@.take(i as int)),
        decreases tools@.len() - i,
    {
        assert(tools@.take(i + 1).drop_last() =~= tools@.take(i as int));
        match &tools[i].repo {
            Some(repo) => {
                if !seen_contains(&seen, repo.as_str()) {
                    let ghost before = seen@;
                    seen.push(repo.clone());
                    assert(seen@.map_values(|s: String| s@) =~= before.map_values(|s: String| s@).push(repo@));
                }
            },
            None => {},
        }
        i = i + 1;
    }
    assert(tools@.take(i as int) =~= tools@);
    let ghost names = distinct_repos(tools@);
    let mut repos: Vec<EcosystemRepo> = Vec::new();
    let mut k: usize = 0;
    while k < seen.len()
        invariant
            k <= seen@.len(),
            seen@.map_values(|s: String| s@) == names,
            names == distinct_repos(tools@),
            repos@.len() == k,
            forall|j: int| 0 <= j < k ==> (#[trigger] repos@[j])@ == repo_from_tag_spec(names[j], tools@),
        decreases seen@.len() - k,
    {
        let name = seen[k].as_str();
        assert(names[k as int] == name@);
        let health = derive_repo_health(tools, name);
        let tool_count = count_tools(tools, name);
        repos.push(
            EcosystemRepo {
                name: name.to_owned(),
                head: None,
                score: None,
                conformance: None,
                health,
                status: Some("managed".to_owned()),
                tool_count,
            },
        );
        k = k + 1;
    }
    assert(repo_views(repos@) =~= repos_from_tools_spec(tools@));
    repos
}

/// Explicit repo records when Jeryu sent any, else nodes derived from tool tags.
pub fn build_repos(raw_repos: &[RawJeryuRepo], tools: &[EcosystemTool]) -> (repos: Vec<
    EcosystemRepo,
>)
    ensures
        repo_views(repos@) == build_repos_spec(raw_repos@, tools@),
{
    if raw_repos.len() == 0 {
        repos_from_tools(tools)
    } else {
        repos_from_records(raw_repos, tools)
    }
}


// ---------------------------------------------------------------- normalize

/// The text, or `default` when it is missing.
pub open spec fn text_or(o: Option<String>, default: Seq<char>) -> Seq<char> {
    match o {
        Some(s) => s@,
        None => default,
    }
}

/// A tool record that lacks its name or its class is degraded.
pub open spec fn raw_tool_degraded(r: RawJeryuTool) -> bool {
    r.name is None || r.class_name is None
}

/// `out` is the normalized form of the raw record `r`: placeholders for missing
/// texts, and `degraded` health when the record lacks required fields.
pub open spec fn tool_normalized(out: EcosystemTool, r: RawJeryuTool) -> bool {
    &&& out.name@ == text_or(r.name, "(unknown)"@)
    &&& out.class_name@ == text_or(r.class_name, "unknown"@)
    &&& out.conformance@ == text_or(r.conformance, "unknown"@)
    &&& out.side_effects@ == text_or(r.side_effects, "unknown"@)
    &&& out.data_classes@ == r.data_classes@
    &&& opt_text(out.repo) == opt_text(r.repo)
    &&& opt_text(out.provider) == opt_text(r.provider)
    &&& opt_text(out.health) == Some(
        if raw_tool_degraded(r) {
            "degraded"@
        } else {
            text_or(r.health, "nominal"@)
        },
    )
    &&& out.depends_on@ == r.depends_on@
    &&& out.queue == r.queue
}

/// How many raw tool records are degraded.
pub open spec fn count_degraded(raws: Seq<RawJeryuTool>) -> nat
    decreases raws.len(),
{
    if raws.len() == 0 {
        0
    } else {
        count_degraded(raws.drop_last()) + if raw_tool_degraded(raws.last()) {
            1nat
        } else {
            0nat
        }
    }
}

/// The degradation note of a normalized snapshot.
pub open spec fn normalize_reason_spec(raws: Seq<RawJeryuTool>) -> Seq<char> {
    if raws.len() == 0 {
        "jeryu returned no ecosystem tools"@
    } else if count_degraded(raws) > 0 {
        decimal_text(count_degraded(raws)) + " tool record(s) had missing fields and were marked degraded"@
    } else {
        seq![]
    }
}

proof fn lemma_count_degraded_le(raws: Seq<RawJeryuTool>)
    ensures
        count_degraded(raws) <= raws.len(),
    decreases raws.len(),
{
    if raws.len() > 0 {
        lemma_count_degraded_le(raws.drop_last());
    }
}

fn text_or_default(o: &Option<String>, default: &str) -> (t: String)
    ensures
        t@ == text_or(*o, default@),
{
    match o {
        Some(s) => s.clone(),
        None => default.to_owned(),
    }
}

fn normalize_tool(r: &RawJeryuTool) -> (out: EcosystemTool)
    ensures
        tool_normalized(out, *r),
{
    let degraded = r.name.is_none() || r.class_name.is_none();
    let health = if degraded {
        "degraded".to_owned()
    } else {
        text_or_default(&r.health, "nominal")
    };
    let data_classes = r.data_classes.clone();
    let depends_on = r.depends_on.clone();
    assert(data_classes@ =~= r.data_classes@);
    assert(depends_on@ =~= r.depends_on@);
    EcosystemTool {
        name: text_or_default(&r.name, "(unknown)"),
        class_name: text_or_default(&r.class_name, "unknown"),
        conformance: text_or_default(&r.conformance, "unknown"),
        side_effects: text_or_default(&r.side_effects, "unknown"),
        data_classes,
        repo: clone_opt(&r.repo),
        provider: clone_opt(&r.provider),
        health: Some(health),
        depends_on,
        queue: r.queue,
    }
}

/// Normalizes a raw Jeryu payload: every tool record is kept (records missing
/// required fields are marked `degraded`, never dropped), repo nodes are built,
/// the snapshot is live exactly when it has tools, and the note says why not.
pub fn normalize(raw: RawEcosystem) -> (snapshot: EcosystemSnapshot)
    ensures
        snapshot.tools@.len() == raw.tools@.len(),
        forall|i: int|
            0 <= i < raw.tools@.len() ==> tool_normalized(
                #[trigger] snapshot.tools@[i],
                raw.tools@[i],
            ),
        repo_views(snapshot.repos@) == build_repos_spec(raw.repos@, snapshot.tools@),
        snapshot.live == (raw.tools@.len() > 0),
        snapshot.degraded_reason@ == normalize_reason_spec(raw.tools@),
{
    let mut tools: Vec<EcosystemTool> = Vec::new();
    let mut degraded_count: usize = 0;
    let mut i: usize = 0;
    while i < raw.tools.len()
        invariant
            i <= raw.tools@.len(),
            tools@.len() == i,
            forall|j: int| 0 <= j < i ==> tool_normalized(#[trigger] tools@[j], raw.tools@[j]),
            degraded_count == count_degraded(raw.tools@.take(i as int)),
            degraded_count <= i,
        decreases raw.tools@.len() - i,
    {
        assert(raw.tools@.take(i + 1).drop_last() =~= raw.tools@.take(i as int));
        let record = &raw.tools[i];
        if record.name.is_none() || record.class_name.is_none() {
            degraded_count = degraded_count + 1;
        }
        tools.push(normalize_tool(record));
        i = i + 1;
    }
    assert(raw.tools@.take(i as int) =~= raw.tools@);
    let repos = build_repos(raw.repos.as_slice(), tools.as_slice());
    let live = tools.len() > 0;
    let degraded_reason = if !live {
        "jeryu returned no ecosystem tools".to_owned()
    } else if degraded_count > 0 {
        let n = decimal(degraded_count as u64);
        concat(n.as_str(), " tool record(s) had missing fields and were marked degraded")
    } else {
        String::new()
    };
    EcosystemSnapshot { tools, repos, live, degraded_reason }
}

} // verus!
