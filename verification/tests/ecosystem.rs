use jcp_protocol::ecosystem::{
    build_repos, count_tools, derive_repo_health, normalize, EcosystemSnapshot, EcosystemTool,
    RawEcosystem, RawJeryuRepo, RawJeryuTool,
};

fn strings(items: &[&str]) -> Vec<String> {
    items.iter().map(|s| s.to_string()).collect()
}

fn raw_tool(
    name: Option<&str>,
    class_name: Option<&str>,
    conformance: Option<&str>,
    side_effects: Option<&str>,
    repo: Option<&str>,
) -> RawJeryuTool {
    RawJeryuTool {
        name: name.map(str::to_owned),
        class_name: class_name.map(str::to_owned),
        conformance: conformance.map(str::to_owned),
        side_effects: side_effects.map(str::to_owned),
        repo: repo.map(str::to_owned),
        ..RawJeryuTool::default()
    }
}

#[test]
fn normalizes_healthy_multi_repo_graph_with_relationships() {
    let adopt = RawJeryuTool {
        name: Some("jeryu.repo.adopt".to_owned()),
        class_name: Some("repository governance".to_owned()),
        conformance: Some("C1 constrained".to_owned()),
        side_effects: Some("local git remote".to_owned()),
        data_classes: strings(&["repo", "policy"]),
        repo: Some("Jeryu".to_owned()),
        provider: Some("jeryu".to_owned()),
        health: Some("watch".to_owned()),
        depends_on: strings(&["git.remote"]),
        queue: Some(1),
    };
    let headless = RawJeryuTool {
        name: Some("jekko.run_headless".to_owned()),
        class_name: Some("worker execution".to_owned()),
        conformance: Some("C1 leased".to_owned()),
        side_effects: Some("tool calls".to_owned()),
        data_classes: strings(&["prompt", "diff"]),
        repo: Some("Jekko".to_owned()),
        provider: Some("jekko".to_owned()),
        health: Some("degraded".to_owned()),
        depends_on: strings(&["jeryu.repo.adopt"]),
        queue: Some(0),
    };
    let snapshot = normalize(RawEcosystem { tools: vec![adopt, headless], repos: Vec::new() });
    assert!(snapshot.live);
    assert_eq!(snapshot.degraded_reason, "");
    assert_eq!(snapshot.tools.len(), 2);
    let jekko = snapshot.tools.iter().find(|t| t.name == "jekko.run_headless").expect("jekko tool present");
    assert_eq!(jekko.repo.as_deref(), Some("Jekko"));
    assert!(jekko.depends_on.iter().any(|d| d == "jeryu.repo.adopt"));
    assert_eq!(snapshot.tools[0].class_name, "repository governance");
    assert_eq!(snapshot.tools[0].side_effects, "local git remote");
    assert_eq!(snapshot.tools[0].data_classes, strings(&["repo", "policy"]));
}

#[test]
fn normalize_wires_first_class_repo_nodes() {
    let snapshot = normalize(RawEcosystem {
        tools: vec![raw_tool(Some("t"), Some("x"), Some("C1"), Some("none"), Some("JMCP"))],
        repos: Vec::new(),
    });
    assert_eq!(snapshot.repos.len(), 1, "repo node derived from tool tag");
    assert_eq!(snapshot.repos[0].name, "JMCP");
    assert_eq!(snapshot.repos[0].tool_count, 1);
}

#[test]
fn malformed_record_is_marked_degraded_not_dropped() {
    let snapshot = normalize(RawEcosystem {
        tools: vec![
            raw_tool(Some("ok.tool"), Some("evidence"), Some("C2"), Some("none"), None),
            raw_tool(None, None, Some("C0"), Some("none"), None),
        ],
        repos: Vec::new(),
    });
    assert!(snapshot.live);
    assert_eq!(snapshot.tools.len(), 2, "malformed record kept, not dropped");
    assert!(snapshot.degraded_reason.contains("missing fields"));
    assert_eq!(snapshot.degraded_reason, "1 tool record(s) had missing fields and were marked degraded");
    let bad = snapshot.tools.iter().find(|t| t.name == "(unknown)").expect("degraded placeholder present");
    assert_eq!(bad.health.as_deref(), Some("degraded"));
    assert_eq!(bad.class_name, "unknown");
}

#[test]
fn empty_payload_degrades_explicitly() {
    let snapshot = normalize(RawEcosystem::default());
    assert!(!snapshot.live);
    assert!(snapshot.tools.is_empty());
    assert_eq!(snapshot.degraded_reason, "jeryu returned no ecosystem tools");
}

#[test]
fn degraded_constructor_is_explicit() {
    let snapshot = EcosystemSnapshot::degraded("jeryu unreachable: connection refused".to_owned());
    assert!(!snapshot.live);
    assert!(snapshot.tools.is_empty());
    assert!(snapshot.degraded_reason.starts_with("jeryu unreachable"));
}

fn tool(name: &str, repo: &str, health: &str) -> EcosystemTool {
    EcosystemTool {
        name: name.to_owned(),
        class_name: "class".to_owned(),
        conformance: "C1".to_owned(),
        side_effects: "none".to_owned(),
        data_classes: Vec::new(),
        repo: Some(repo.to_owned()),
        provider: None,
        health: Some(health.to_owned()),
        depends_on: Vec::new(),
        queue: None,
    }
}

#[test]
fn derives_repo_nodes_from_tool_tags() {
    let tools = vec![tool("jeryu.repo.adopt", "Jeryu", "watch"), tool("jekko.run_headless", "Jekko", "degraded")];
    let repos = build_repos(&[], &tools);
    assert_eq!(repos.len(), 2, "Jeryu + Jekko become repo nodes");
    let jekko = repos.iter().find(|r| r.name == "Jekko").expect("Jekko repo node");
    assert_eq!(jekko.tool_count, 1);
    assert_eq!(jekko.health.as_deref(), Some("degraded"));
    assert_eq!(jekko.status.as_deref(), Some("managed"));
}

#[test]
fn worst_of_health_across_repo_tools() {
    let tools = vec![tool("jeryu.repo.adopt", "Jeryu", "watch"), tool("jeryu.status", "Jeryu", "nominal")];
    let repos = build_repos(&[], &tools);
    assert_eq!(repos.len(), 1);
    let jeryu = &repos[0];
    assert_eq!(jeryu.name, "Jeryu");
    assert_eq!(jeryu.tool_count, 2);
    assert_eq!(jeryu.health.as_deref(), Some("watch"), "worst-of watch+nominal");
}

#[test]
fn explicit_records_carry_head_and_score() {
    let tools = vec![tool("t", "JMCP", "nominal")];
    let raw = vec![RawJeryuRepo {
        name: Some("JMCP".to_owned()),
        head: Some("main@abc1234".to_owned()),
        score: Some(94),
        conformance: Some("C2".to_owned()),
        status: Some("managed".to_owned()),
        health: Some("nominal".to_owned()),
    }];
    let repos = build_repos(&raw, &tools);
    assert_eq!(repos.len(), 1);
    let repo = &repos[0];
    assert_eq!(repo.score, Some(94));
    assert_eq!(repo.head.as_deref(), Some("main@abc1234"));
    assert_eq!(repo.tool_count, 1, "tool count joined from tools[]");
}

#[test]
fn record_without_name_is_dropped() {
    let raw = vec![RawJeryuRepo { head: Some("main@abc1234".to_owned()), ..RawJeryuRepo::default() }];
    let repos = build_repos(&raw, &[]);
    assert!(repos.is_empty(), "nameless repo record dropped");
}

#[test]
fn explicit_record_derives_health_when_omitted() {
    let tools = vec![tool("t", "JMCP", "degraded")];
    let raw = vec![RawJeryuRepo { name: Some("JMCP".to_owned()), ..RawJeryuRepo::default() }];
    let repos = build_repos(&raw, &tools);
    assert_eq!(repos[0].health.as_deref(), Some("degraded"));
}

#[test]
fn repo_health_and_counts() {
    let tools = vec![tool("a", "R", "nominal"), tool("b", "R", "blocked"), tool("c", "S", "watch")];
    assert_eq!(derive_repo_health(&tools, "R").as_deref(), Some("degraded"));
    assert_eq!(derive_repo_health(&tools, "S").as_deref(), Some("watch"));
    assert_eq!(derive_repo_health(&tools, "T"), None);
    assert_eq!(count_tools(&tools, "R"), 2);
}
