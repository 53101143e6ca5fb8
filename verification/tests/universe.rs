use jcp_protocol::clock::Timestamp;
use jcp_protocol::domain::{Lease, SystemStatus, Task, WorkOrder};
use jcp_protocol::ecosystem::{EcosystemSnapshot, EcosystemTool};
use jcp_protocol::json::Json;
use jcp_protocol::universe::{
    average_numbers, compose_universe, compose_universe_over, join_reasons, repo_coverage, repo_score, score_health,
    HealthLevel, UniversePayload,
};

fn live_ecosystem() -> EcosystemSnapshot {
    EcosystemSnapshot {
        tools: vec![
            EcosystemTool {
                name: "jeryu.repo.adopt".to_owned(),
                class_name: "repository governance".to_owned(),
                conformance: "C1 constrained".to_owned(),
                side_effects: "local git remote".to_owned(),
                data_classes: vec!["repo".to_owned(), "policy".to_owned()],
                repo: Some("Jeryu".to_owned()),
                provider: Some("jeryu".to_owned()),
                health: Some("watch".to_owned()),
                depends_on: vec!["git.remote".to_owned()],
                queue: Some(1),
            },
            EcosystemTool {
                name: "jekko.run_headless".to_owned(),
                class_name: "worker execution".to_owned(),
                conformance: "C1 leased".to_owned(),
                side_effects: "tool calls".to_owned(),
                data_classes: vec!["prompt".to_owned(), "diff".to_owned()],
                repo: Some("Jekko".to_owned()),
                provider: Some("jekko".to_owned()),
                health: Some("nominal".to_owned()),
                depends_on: vec!["jeryu.repo.adopt".to_owned()],
                queue: Some(0),
            },
        ],
        repos: Vec::new(),
        live: true,
        degraded_reason: String::new(),
    }
}

fn repo_work_order(id: u128, repo: &str, branch: &str, pool: &str) -> WorkOrder {
    WorkOrder {
        id,
        subject: format!("repo/{repo}/main"),
        task: Task {
            kind: format!("{repo}.sync"),
            payload: Json::Object(vec![
                ("branch".to_owned(), Json::String(branch.to_owned())),
                ("pool".to_owned(), Json::String(pool.to_owned())),
                ("repo".to_owned(), Json::String(repo.to_owned())),
            ]),
        },
        updated_at: Timestamp::from_unix(1_700_000_000, 0).unwrap(),
    }
}

fn system(name: &str, role: &str) -> SystemStatus {
    SystemStatus { name: name.to_owned(), role: role.to_owned() }
}

fn lease(work_order_id: u128, holder: &str) -> Lease {
    Lease {
        work_order_id,
        holder: holder.to_owned(),
        expires_at: Timestamp::from_unix(1_700_000_600, 0).unwrap(),
    }
}

fn combined(with_jailgun: bool) -> UniversePayload {
    let mut orders = vec![
        repo_work_order(1, "Jeryu", "main", "jeryu-pool"),
        repo_work_order(2, "Jekko", "jmcp/bridge-quarantine", "jekko-pool"),
        repo_work_order(3, "Jankurai", "policy/replay-ratchet", "jankurai-pool"),
    ];
    let mut systems = vec![
        system("jeryu", "evidence runner"),
        system("jekko", "headless worker"),
        system("jankurai", "standards memory"),
    ];
    let mut leases = vec![lease(1, "jeryu-pool"), lease(2, "jekko-pool"), lease(3, "jankurai-pool")];
    if with_jailgun {
        orders.push(repo_work_order(4, "Jailgun", "main", "jailgun-pool"));
        systems.push(system("jailgun", "bounded ChatGPT capture"));
        leases.push(lease(4, "jailgun-pool"));
    }
    if with_jailgun {
        compose_universe(&systems, &orders, &leases, live_ecosystem())
    } else {
        let roster: Vec<String> = vec!["Jeryu".to_owned(), "Jekko".to_owned(), "Jankurai".to_owned()];
        compose_universe_over(&roster, &systems, &orders, &leases, live_ecosystem())
    }
}

fn check_combined(payload: &UniversePayload) {
    assert!(payload.live);
    assert_eq!(payload.bootstrap_tui.observed_coverage, 100);
    assert!(payload.bootstrap_tui.active_repos.iter().any(|repo| repo.repo == "Jeryu"));
    let jeryu = payload
        .bootstrap_tui
        .repo_scores
        .iter()
        .find(|repo| repo.repo == "Jeryu")
        .expect("jeryu repo score present");
    assert_eq!(jeryu.current_task, "Jeryu.sync");
    assert_eq!(jeryu.branch, "main");
    assert_eq!(jeryu.pool, "jeryu-pool");
    assert!(payload
        .bootstrap_tui
        .placements
        .iter()
        .any(|placement| placement.agent == "Jeryu" && placement.branch == "main"));
}

#[test]
fn lib_universe_payload_combines_bootstrap_and_ecosystem() {
    check_combined(&combined(false));
}

#[test]
fn tests_universe_payload_combines_bootstrap_and_ecosystem() {
    let payload = combined(true);
    check_combined(&payload);
    assert!(payload.bootstrap_tui.active_repos.iter().any(|repo| repo.repo == "Jailgun"));
}

fn check_degraded() {
    let payload = compose_universe(
        &[],
        &[],
        &[],
        EcosystemSnapshot::degraded("jeryu unreachable: connection refused".to_owned()),
    );
    assert!(!payload.live);
    assert!(!payload.bootstrap_tui.live);
    assert!(payload
        .bootstrap_tui
        .degraded_reason
        .as_deref()
        .expect("bootstrap reason")
        .contains("current task not observed"));
    assert!(payload.bootstrap_tui.degraded_slices.iter().any(|slice| slice.name == "ecosystem"
        && slice.degraded_reason.as_deref().unwrap_or_default().contains("connection refused")));
}

#[test]
fn lib_universe_payload_reports_degraded_slices() {
    check_degraded();
}

#[test]
fn tests_universe_payload_reports_degraded_slices() {
    check_degraded();
}

#[test]
fn score_formulas() {
    assert_eq!(average_numbers(&[]), 0);
    assert_eq!(average_numbers(&[100, 50]), 75);
    assert_eq!(repo_coverage("unobserved", "unobserved", "unassigned"), 0);
    assert_eq!(repo_coverage("a", "unobserved", "unassigned"), 33);
    assert_eq!(repo_coverage("a", "b", "c"), 100);
    assert_eq!(score_health(90), HealthLevel::Nominal);
    assert_eq!(score_health(70), HealthLevel::Watch);
    assert_eq!(score_health(40), HealthLevel::Degraded);
    assert_eq!(score_health(10), HealthLevel::Blocked);
    assert_eq!(join_reasons(&[]), None);
    assert_eq!(join_reasons(&["a".to_owned(), "b".to_owned()]), Some("a; b".to_owned()));
    assert_eq!(repo_score(2, 100, 0), 100);
    assert_eq!(repo_score(0, 0, 18), 28);
    assert_eq!(repo_score(0, 0, 100), 0);
}

#[test]
fn observed_roster_without_jailgun_work_is_degraded() {
    let orders = vec![
        repo_work_order(1, "Jeryu", "main", "jeryu-pool"),
        repo_work_order(2, "Jekko", "jmcp/bridge-quarantine", "jekko-pool"),
        repo_work_order(3, "Jankurai", "policy/replay-ratchet", "jankurai-pool"),
    ];
    let systems = vec![system("jeryu", "evidence runner")];
    let leases = vec![lease(1, "jeryu-pool")];
    let payload = compose_universe(&systems, &orders, &leases, live_ecosystem());
    assert_eq!(payload.bootstrap_tui.repo_scores.len(), 4);
    assert!(!payload.live);
    assert!(!payload.bootstrap_tui.live);
}
