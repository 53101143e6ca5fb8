use jcp_protocol::jitux::{
    action_preview, frame_id, ignition_frames, prepare_reason, reason_for, session_id_text,
    session_paths, session_title, FrameKind, IgnitionPane, JituxHub, RankReason, MAX_SESSIONS,
};
use jcp_protocol::json::Json;

fn pane(id: &str, title: &str, evidence_count: usize, action_count: usize) -> IgnitionPane {
    IgnitionPane { id: id.to_owned(), title: title.to_owned(), evidence_count, action_count }
}

#[test]
fn frame_ids_are_zero_padded() {
    assert_eq!(frame_id(1), "frame_0001");
    assert_eq!(frame_id(42), "frame_0042");
    assert_eq!(frame_id(12345), "frame_12345");
}

#[test]
fn session_title_follows_the_prompt() {
    assert_eq!(session_title(Some("Show me the QUEUE")), "Scanning queue blockers");
    assert_eq!(session_title(Some("hello")), "Preparing Mission Deck");
    assert_eq!(session_title(None), "Preparing Mission Deck");
}

#[test]
fn prepare_reason_prefers_rank_explanation() {
    let reasons = vec![
        RankReason { pane_id: "b".to_owned(), explanation: "Blocked longest.".to_owned() },
    ];
    assert_eq!(reason_for(&reasons, "b"), Some(0));
    assert_eq!(reason_for(&reasons, "a"), None);
    assert_eq!(
        prepare_reason(Some("cli"), &pane("b", "Bee", 0, 0), &reasons),
        "Blocked longest. Warmed for cli Mission Deck session."
    );
    assert_eq!(
        prepare_reason(None, &pane("a", "Ay", 0, 0), &reasons),
        "Ay warmed for local Mission Deck session."
    );
}

#[test]
fn ignition_sequence_is_numbered_and_bookended() {
    let panes = vec![pane("a", "Ay", 1, 2), pane("b", "Bee", 0, 0)];
    let reasons = vec![
        RankReason { pane_id: "a".to_owned(), explanation: "Top.".to_owned() },
    ];
    let frames = ignition_frames("jitux_s1", Some("queue"), None, &panes, &reasons);
    let kinds: Vec<FrameKind> = frames.iter().map(|f| f.kind.clone()).collect();
    assert_eq!(
        kinds,
        vec![
            FrameKind::DeckPatch { title: "Scanning queue blockers".to_owned() },
            FrameKind::CardGhost { pane: 0 },
            FrameKind::PanePrepare {
                pane: 1,
                reason: "Bee warmed for local Mission Deck session.".to_owned()
            },
            FrameKind::DeckRankChanged { ordered_pane_ids: vec!["a".to_owned(), "b".to_owned()] },
            FrameKind::FocusChange { pane: 0, reason: Some(0) },
            FrameKind::EvidenceAttach { pane: 0 },
            FrameKind::ActionReady { pane: 0, action: 0 },
            FrameKind::ActionReady { pane: 0, action: 1 },
            FrameKind::CardHydrated { pane: 0 },
            FrameKind::CardHydrated { pane: 1 },
            FrameKind::SessionDone,
        ]
    );
    for (i, f) in frames.iter().enumerate() {
        assert_eq!(f.seq, i as u64 + 1);
        assert_eq!(f.frame_id, format!("frame_{:04}", i + 1));
        assert_eq!(f.session_id, "jitux_s1");
    }
}

#[test]
fn empty_projection_still_opens_and_closes() {
    let frames = ignition_frames("jitux_s2", None, None, &vec![], &vec![]);
    let kinds: Vec<FrameKind> = frames.iter().map(|f| f.kind.clone()).collect();
    assert_eq!(
        kinds,
        vec![
            FrameKind::DeckPatch { title: "Preparing Mission Deck".to_owned() },
            FrameKind::DeckRankChanged { ordered_pane_ids: vec![] },
            FrameKind::SessionDone,
        ]
    );
}

#[test]
fn action_preview_is_non_committal() {
    let preview = action_preview("s1", "act");
    assert_eq!(preview.get_str("mode"), Some("preview_only"));
    assert!(matches!(preview.get("committed"), Some(Json::Bool(false))));
    assert_eq!(preview.get_str("sessionId"), Some("s1"));
    assert_eq!(preview.get_str("actionId"), Some("act"));
    assert_eq!(
        preview.get_str("message"),
        Some("JITUX actions are previews unless committed through JMCP authority routes.")
    );
}

#[test]
fn session_paths_name_stream_and_socket() {
    let (stream, ws) = session_paths("abc");
    assert_eq!(stream, "/jitux/sessions/abc/stream");
    assert_eq!(ws, "/jitux/sessions/abc/ws");
}

#[test]
fn session_ids_are_simple_uuid_text() {
    assert_eq!(session_id_text(0x1234), "jitux_00000000000000000000000000001234");
    assert_eq!(
        session_id_text(u128::MAX),
        "jitux_ffffffffffffffffffffffffffffffff"
    );
}

#[test]
fn created_session_holds_its_ignition_backlog() {
    let mut hub = JituxHub::new();
    let panes = vec![pane("a", "Ay", 0, 1)];
    let created = hub.create_session(Some("queue"), Some("cli"), &panes, &vec![]);
    assert!(created.session_id.starts_with("jitux_"));
    assert_eq!(created.session_id.len(), 6 + 32);
    assert_eq!(created.stream_url, format!("/jitux/sessions/{}/stream", created.session_id));
    assert_eq!(created.ws_url, format!("/jitux/sessions/{}/ws", created.session_id));
    let backlog = hub.backlog(&created.session_id).expect("session is held");
    let expected =
        ignition_frames(&created.session_id, Some("queue"), Some("cli"), &panes, &vec![]);
    assert_eq!(backlog, &expected);
    assert!(hub.backlog("jitux_missing").is_none());
}

#[test]
fn unknown_session_has_no_preview() {
    let mut hub = JituxHub::new();
    assert!(hub.action_preview("jitux_missing", "act").is_none());
    let created = hub.create_session(None, None, &vec![], &vec![]);
    let preview = hub.action_preview(&created.session_id, "act").expect("preview");
    assert_eq!(preview.get_str("mode"), Some("preview_only"));
}

#[test]
fn full_hub_drops_its_oldest_session() {
    let mut hub = JituxHub::new();
    let first = hub.create_session(None, None, &vec![], &vec![]);
    let mut ids = vec![first.session_id.clone()];
    for _ in 0..MAX_SESSIONS {
        ids.push(hub.create_session(None, None, &vec![], &vec![]).session_id);
    }
    assert!(hub.backlog(&first.session_id).is_none());
    for id in &ids[1..] {
        assert!(hub.backlog(id).is_some());
    }
}
