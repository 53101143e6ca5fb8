use jcp_protocol::clock::Timestamp;
use jcp_protocol::domain::{require_valid_lease, Lease};
use jcp_protocol::telegram::{
    approval_error_status, decision_reply, discover_candidate_line, discover_chat_ids,
    listen_poll_seconds, next_offset, parse_telegram_command, status_reply, submitted_text,
    telegram_action, ApprovalDecision, DecisionOutcome, StatusLookup, TelegramAction,
    TelegramCommand, HELP_TEXT, INVALID_STATUS_ID_TEXT, NOT_ALLOWED_TEXT,
};
use jcp_protocol::voice::{
    decision_label, evaluate_voice_approval, explain, voice_reply_with_outcome, VoiceChallenge,
    VoiceChallengeBook, VoiceReplyError,
};

const NIL: &str = "00000000-0000-0000-0000-000000000000";

fn now() -> Timestamp {
    Timestamp::now()
}

fn later(minutes: i64) -> Timestamp {
    let n = Timestamp::now();
    Timestamp::from_unix(n.unix_secs() + minutes * 60, n.subsec_nanos()).unwrap()
}

fn challenge(user_id: i64, token: &str) -> VoiceChallenge {
    VoiceChallenge {
        work_order_id: 0,
        approver_user_id: user_id,
        token: token.to_owned(),
        expires_at: later(15),
    }
}

fn book_with(challenge: VoiceChallenge) -> VoiceChallengeBook {
    let mut book = VoiceChallengeBook::new();
    book.remember(challenge);
    book
}

#[test]
fn no_pending_challenge_yields_no_apply() {
    let book = VoiceChallengeBook::new();
    let plan = evaluate_voice_approval(&book, 7, "approve", Ok(ApprovalDecision::Approved));
    assert!(plan.apply.is_none());
    assert!(plan.reply.contains("no pending approval"));
    assert_eq!(
        plan.reply,
        "I heard: \"approve\". There is no pending approval for you right now."
    );
}

#[test]
fn low_risk_approve_is_applied() {
    let book = book_with(challenge(7, "alpha"));
    let plan = evaluate_voice_approval(&book, 7, "yes, approve that", Ok(ApprovalDecision::Approved));
    let apply = plan.apply.expect("decision");
    assert_eq!(apply.decision, ApprovalDecision::Approved);
    assert_eq!(apply.token, "alpha");
    assert_eq!(apply.work_order_id, 0);
    assert_eq!(plan.reply, format!("I heard: \"yes, approve that\". Approving work order {NIL}."));
}

#[test]
fn low_risk_reject_is_applied() {
    let book = book_with(challenge(7, "alpha"));
    let plan = evaluate_voice_approval(&book, 7, "no, reject it", Ok(ApprovalDecision::Rejected));
    assert_eq!(plan.apply.unwrap().decision, ApprovalDecision::Rejected);
    assert!(plan.reply.contains("Rejecting work order"));
}

#[test]
fn high_risk_without_spoken_token_is_blocked() {
    let book = book_with(challenge(7, "alpha"));
    let plan = evaluate_voice_approval(
        &book,
        7,
        "approve the deploy",
        Err(VoiceReplyError::ConfirmationRequired),
    );
    assert!(plan.apply.is_none());
    assert!(plan.reply.contains("confirmation token"));
}

#[test]
fn high_risk_with_spoken_token_is_applied() {
    let book = book_with(challenge(7, "alpha"));
    let plan = evaluate_voice_approval(
        &book,
        7,
        "approve the deploy, token alpha",
        Ok(ApprovalDecision::Approved),
    );
    assert_eq!(plan.apply.unwrap().decision, ApprovalDecision::Approved);
}

#[test]
fn low_confidence_is_rejected_with_retry_prompt() {
    let book = book_with(challenge(7, "alpha"));
    let plan = evaluate_voice_approval(&book, 7, "approve", Err(VoiceReplyError::LowConfidence));
    assert!(plan.apply.is_none());
    assert!(plan.reply.contains("confident"));
}

#[test]
fn missing_confidence_is_treated_as_zero() {
    let book = book_with(challenge(7, "alpha"));
    let plan = evaluate_voice_approval(&book, 7, "approve", Err(VoiceReplyError::LowConfidence));
    assert!(plan.apply.is_none());
}

#[test]
fn unknown_decision_prompts_for_approve_or_reject() {
    let book = book_with(challenge(7, "alpha"));
    let plan = evaluate_voice_approval(&book, 7, "hello there", Err(VoiceReplyError::UnknownDecision));
    assert!(plan.apply.is_none());
    assert!(plan.reply.to_lowercase().contains("approve or reject"));
}

#[test]
fn expired_challenge_is_reported() {
    let expired = VoiceChallenge {
        work_order_id: 0,
        approver_user_id: 7,
        token: "alpha".to_owned(),
        expires_at: later(-1),
    };
    let book = book_with(expired);
    let plan = evaluate_voice_approval(&book, 7, "approve", Err(VoiceReplyError::Expired));
    assert!(plan.apply.is_none());
    assert!(plan.reply.contains("expired"));
}

#[test]
fn forget_removes_a_pending_challenge() {
    let mut book = book_with(challenge(7, "alpha"));
    assert!(book.pending_for(7).is_some());
    book.forget(7);
    assert!(book.pending_for(7).is_none());
}

#[test]
fn remembering_replaces_the_earlier_challenge() {
    let mut book = book_with(challenge(7, "alpha"));
    book.remember(challenge(7, "beta"));
    book.remember(challenge(8, "gamma"));
    assert_eq!(book.pending_for(7).unwrap().token, "beta");
    assert_eq!(book.pending_for(8).unwrap().token, "gamma");
    assert!(book.pending_for(9).is_none());
}

#[test]
fn transcript_is_trimmed_in_the_reply() {
    let book = VoiceChallengeBook::new();
    let plan = evaluate_voice_approval(&book, 7, "  approve \n", Ok(ApprovalDecision::Approved));
    assert!(plan.reply.starts_with("I heard: \"approve\"."));
}

#[test]
fn other_refusals_are_explained_by_their_text() {
    assert_eq!(explain(&VoiceReplyError::Other("boom".to_owned())), "I could not process that: boom.");
    assert_eq!(explain(&VoiceReplyError::WrongUser), "You are not the approver for the pending request.");
}

#[test]
fn voice_reply_appends_the_outcome() {
    assert_eq!(voice_reply_with_outcome("a", Some("b")), "a b");
    assert_eq!(voice_reply_with_outcome("a", None), "a");
    assert_eq!(decision_label(Some(ApprovalDecision::Approved)), "approved");
    assert_eq!(decision_label(Some(ApprovalDecision::Rejected)), "rejected");
    assert_eq!(decision_label(None), "none");
}

#[test]
fn rejects_missing_matching_lease_before_adapter_side_effects() {
    let work_order_id: u128 = 42;
    let lease = Lease {
        work_order_id,
        holder: "other".to_owned(),
        expires_at: later(5),
    };
    assert!(require_valid_lease(work_order_id, &lease, "adapter", &now()).is_err());
}

#[test]
fn lease_checks_work_order_holder_and_expiry() {
    let lease = Lease { work_order_id: 1, holder: "adapter".to_owned(), expires_at: later(5) };
    assert!(require_valid_lease(1, &lease, "adapter", &now()).is_ok());
    assert_eq!(
        require_valid_lease(2, &lease, "adapter", &now()).unwrap_err().message,
        "lease does not match work order"
    );
    assert_eq!(
        require_valid_lease(1, &lease, "someone", &now()).unwrap_err().message,
        "lease is held by another adapter"
    );
    let stale = Lease { work_order_id: 1, holder: "adapter".to_owned(), expires_at: later(-5) };
    assert_eq!(
        require_valid_lease(1, &stale, "adapter", &now()).unwrap_err().message,
        "lease has expired"
    );
}

#[test]
fn parses_bot_commands() {
    assert_eq!(parse_telegram_command("/start"), TelegramCommand::Help);
    assert_eq!(parse_telegram_command("/help"), TelegramCommand::Help);
    assert_eq!(
        parse_telegram_command("/submit t/s/e demo {\"a\": 1}"),
        TelegramCommand::Submit {
            subject: "t/s/e".to_owned(),
            kind: "demo".to_owned(),
            payload: "{\"a\": 1}".to_owned(),
        }
    );
    assert_eq!(
        parse_telegram_command("/submit t/s/e demo"),
        TelegramCommand::Submit {
            subject: "t/s/e".to_owned(),
            kind: "demo".to_owned(),
            payload: "{}".to_owned(),
        }
    );
    assert_eq!(parse_telegram_command("/submit t/s/e"), TelegramCommand::SubmitUsage);
    assert_eq!(parse_telegram_command("/status abc"), TelegramCommand::Status("abc".to_owned()));
    assert_eq!(parse_telegram_command("/approve tok"), TelegramCommand::Approve("tok".to_owned()));
    assert_eq!(parse_telegram_command("/deny tok"), TelegramCommand::Deny("tok".to_owned()));
    assert_eq!(parse_telegram_command("hello"), TelegramCommand::Ignored);
    assert_eq!(parse_telegram_command("/approve"), TelegramCommand::Ignored);
}

#[test]
fn telegram_actions_follow_sender_allow_list_and_command() {
    assert_eq!(telegram_action(false, true, Some("/help")), TelegramAction::Nothing);
    assert_eq!(
        telegram_action(true, false, Some("/help")),
        TelegramAction::Reply(NOT_ALLOWED_TEXT.to_owned())
    );
    assert_eq!(telegram_action(true, true, None), TelegramAction::Nothing);
    assert_eq!(telegram_action(true, true, Some("/help")), TelegramAction::Reply(HELP_TEXT.to_owned()));
    assert_eq!(
        telegram_action(true, true, Some("/submit x")),
        TelegramAction::Reply("JMCP submit rejected; check subject, kind, and payload.".to_owned())
    );
    assert_eq!(
        telegram_action(true, true, Some("/status nope")),
        TelegramAction::Reply(INVALID_STATUS_ID_TEXT.to_owned())
    );
    assert_eq!(
        telegram_action(true, true, Some("/status 00000000-0000-0000-0000-00000000002a ")),
        TelegramAction::Status(42)
    );
    assert_eq!(
        telegram_action(true, true, Some("/approve  tok ")),
        TelegramAction::Decide { token: "tok".to_owned(), decision: ApprovalDecision::Approved }
    );
    assert_eq!(
        telegram_action(true, true, Some("/deny tok")),
        TelegramAction::Decide { token: "tok".to_owned(), decision: ApprovalDecision::Rejected }
    );
}

#[test]
fn status_and_decision_replies() {
    let found = StatusLookup::Found {
        id: 0,
        status: "Pending".to_owned(),
        attention: vec![],
        evidence: 2,
    };
    assert_eq!(status_reply(&found), format!("JMCP work order {NIL}: Pending; attention: none; evidence: 2."));
    let busy = StatusLookup::Found {
        id: 0,
        status: "Blocked".to_owned(),
        attention: vec!["a".to_owned(), "b".to_owned()],
        evidence: 0,
    };
    assert_eq!(status_reply(&busy), format!("JMCP work order {NIL}: Blocked; attention: a, b; evidence: 0."));
    assert_eq!(status_reply(&StatusLookup::Unknown), "JMCP status rejected: unknown work order id.");
    let decided = DecisionOutcome::Decided { recorded: None, work_order_id: 0 };
    assert_eq!(
        decision_reply(&decided, ApprovalDecision::Rejected),
        format!("JMCP approval Rejected for work order {NIL}.")
    );
    assert_eq!(decision_reply(&DecisionOutcome::Expired, ApprovalDecision::Approved), "JMCP approval rejected: expired token.");
    assert_eq!(approval_error_status(&decided), None);
    assert_eq!(approval_error_status(&DecisionOutcome::UnknownToken), Some(404));
    assert_eq!(approval_error_status(&DecisionOutcome::AlreadyUsed), Some(409));
    assert_eq!(approval_error_status(&DecisionOutcome::WrongApprover), Some(403));
    assert_eq!(approval_error_status(&DecisionOutcome::Unavailable), Some(500));
    assert_eq!(submitted_text(0, "say yes"), format!("JMCP work order submitted: {NIL}\nsay yes"));
}

#[test]
fn discovery_and_polling_helpers() {
    let ids = discover_chat_ids(&vec![Some(5), None, Some(-3), Some(5)]);
    assert_eq!(ids.into_iter().collect::<Vec<_>>(), vec![-3, 5]);
    assert_eq!(
        discover_candidate_line(1, -2, "private", None, "Ann"),
        "user_id=1 chat_id=-2 chat_type=private username=(none) first_name=Ann"
    );
    assert_eq!(listen_poll_seconds(0), 1);
    assert_eq!(listen_poll_seconds(7), 7);
    assert_eq!(listen_poll_seconds(90), 20);
    assert_eq!(next_offset(41), 42);
}
