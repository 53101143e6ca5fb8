//! The Telegram approval bot's conversation: which command a message is,
//! and what the bot answers for each outcome of the control plane's state.

use vstd::prelude::*;

use crate::clock::{parse_uuid, uuid_parsed, uuid_text, uuid_to_text};
use crate::text::{
    concat, decimal, decimal_text, join, join_text, signed_decimal, signed_decimal_text, str_eq, texts,
    trim, trim_text,
};

verus! {

/// An approver's decision on a work order.
#[derive(Clone, Copy, Debug, PartialEq, Eq)]
pub enum ApprovalDecision {
    Approved,
    Rejected,
}

/// The `Debug` text of a decision.
pub open spec fn decision_text(d: ApprovalDecision) -> Seq<char> {
    match d {
        ApprovalDecision::Approved => "Approved"@,
        ApprovalDecision::Rejected => "Rejected"@,
    }
}

/// The `Debug` text of a decision.
pub fn decision_name(d: ApprovalDecision) -> (name: &'static str)
    ensures
        name@ == decision_text(d),
{
    match d {
        ApprovalDecision::Approved => "Approved",
        ApprovalDecision::Rejected => "Rejected",
    }
}

/// A command the bot understands.
#[derive(Clone, Debug, PartialEq, Eq)]
pub enum TelegramCommand {
    /// `/start` or `/help`.
    Help,
    /// `/submit <subject> <kind> [json]`; the payload defaults to `{}`.
    Submit { subject: String, kind: String, payload: String },
    /// `/submit` without a kind.
    SubmitUsage,
    /// `/status <id>`, with the text after the command.
    Status(String),
    /// `/approve <token>`.
    Approve(String),
    /// `/deny <token>`.
    Deny(String),
    /// Anything else, which the bot leaves unanswered.
    Ignored,
}

/// The plain-value form of a command.
pub enum CommandView {
    Help,
    Submit(Seq<char>, Seq<char>, Seq<char>),
    SubmitUsage,
    Status(Seq<char>),
    Approve(Seq<char>),
    Deny(Seq<char>),
    Ignored,
}

impl View for TelegramCommand {
    type V = CommandView;

    open spec fn view(&self) -> CommandView {
        match self {
            TelegramCommand::Help => CommandView::Help,
            TelegramCommand::Submit { subject, kind, payload } => CommandView::Submit(
                subject@,
                kind@,
                payload@,
            ),
            TelegramCommand::SubmitUsage => CommandView::SubmitUsage,
            TelegramCommand::Status(s) => CommandView::Status(s@),
            TelegramCommand::Approve(t) => CommandView::Approve(t@),
            TelegramCommand::Deny(t) => CommandView::Deny(t@),
            TelegramCommand::Ignored => CommandView::Ignored,
        }
    }
}

/// The first position at or after `i` holding `c`.
pub open spec fn find_char(s: Seq<char>, c: char, i: nat) -> Option<nat>
    decreases s.len() - i,
{
    if i >= s.len() {
        None
    } else if s[i as int] == c {
        Some(i)
    } else {
        find_char(s, c, i + 1)
    }
}

/// `pre` begins `s`.
pub open spec fn begins_with(s: Seq<char>, pre: Seq<char>) -> bool {
    pre.len() <= s.len() && s.subrange(0, pre.len() as int) == pre
}

/// `s` without its first `n` characters.
pub open spec fn after(s: Seq<char>, n: int) -> Seq<char> {
    s.subrange(n, s.len() as int)
}

/// The pieces of `/submit` arguments as `splitn(3, ' ')` cuts them: subject,
/// kind, and the rest as payload (`{}` when there is none); `None` without
/// a kind.
pub open spec fn submit_parts(rest: Seq<char>) -> Option<(Seq<char>, Seq<char>, Seq<char>)> {
    match find_char(rest, ' ', 0) {
        None => None,
        Some(a) => {
            let subject = rest.subrange(0, a as int);
            let tail = after(rest, a + 1int);
            match find_char(tail, ' ', 0) {
                None => Some((subject, tail, "{}"@)),
                Some(b) => Some((subject, tail.subrange(0, b as int), after(tail, b + 1int))),
            }
        },
    }
}

/// The command a message's text is.
pub open spec fn telegram_command_spec(text: Seq<char>) -> CommandView {
    if text == "/start"@ || text == "/help"@ {
        CommandView::Help
    } else if begins_with(text, "/submit "@) {
        match submit_parts(after(text, 8)) {
            Some((subject, kind, payload)) => CommandView::Submit(subject, kind, payload),
            None => CommandView::SubmitUsage,
        }
    } else if begins_with(text, "/status "@) {
        CommandView::Status(after(text, 8))
    } else if begins_with(text, "/approve "@) {
        CommandView::Approve(after(text, 9))
    } else if begins_with(text, "/deny "@) {
        CommandView::Deny(after(text, 6))
    } else {
        CommandView::Ignored
    }
}

fn find_char_from(s: &str, c: char, from: usize) -> (r: Option<usize>)
    requires
        from <= s@.len(),
    ensures
        match r {
            Some(k) => find_char(s@, c, from as nat) == Some(k as nat) && k < s@.len(),
            None => find_char(s@, c, from as nat) is None,
        },
{
    let n = s.unicode_len();
    let mut i = from;
    while i < n
        invariant
            n == s@.len(),
            from <= i <= n,
            find_char(s@, c, from as nat) == find_char(s@, c, i as nat),
        decreases n - i,
    {
        if s.get_char(i) == c {
            return Some(i);
        }
        i = i + 1;
    }
    None
}

fn strip_prefix_len(text: &str, prefix: &str) -> (r: bool)
    ensures
        r == begins_with(text@, prefix@),
{
    crate::text::starts_with(text, prefix)
}

/// Reads the command in a message's text.
pub fn parse_telegram_command(text: &str) -> (cmd: TelegramCommand)
    ensures
        cmd@ == telegram_command_spec(text@),
{
    let n = text.unicode_len();
    if str_eq(text, "/start") || str_eq(text, "/help") {
        return TelegramCommand::Help;
    }
    proof {
        reveal_strlit("/submit ");
        reveal_strlit("/status ");
        reveal_strlit("/approve ");
        reveal_strlit("/deny ");
    }
    if strip_prefix_len(text, "/submit ") {
        let rest = text.substring_char(8, n);
        let m = rest.unicode_len();
        match find_char_from(rest, ' ', 0) {
            None => {
                return TelegramCommand::SubmitUsage;
            },
            Some(a) => {
                let subject = rest.substring_char(0, a);
                let tail = rest.substring_char(a + 1, m);
                let t = tail.unicode_len();
                proof {
                    reveal_strlit("{}");
                }
                match find_char_from(tail, ' ', 0) {
                    None => {
                        return TelegramCommand::Submit {
                            subject: subject.to_owned(),
                            kind: tail.to_owned(),
                            payload: "{}".to_owned(),
                        };
                    },
                    Some(b) => {
                        let kind = tail.substring_char(0, b);
                        let payload = tail.substring_char(b + 1, t);
                        return TelegramCommand::Submit {
                            subject: subject.to_owned(),
                            kind: kind.to_owned(),
                            payload: payload.to_owned(),
                        };
                    },
                }
            },
        }
    }
    if strip_prefix_len(text, "/status ") {
        return TelegramCommand::Status(text.substring_char(8, n).to_owned());
    }
    if strip_prefix_len(text, "/approve ") {
        return TelegramCommand::Approve(text.substring_char(9, n).to_owned());
    }
    if strip_prefix_len(text, "/deny ") {
        return TelegramCommand::Deny(text.substring_char(6, n).to_owned());
    }
    TelegramCommand::Ignored
}

/// The answer to a user or chat that is not on the allow-list.
pub const NOT_ALLOWED_TEXT: &'static str = "JMCP: this Telegram user or chat is not allowed.";

/// The answer to `/start` and `/help`.
pub const HELP_TEXT: &'static str =
    "JMCP commands: /submit <subject> <kind> <json>, /status <work_order_id>, /approve <token>, /deny <token>.";

/// The answer to a refused submission: a payload that is not JSON is named as
/// such; every other refusal points at the three arguments.
pub fn submit_rejection_text(malformed_json: bool) -> (text: &'static str)
    ensures
        text@ == if malformed_json {
            "JMCP submit rejected: malformed JSON payload."@
        } else {
            "JMCP submit rejected; check subject, kind, and payload."@
        },
{
    if malformed_json {
        "JMCP submit rejected: malformed JSON payload."
    } else {
        "JMCP submit rejected; check subject, kind, and payload."
    }
}

/// The answer to an accepted submission: the work order's id, then the
/// approval prompt.
pub fn submitted_text(work_order_id: u128, prompt: &str) -> (text: String)
    ensures
        text@ == "JMCP work order submitted: "@ + uuid_text(work_order_id) + "\n"@ + prompt@,
{
    let id = uuid_to_text(work_order_id);
    let mut text = concat("JMCP work order submitted: ", id.as_str());
    text.append("\n");
    text.append(prompt);
    text
}

/// What the control plane knows of a work order asked about.
#[derive(Clone, Debug, PartialEq, Eq)]
pub enum StatusLookup {
    /// The work order: its id, the `Debug` text of its status, the reasons
    /// it needs attention, and how much evidence it holds.
    Found { id: u128, status: String, attention: Vec<String>, evidence: usize },
    /// No work order has that id.
    Unknown,
    /// The state could not be read.
    Unavailable,
}

/// The attention list of a status answer: `none`, or the reasons joined.
pub open spec fn attention_text(reasons: Seq<Seq<char>>) -> Seq<char> {
    if reasons.len() == 0 {
        "none"@
    } else {
        join_text(reasons, ", "@)
    }
}

/// The answer to `/status`.
pub open spec fn status_reply_spec(lookup: StatusLookup) -> Seq<char> {
    match lookup {
        StatusLookup::Found { id, status, attention, evidence } => "JMCP work order "@ + uuid_text(
            id,
        ) + ": "@ + status@ + "; attention: "@ + attention_text(texts(attention@))
            + "; evidence: "@ + decimal_text(evidence as nat) + "."@,
        StatusLookup::Unknown => "JMCP status rejected: unknown work order id."@,
        StatusLookup::Unavailable => "JMCP status unavailable: state could not be read."@,
    }
}

/// The answer to `/status` for what the state holds.
pub fn status_reply(lookup: &StatusLookup) -> (text: String)
    ensures
        text@ == status_reply_spec(*lookup),
{
    match lookup {
        StatusLookup::Found { id, status, attention, evidence } => {
            let id_text = uuid_to_text(*id);
            let mut text = concat("JMCP work order ", id_text.as_str());
            text.append(": ");
            text.append(status.as_str());
            text.append("; attention: ");
            if attention.len() == 0 {
                text.append("none");
            } else {
                let joined = join(attention.as_slice(), ", ");
                text.append(joined.as_str());
            }
            text.append("; evidence: ");
            let n = decimal(*evidence as u64);
            text.append(n.as_str());
            text.append(".");
            text
        },
        StatusLookup::Unknown => "JMCP status rejected: unknown work order id.".to_owned(),
        StatusLookup::Unavailable => "JMCP status unavailable: state could not be read.".to_owned(),
    }
}

/// The answer to `/status` with an id that is no UUID.
pub const INVALID_STATUS_ID_TEXT: &'static str = "JMCP status rejected: invalid work order id.";

/// How deciding by token went.
#[derive(Clone, Debug, PartialEq, Eq)]
pub enum DecisionOutcome {
    /// Decided: the recorded decision, if the approval holds one, and the
    /// work order.
    Decided { recorded: Option<ApprovalDecision>, work_order_id: u128 },
    UnknownToken,
    Expired,
    AlreadyUsed,
    WrongApprover,
    Unavailable,
}

/// The answer to `/approve` or `/deny`: a decision the approval does not
/// record is reported as the one asked for.
pub open spec fn decision_reply_spec(outcome: DecisionOutcome, asked: ApprovalDecision) -> Seq<char> {
    match outcome {
        DecisionOutcome::Decided { recorded, work_order_id } => "JMCP approval "@ + decision_text(
            match recorded {
                Some(d) => d,
                None => asked,
            },
        ) + " for work order "@ + uuid_text(work_order_id) + "."@,
        DecisionOutcome::UnknownToken => "JMCP approval rejected: unknown token."@,
        DecisionOutcome::Expired => "JMCP approval rejected: expired token."@,
        DecisionOutcome::AlreadyUsed => "JMCP approval rejected: token already used."@,
        DecisionOutcome::WrongApprover => "JMCP approval rejected: wrong Telegram approver."@,
        DecisionOutcome::Unavailable => "JMCP approval unavailable: state could not be updated."@,
    }
}

/// The answer to `/approve` or `/deny` for how the decision went.
pub fn decision_reply(outcome: &DecisionOutcome, asked: ApprovalDecision) -> (text: String)
    ensures
        text@ == decision_reply_spec(*outcome, asked),
{
    match outcome {
        DecisionOutcome::Decided { recorded, work_order_id } => {
            let d = match recorded {
                Some(d) => *d,
                None => asked,
            };
            let mut text = concat("JMCP approval ", decision_name(d));
            text.append(" for work order ");
            let id = uuid_to_text(*work_order_id);
            text.append(id.as_str());
            text.append(".");
            text
        },
        DecisionOutcome::UnknownToken => "JMCP approval rejected: unknown token.".to_owned(),
        DecisionOutcome::Expired => "JMCP approval rejected: expired token.".to_owned(),
        DecisionOutcome::AlreadyUsed => "JMCP approval rejected: token already used.".to_owned(),
        DecisionOutcome::WrongApprover => "JMCP approval rejected: wrong Telegram approver.".to_owned(),
        DecisionOutcome::Unavailable => "JMCP approval unavailable: state could not be updated.".to_owned(),
    }
}

/// A user name, or `(none)`.
pub fn username_or_none(username: Option<String>) -> (name: String)
    ensures
        name@ == match username {
            Some(u) => u@,
            None => "(none)"@,
        },
{
    match username {
        Some(u) => u,
        None => "(none)".to_owned(),
    }
}

/// The update offset to ask for after handling `update_id`.
pub fn next_offset(update_id: i64) -> (offset: i64)
    requires
        update_id < i64::MAX,
    ensures
        offset == update_id + 1,
{
    update_id + 1
}

/// The text an offset is stored as.
pub fn offset_record(offset: i64) -> (text: String)
    ensures
        text@ == signed_decimal_text(offset as int),
{
    signed_decimal(offset)
}

/// The HTTP status of a refused decision by token: unknown tokens are not
/// found, expired tokens and wrong approvers are forbidden, used tokens
/// conflict, and unreadable state is an internal error.
pub fn approval_error_status(outcome: &DecisionOutcome) -> (status: Option<u16>)
    ensures
        status == match *outcome {
            DecisionOutcome::Decided { .. } => None,
            DecisionOutcome::UnknownToken => Some(404u16),
            DecisionOutcome::Expired => Some(403u16),
            DecisionOutcome::WrongApprover => Some(403u16),
            DecisionOutcome::AlreadyUsed => Some(409u16),
            DecisionOutcome::Unavailable => Some(500u16),
        },
{
    match outcome {
        DecisionOutcome::Decided { .. } => None,
        DecisionOutcome::UnknownToken => Some(404),
        DecisionOutcome::Expired => Some(403),
        DecisionOutcome::WrongApprover => Some(403),
        DecisionOutcome::AlreadyUsed => Some(409),
        DecisionOutcome::Unavailable => Some(500),
    }
}

/// The approver a token decision is recorded for: the named one, or `local`.
pub fn approver_or_local(approver: Option<String>) -> (name: String)
    ensures
        name@ == match approver {
            Some(a) => a@,
            None => "local"@,
        },
{
    match approver {
        Some(a) => a,
        None => "local".to_owned(),
    }
}

/// The line `discover-ids` prints for a sender.
pub fn discover_candidate_line(user_id: i64, chat_id: i64, chat_type: &str, username: Option<String>, first_name: &str) -> (line: String)
    ensures
        line@ == "user_id="@ + signed_decimal_text(user_id as int) + " chat_id="@
            + signed_decimal_text(chat_id as int) + " chat_type="@ + chat_type@ + " username="@
            + (match username {
            Some(u) => u@,
            None => "(none)"@,
        }) + " first_name="@ + first_name@,
{
    let u = signed_decimal(user_id);
    let c = signed_decimal(chat_id);
    let mut line = concat("user_id=", u.as_str());
    line.append(" chat_id=");
    line.append(c.as_str());
    line.append(" chat_type=");
    line.append(chat_type);
    line.append(" username=");
    let name = username_or_none(username);
    line.append(name.as_str());
    line.append(" first_name=");
    line.append(first_name);
    line
}

/// What `discover-ids` prints when no update came in.
pub const NO_UPDATES_TEXT: &'static str =
    "No Telegram updates found. Send the bot a message, then rerun discover-ids.";

/// How long one long poll of the voice demo waits: the time left, between
/// one and twenty seconds.
pub fn listen_poll_seconds(remaining_secs: u64) -> (secs: u64)
    ensures
        secs == if remaining_secs < 1 {
            1
        } else if remaining_secs > 20 {
            20
        } else {
            remaining_secs
        },
{
    if remaining_secs < 1 {
        1
    } else if remaining_secs > 20 {
        20
    } else {
        remaining_secs
    }
}

/// How long the voice demo's next long poll waits, with `remaining_ms` left
/// before its deadline: `None` once the deadline is reached (the demo then
/// reports that no voice note came), else the whole seconds left, between one
/// and twenty.
pub fn listen_next_poll(remaining_ms: u64) -> (secs: Option<u64>)
    ensures
        secs == if remaining_ms == 0 {
            None::<u64>
        } else {
            let s = remaining_ms / 1000;
            Some(
                if s < 1 {
                    1u64
                } else if s > 20 {
                    20u64
                } else {
                    s
                },
            )
        },
{
    if remaining_ms == 0 {
        None
    } else {
        Some(listen_poll_seconds(remaining_ms / 1000))
    }
}

/// What the voice demo does with one update: the offset to ask for next, and
/// the chat to answer when the update carries a voice note (the demo handles
/// the first such update and stops listening).
pub fn listen_update(update_id: i64, chat_id: Option<i64>, has_voice: bool) -> (r: (i64, Option<i64>))
    requires
        update_id < i64::MAX,
    ensures
        r.0 == update_id + 1,
        r.1 == (match chat_id {
            Some(c) => if has_voice {
                Some(c)
            } else {
                None::<i64>
            },
            None => None::<i64>,
        }),
{
    let offset = next_offset(update_id);
    match chat_id {
        Some(c) => if has_voice {
            (offset, Some(c))
        } else {
            (offset, None)
        },
        None => (offset, None),
    }
}

/// The demo's text reply to a transcript.
pub fn heard_text(transcript: &str) -> (text: String)
    ensures
        text@ == "I heard: "@ + transcript@,
{
    concat("I heard: ", transcript)
}

/// What the demo speaks back for a transcript.
pub fn said_text(transcript: &str) -> (text: String)
    ensures
        text@ == "You said: "@ + transcript@,
{
    concat("You said: ", transcript)
}

/// The demo speaks back only when asked to and when something was heard.
pub fn should_speak(reply_voice: bool, transcript: &str) -> (speak: bool)
    ensures
        speak == (reply_voice && transcript@.len() > 0),
{
    reply_voice && transcript.unicode_len() > 0
}

/// The chats seen in a batch of updates, each update giving its message's
/// chat when it has a message.
pub fn discover_chat_ids(chats: &Vec<Option<i64>>) -> (ids: std::collections::BTreeSet<i64>)
    ensures
        forall|c: i64| #[trigger] ids@.contains(c) <==> exists|k: int|
            0 <= k < chats@.len() && chats@[k] == Some(c),
{
    let mut ids: std::collections::BTreeSet<i64> = std::collections::BTreeSet::new();
    let mut i: usize = 0;
    while i < chats.len()
        invariant
            i <= chats@.len(),
            forall|c: i64| #[trigger] ids@.contains(c) <==> exists|k: int|
                0 <= k < i && chats@[k] == Some(c),
        decreases chats@.len() - i,
    {
        match chats[i] {
            Some(c) => {
                ids.insert(c);
            },
            None => {},
        }
        assert forall|c: i64| #[trigger] ids@.contains(c) <==> exists|k: int|
            0 <= k < i + 1 && chats@[k] == Some(c) by {
            if chats@[i as int] == Some(c) {
                assert(0 <= i < i + 1 && chats@[i as int] == Some(c));
            }
        }
        i = i + 1;
    }
    ids
}

/// What the bot does with a message.
#[derive(Clone, Debug, PartialEq, Eq)]
pub enum TelegramAction {
    /// Nothing: no sender, no text, or no command.
    Nothing,
    /// Answer with this text.
    Reply(String),
    /// Submit a work order and answer with its approval prompt.
    Submit { subject: String, kind: String, payload: String },
    /// Answer with the status of this work order.
    Status(u128),
    /// Decide by this token and answer with the outcome.
    Decide { token: String, decision: ApprovalDecision },
}

/// What the bot does with a message from an allowed sender (or not), given
/// its text.
pub open spec fn telegram_action_holds(has_sender: bool, allowed: bool, text: Option<Seq<char>>, action: TelegramAction) -> bool {
    if !has_sender {
        action == TelegramAction::Nothing
    } else if !allowed {
        action matches TelegramAction::Reply(r) && r@ == NOT_ALLOWED_TEXT@
    } else {
        match text {
            None => action == TelegramAction::Nothing,
            Some(t) => match telegram_command_spec(t) {
                CommandView::Help => action matches TelegramAction::Reply(r) && r@ == HELP_TEXT@,
                CommandView::Submit(subject, kind, payload) => action matches TelegramAction::Submit {
                    subject: s,
                    kind: k,
                    payload: p,
                } && s@ == subject && k@ == kind && p@ == payload,
                CommandView::SubmitUsage => action matches TelegramAction::Reply(r) && r@
                    == "JMCP submit rejected; check subject, kind, and payload."@,
                CommandView::Status(rest) => match uuid_parsed(trim_text(rest)) {
                    Some(id) => action == TelegramAction::Status(id),
                    None => action matches TelegramAction::Reply(r) && r@
                        == INVALID_STATUS_ID_TEXT@,
                },
                CommandView::Approve(token) => action matches TelegramAction::Decide {
                    token: tk,
                    decision: d,
                } && tk@ == trim_text(token) && d == ApprovalDecision::Approved,
                CommandView::Deny(token) => action matches TelegramAction::Decide {
                    token: tk,
                    decision: d,
                } && tk@ == trim_text(token) && d == ApprovalDecision::Rejected,
                CommandView::Ignored => action == TelegramAction::Nothing,
            },
        }
    }
}

/// The text of an optional string slice.
pub open spec fn opt_msg(o: Option<&str>) -> Option<Seq<char>> {
    match o {
        Some(s) => Some(s@),
        None => None,
    }
}

/// Decides what the bot does with a message.
pub fn telegram_action(has_sender: bool, allowed: bool, text: Option<&str>) -> (action: TelegramAction)
    ensures
        telegram_action_holds(has_sender, allowed, opt_msg(text), action),
{
    if !has_sender {
        return TelegramAction::Nothing;
    }
    if !allowed {
        return TelegramAction::Reply(NOT_ALLOWED_TEXT.to_owned());
    }
    let t = match text {
        Some(t) => t,
        None => {
            return TelegramAction::Nothing;
        },
    };
    match parse_telegram_command(t) {
        TelegramCommand::Help => TelegramAction::Reply(HELP_TEXT.to_owned()),
        TelegramCommand::Submit { subject, kind, payload } => TelegramAction::Submit {
            subject,
            kind,
            payload,
        },
        TelegramCommand::SubmitUsage => TelegramAction::Reply(submit_rejection_text(false).to_owned()),
        TelegramCommand::Status(rest) => {
            let id_text = trim(rest.as_str());
            match parse_uuid(id_text.as_str()) {
                Some(id) => TelegramAction::Status(id),
                None => TelegramAction::Reply(INVALID_STATUS_ID_TEXT.to_owned()),
            }
        },
        TelegramCommand::Approve(token) => TelegramAction::Decide {
            token: trim(token.as_str()),
            decision: ApprovalDecision::Approved,
        },
        TelegramCommand::Deny(token) => TelegramAction::Decide {
            token: trim(token.as_str()),
            decision: ApprovalDecision::Rejected,
        },
        TelegramCommand::Ignored => TelegramAction::Nothing,
    }
}

} // verus!
