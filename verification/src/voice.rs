//! Voice approvals: the pending challenge of each approver, and what a
//! transcribed voice note leads to.

use vstd::prelude::*;

use std::collections::HashMap;

use crate::clock::{uuid_text, uuid_to_text, Timestamp};
use crate::telegram::ApprovalDecision;
use crate::text::{concat, trim, trim_text};

verus! {

/// A challenge an approver answers: the work order, the approver, the
/// plaintext token and when the challenge expires. The token lives only in
/// memory.
#[derive(Clone, Debug, PartialEq, Eq)]
pub struct VoiceChallenge {
    pub work_order_id: u128,
    pub approver_user_id: i64,
    pub token: String,
    pub expires_at: Timestamp,
}

/// The latest pending challenge of each approver, by Telegram user id.
#[derive(Debug)]
pub struct VoiceChallengeBook {
    inner: HashMap<i64, VoiceChallenge>,
}

impl View for VoiceChallengeBook {
    type V = Map<i64, VoiceChallenge>;

    closed spec fn view(&self) -> Map<i64, VoiceChallenge> {
        self.inner@
    }
}

impl VoiceChallengeBook {
    /// An empty book.
    pub fn new() -> (book: VoiceChallengeBook)
        ensures
            book@ == Map::<i64, VoiceChallenge>::empty(),
    {
        VoiceChallengeBook { inner: HashMap::new() }
    }

    /// Remembers a challenge for its approver, replacing an earlier one.
    pub fn remember(&mut self, challenge: VoiceChallenge)
        ensures
            final(self)@ == old(self)@.insert(challenge.approver_user_id, challenge),
    {
        let user = challenge.approver_user_id;
        self.inner.insert(user, challenge);
    }

    /// The pending challenge of `user_id`, if any.
    pub fn pending_for(&self, user_id: i64) -> (c: Option<&VoiceChallenge>)
        ensures
            match c {
                Some(c) => self@.contains_key(user_id) && *c == self@[user_id],
                None => !self@.contains_key(user_id),
            },
    {
        self.inner.get(&user_id)
    }

    /// Drops the challenge of `user_id`, once its decision has landed.
    pub fn forget(&mut self, user_id: i64)
        ensures
            final(self)@ == old(self)@.remove(user_id),
    {
        self.inner.remove(&user_id);
    }
}

/// Why a spoken reply does not decide the challenge.
#[derive(Clone, Debug, PartialEq, Eq)]
pub enum VoiceReplyError {
    LowConfidence,
    ConfirmationRequired,
    UnknownDecision,
    WrongUser,
    Expired,
    /// Any other refusal, by its text.
    Other(String),
}

/// What the bot says for a refused spoken reply.
pub open spec fn explain_spec(err: VoiceReplyError) -> Seq<char> {
    match err {
        VoiceReplyError::LowConfidence => "I am not confident I heard that correctly. Please say it again."@,
        VoiceReplyError::ConfirmationRequired => "That is a high-risk action, so please repeat your decision and speak the confirmation token."@,
        VoiceReplyError::UnknownDecision => "Please say approve or reject to decide."@,
        VoiceReplyError::WrongUser => "You are not the approver for the pending request."@,
        VoiceReplyError::Expired => "That approval request has expired."@,
        VoiceReplyError::Other(t) => "I could not process that: "@ + t@ + "."@,
    }
}

/// What the bot says for a refused spoken reply.
pub fn explain(err: &VoiceReplyError) -> (text: String)
    ensures
        text@ == explain_spec(*err),
{
    match err {
        VoiceReplyError::LowConfidence => "I am not confident I heard that correctly. Please say it again.".to_owned(),
        VoiceReplyError::ConfirmationRequired => "That is a high-risk action, so please repeat your decision and speak the confirmation token.".to_owned(),
        VoiceReplyError::UnknownDecision => "Please say approve or reject to decide.".to_owned(),
        VoiceReplyError::WrongUser => "You are not the approver for the pending request.".to_owned(),
        VoiceReplyError::Expired => "That approval request has expired.".to_owned(),
        VoiceReplyError::Other(t) => {
            let mut m = concat("I could not process that: ", t.as_str());
            m.append(".");
            m
        },
    }
}

/// A decision to apply: the challenge's token, the decision, the work order.
#[derive(Clone, Debug, PartialEq, Eq)]
pub struct VoiceApply {
    pub token: String,
    pub decision: ApprovalDecision,
    pub work_order_id: u128,
}

/// What a voice note leads to: a decision to apply, if any, and the reply.
#[derive(Clone, Debug, PartialEq, Eq)]
pub struct VoicePlan {
    pub apply: Option<VoiceApply>,
    pub reply: String,
}

/// `I heard: "{heard}". `
pub open spec fn heard_prefix(heard: Seq<char>) -> Seq<char> {
    "I heard: \""@ + heard + "\". "@
}

/// The reply verb of a decision.
pub open spec fn verb_text(d: ApprovalDecision) -> Seq<char> {
    match d {
        ApprovalDecision::Approved => "Approving"@,
        ApprovalDecision::Rejected => "Rejecting"@,
    }
}

/// What a voice note from `user_id` leads to. `verdict` is how the spoken
/// reply was judged against the user's pending challenge; it only counts when
/// there is one.
pub open spec fn voice_plan_holds(
    book: Map<i64, VoiceChallenge>,
    user_id: i64,
    transcript: Seq<char>,
    verdict: Result<ApprovalDecision, VoiceReplyError>,
    plan: VoicePlan,
) -> bool {
    let heard = trim_text(transcript);
    if !book.contains_key(user_id) {
        &&& plan.apply is None
        &&& plan.reply@ == heard_prefix(heard) + "There is no pending approval for you right now."@
    } else {
        let c = book[user_id];
        match verdict {
            Ok(d) => {
                &&& plan.apply matches Some(a) && a.token@ == c.token@ && a.decision == d
                    && a.work_order_id == c.work_order_id
                &&& plan.reply@ == heard_prefix(heard) + verb_text(d) + " work order "@ + uuid_text(
                    c.work_order_id,
                ) + "."@
            },
            Err(e) => {
                &&& plan.apply is None
                &&& plan.reply@ == heard_prefix(heard) + explain_spec(e)
            },
        }
    }
}

/// Decides what a transcribed voice note leads to.
pub fn evaluate_voice_approval(
    book: &VoiceChallengeBook,
    user_id: i64,
    transcript: &str,
    verdict: Result<ApprovalDecision, VoiceReplyError>,
) -> (plan: VoicePlan)
    ensures
        voice_plan_holds(book@, user_id, transcript@, verdict, plan),
{
    let heard = trim(transcript);
    let mut reply = concat("I heard: \"", heard.as_str());
    reply.append("\". ");
    match book.pending_for(user_id) {
        None => {
            reply.append("There is no pending approval for you right now.");
            VoicePlan { apply: None, reply }
        },
        Some(challenge) => match verdict {
            Ok(d) => {
                let verb = match d {
                    ApprovalDecision::Approved => "Approving",
                    ApprovalDecision::Rejected => "Rejecting",
                };
                reply.append(verb);
                reply.append(" work order ");
                let id = uuid_to_text(challenge.work_order_id);
                reply.append(id.as_str());
                reply.append(".");
                VoicePlan {
                    apply: Some(
                        VoiceApply {
                            token: challenge.token.clone(),
                            decision: d,
                            work_order_id: challenge.work_order_id,
                        },
                    ),
                    reply,
                }
            },
            Err(e) => {
                let why = explain(&e);
                reply.append(why.as_str());
                VoicePlan { apply: None, reply }
            },
        },
    }
}

/// Follows a voice note through once its plan is made. A plan that applies a
/// decision is decided once (by the caller, whose answer is `outcome`), and
/// the approver's pending challenge is then forgotten; the reply carries the
/// outcome and the decision is logged by its label. A plan that applies
/// nothing leaves the book as it was and is answered with its own reply.
pub fn follow_through(book: &mut VoiceChallengeBook, user_id: i64, plan: &VoicePlan, outcome: &str) -> (r: (String, &'static str))
    ensures
        match plan.apply {
            Some(a) => {
                &&& final(book)@ == old(book)@.remove(user_id)
                &&& r.0@ == plan.reply@ + " "@ + outcome@
                &&& r.1@ == (match a.decision {
                    ApprovalDecision::Approved => "approved"@,
                    ApprovalDecision::Rejected => "rejected"@,
                })
            },
            None => {
                &&& final(book)@ == old(book)@
                &&& r.0@ == plan.reply@
                &&& r.1@ == "none"@
            },
        },
{
    match &plan.apply {
        Some(a) => {
            book.forget(user_id);
            let reply = voice_reply_with_outcome(plan.reply.as_str(), Some(outcome));
            (reply, decision_label(Some(a.decision)))
        },
        None => (voice_reply_with_outcome(plan.reply.as_str(), None), decision_label(None)),
    }
}

/// The answer when the voice note could not be downloaded.
pub const VOICE_DOWNLOAD_FAILED_TEXT: &'static str = "I could not download your voice note.";

/// The answer when transcription is unavailable.
pub const VOICE_ASR_FAILED_TEXT: &'static str =
    "Voice transcription is unavailable right now. Please type /approve or /deny.";

/// The final reply to a voice note: the plan's reply, then the outcome of
/// applying its decision when there was one.
pub fn voice_reply_with_outcome(reply: &str, outcome: Option<&str>) -> (text: String)
    ensures
        text@ == match outcome {
            Some(o) => reply@ + " "@ + o@,
            None => reply@,
        },
{
    match outcome {
        Some(o) => {
            let mut t = concat(reply, " ");
            t.append(o);
            t
        },
        None => reply.to_owned(),
    }
}

/// The label a handled voice note is logged with.
pub fn decision_label(decision: Option<ApprovalDecision>) -> (label: &'static str)
    ensures
        label@ == match decision {
            Some(ApprovalDecision::Approved) => "approved"@,
            Some(ApprovalDecision::Rejected) => "rejected"@,
            None => "none"@,
        },
{
    match decision {
        Some(ApprovalDecision::Approved) => "approved",
        Some(ApprovalDecision::Rejected) => "rejected",
        None => "none",
    }
}

/// A remembered challenge is its approver's pending one until it is
/// forgotten, and a forgotten approver has none.
pub proof fn law_remembered_challenge_is_pending(book: Map<i64, VoiceChallenge>, c: VoiceChallenge, other: i64)
    ensures
        book.insert(c.approver_user_id, c).contains_key(c.approver_user_id),
        book.insert(c.approver_user_id, c)[c.approver_user_id] == c,
        !book.insert(c.approver_user_id, c).remove(c.approver_user_id).contains_key(c.approver_user_id),
        other != c.approver_user_id ==> book.insert(c.approver_user_id, c).remove(other).contains_key(
            c.approver_user_id,
        ),
{
}

/// A voice note from someone with no pending challenge never decides
/// anything, whatever was said.
pub proof fn law_no_pending_challenge_no_decision(
    book: Map<i64, VoiceChallenge>,
    user_id: i64,
    transcript: Seq<char>,
    verdict: Result<ApprovalDecision, VoiceReplyError>,
    plan: VoicePlan,
)
    requires
        !book.contains_key(user_id),
        voice_plan_holds(book, user_id, transcript, verdict, plan),
    ensures
        plan.apply is None,
{
}

/// A decision is only ever applied with the pending challenge's own token
/// and work order.
pub proof fn law_applied_decision_uses_pending_token(
    book: Map<i64, VoiceChallenge>,
    user_id: i64,
    transcript: Seq<char>,
    verdict: Result<ApprovalDecision, VoiceReplyError>,
    plan: VoicePlan,
)
    requires
        voice_plan_holds(book, user_id, transcript, verdict, plan),
        plan.apply is Some,
    ensures
        book.contains_key(user_id),
        plan.apply.unwrap().token@ == book[user_id].token@,
        plan.apply.unwrap().work_order_id == book[user_id].work_order_id,
        verdict == Ok::<ApprovalDecision, VoiceReplyError>(plan.apply.unwrap().decision),
{
}

} // verus!
