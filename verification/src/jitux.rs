//! The Mission Deck's ignition sequence: the frames a new JITUX session
//! replays, in order and numbered, from the queue-blocker projection.

use vstd::prelude::*;

use crate::clock::{u128_be_bytes, fresh_uuid, uuid_to_text};
use crate::crypto::hex_lower;
use crate::json::{json_get, json_get_str, lookup, Json};
use crate::text::{
    concat, contains, contains_text, decimal, decimal_text, str_eq, texts, to_lowercase,
    unicode_lowercase,
};

verus! {

/// A pane of the projection, as the ignition sequence reads it: its id and
/// title, how many evidence references it has, and how many actions are
/// prepared for it.
#[derive(Clone, Debug, PartialEq, Eq)]
pub struct IgnitionPane {
    pub id: String,
    pub title: String,
    pub evidence_count: usize,
    pub action_count: usize,
}

/// Why a pane ranks where it does: the pane and the explanation (the
/// numeric factors stay with the caller).
#[derive(Clone, Debug, PartialEq, Eq)]
pub struct RankReason {
    pub pane_id: String,
    pub explanation: String,
}

/// What a frame does. Panes are given by their position in the projection,
/// actions by their position among the pane's prepared actions, and rank
/// reasons by their position in the projection's list.
#[derive(Clone, Debug, PartialEq, Eq)]
pub enum FrameKind {
    DeckPatch { title: String },
    CardGhost { pane: usize },
    PanePrepare { pane: usize, reason: String },
    DeckRankChanged { ordered_pane_ids: Vec<String> },
    FocusChange { pane: usize, reason: Option<usize> },
    EvidenceAttach { pane: usize },
    ActionReady { pane: usize, action: usize },
    CardHydrated { pane: usize },
    SessionDone,
}

/// The plain-value form of a frame kind.
pub enum FrameKindView {
    DeckPatch(Seq<char>),
    CardGhost(int),
    PanePrepare(int, Seq<char>),
    DeckRankChanged(Seq<Seq<char>>),
    FocusChange(int, Option<int>),
    EvidenceAttach(int),
    ActionReady(int, int),
    CardHydrated(int),
    SessionDone,
}

impl View for FrameKind {
    type V = FrameKindView;

    open spec fn view(&self) -> FrameKindView {
        match self {
            FrameKind::DeckPatch { title } => FrameKindView::DeckPatch(title@),
            FrameKind::CardGhost { pane } => FrameKindView::CardGhost(*pane as int),
            FrameKind::PanePrepare { pane, reason } => FrameKindView::PanePrepare(
                *pane as int,
                reason@,
            ),
            FrameKind::DeckRankChanged { ordered_pane_ids } => FrameKindView::DeckRankChanged(
                texts(ordered_pane_ids@),
            ),
            FrameKind::FocusChange { pane, reason } => FrameKindView::FocusChange(
                *pane as int,
                match reason {
                    Some(r) => Some(*r as int),
                    None => None,
                },
            ),
            FrameKind::EvidenceAttach { pane } => FrameKindView::EvidenceAttach(*pane as int),
            FrameKind::ActionReady { pane, action } => FrameKindView::ActionReady(
                *pane as int,
                *action as int,
            ),
            FrameKind::CardHydrated { pane } => FrameKindView::CardHydrated(*pane as int),
            FrameKind::SessionDone => FrameKindView::SessionDone,
        }
    }
}

/// A frame of the sequence: its number, its id and what it does.
#[derive(Clone, Debug, PartialEq, Eq)]
pub struct FramePlan {
    pub seq: u64,
    pub frame_id: String,
    pub session_id: String,
    pub kind: FrameKind,
}

/// `frame_` and the number, zero-padded to four digits.
pub open spec fn frame_id_text(n: nat) -> Seq<char> {
    let d = decimal_text(n);
    "frame_"@ + Seq::new(if d.len() < 4 { (4 - d.len()) as nat } else { 0 }, |i: int| '0') + d
}

/// The id of frame `n`.
pub fn frame_id(n: u64) -> (id: String)
    ensures
        id@ == frame_id_text(n as nat),
{
    let d = decimal(n);
    let len = d.unicode_len();
    let mut id = "frame_".to_owned();
    let pad: usize = if len < 4 { 4 - len } else { 0 };
    let ghost zeros = Seq::new(pad as nat, |i: int| '0');
    let mut i: usize = 0;
    while i < pad
        invariant
            i <= pad,
            zeros == Seq::new(pad as nat, |i: int| '0'),
            id@ == "frame_"@ + zeros.take(i as int),
        decreases pad - i,
    {
        crate::text::push_char(&mut id, '0');
        assert(zeros.take(i + 1) =~= zeros.take(i as int).push('0'));
        i = i + 1;
    }
    assert(zeros.take(i as int) =~= zeros);
    id.append(d.as_str());
    id
}

/// The deck's title: scanning queue blockers when the prompt mentions the
/// queue, else preparing the deck.
pub open spec fn session_title_spec(prompt: Option<Seq<char>>) -> Seq<char> {
    match prompt {
        Some(p) => if contains_text(unicode_lowercase(p), "queue"@) {
            "Scanning queue blockers"@
        } else {
            "Preparing Mission Deck"@
        },
        None => "Preparing Mission Deck"@,
    }
}

/// The text of an optional string slice.
pub open spec fn opt_text_ref(o: Option<&str>) -> Option<Seq<char>> {
    match o {
        Some(s) => Some(s@),
        None => None,
    }
}

/// The deck's title for a session prompt.
pub fn session_title(prompt: Option<&str>) -> (title: &'static str)
    ensures
        title@ == session_title_spec(opt_text_ref(prompt)),
{
    match prompt {
        Some(p) => {
            let lower = to_lowercase(p);
            if contains(lower.as_str(), "queue") {
                "Scanning queue blockers"
            } else {
                "Preparing Mission Deck"
            }
        },
        None => "Preparing Mission Deck",
    }
}

/// The position of the first rank reason for a pane at or after `i`.
pub open spec fn first_reason_for(reasons: Seq<RankReason>, pane_id: Seq<char>, i: nat) -> Option<int>
    decreases reasons.len() - i,
{
    if i >= reasons.len() {
        None
    } else if reasons[i as int].pane_id@ == pane_id {
        Some(i as int)
    } else {
        first_reason_for(reasons, pane_id, i + 1)
    }
}

/// The position of the first rank reason for a pane.
pub fn reason_for(reasons: &Vec<RankReason>, pane_id: &str) -> (r: Option<usize>)
    ensures
        match r {
            Some(k) => first_reason_for(reasons@, pane_id@, 0) == Some(k as int) && k
                < reasons@.len(),
            None => first_reason_for(reasons@, pane_id@, 0) is None,
        },
{
    let mut i: usize = 0;
    while i < reasons.len()
        invariant
            i <= reasons@.len(),
            first_reason_for(reasons@, pane_id@, 0) == first_reason_for(reasons@, pane_id@, i as nat),
        decreases reasons@.len() - i,
    {
        if str_eq(reasons[i].pane_id.as_str(), pane_id) {
            return Some(i);
        }
        i = i + 1;
    }
    None
}

/// Why a pane is being warmed: its rank explanation when it has one, else
/// its title; `source` defaults to `local`.
pub open spec fn prepare_reason_spec(source: Option<Seq<char>>, pane: IgnitionPane, reasons: Seq<RankReason>) -> Seq<char> {
    let s = match source {
        Some(s) => s,
        None => "local"@,
    };
    match first_reason_for(reasons, pane.id@, 0) {
        Some(k) => reasons[k].explanation@ + " Warmed for "@ + s + " Mission Deck session."@,
        None => pane.title@ + " warmed for "@ + s + " Mission Deck session."@,
    }
}

/// Why a pane is being warmed.
pub fn prepare_reason(source: Option<&str>, pane: &IgnitionPane, reasons: &Vec<RankReason>) -> (r: String)
    ensures
        r@ == prepare_reason_spec(opt_text_ref(source), *pane, reasons@),
{
    let s = match source {
        Some(s) => s,
        None => "local",
    };
    match reason_for(reasons, pane.id.as_str()) {
        Some(k) => {
            let mut r = concat(reasons[k].explanation.as_str(), " Warmed for ");
            r.append(s);
            r.append(" Mission Deck session.");
            r
        },
        None => {
            let mut r = concat(pane.title.as_str(), " warmed for ");
            r.append(s);
            r.append(" Mission Deck session.");
            r
        },
    }
}

/// The frames that open a pane: a ghost card for the first, a prepare frame
/// for each other.
pub open spec fn opening_frames(panes: Seq<IgnitionPane>, reasons: Seq<RankReason>, source: Option<Seq<char>>) -> Seq<FrameKindView> {
    Seq::new(
        panes.len(),
        |i: int|
            if i == 0 {
                FrameKindView::CardGhost(0)
            } else {
                FrameKindView::PanePrepare(i, prepare_reason_spec(source, panes[i], reasons))
            },
    )
}

/// The frames that fill pane `i`: its evidence when it has any, each
/// prepared action, and the hydrated card.
pub open spec fn filling_frames(i: int, pane: IgnitionPane) -> Seq<FrameKindView> {
    (if pane.evidence_count > 0 {
        seq![FrameKindView::EvidenceAttach(i)]
    } else {
        seq![]
    }) + Seq::new(pane.action_count as nat, |a: int| FrameKindView::ActionReady(i, a)) + seq![
        FrameKindView::CardHydrated(i),
    ]
}

/// The filling frames of the first `k` panes, in order.
pub open spec fn filling_prefix(panes: Seq<IgnitionPane>, k: int) -> Seq<FrameKindView>
    decreases k,
{
    if k <= 0 {
        seq![]
    } else {
        filling_prefix(panes, k - 1) + filling_frames(k - 1, panes[k - 1])
    }
}

/// The whole ignition sequence, frame by frame.
pub open spec fn ignition_kinds(
    prompt: Option<Seq<char>>,
    source: Option<Seq<char>>,
    panes: Seq<IgnitionPane>,
    reasons: Seq<RankReason>,
) -> Seq<FrameKindView> {
    seq![FrameKindView::DeckPatch(session_title_spec(prompt))] + opening_frames(
        panes,
        reasons,
        source,
    ) + seq![FrameKindView::DeckRankChanged(pane_ids_spec(panes))] + (if panes.len() > 0 {
        seq![FrameKindView::FocusChange(0, first_reason_for(reasons, panes[0].id@, 0))]
    } else {
        seq![]
    }) + filling_prefix(panes, panes.len() as int) + seq![FrameKindView::SessionDone]
}

/// The kinds of a list of frames.
pub open spec fn frame_kinds(frames: Seq<FramePlan>) -> Seq<FrameKindView> {
    frames.map_values(|f: FramePlan| f.kind@)
}

/// Frames numbered from 1, each with the id of its number.
pub open spec fn numbered(frames: Seq<FramePlan>, session_id: Seq<char>) -> bool {
    forall|i: int|
        0 <= i < frames.len() ==> (#[trigger] frames[i]).seq == i + 1 && frames[i].frame_id@
            == frame_id_text((i + 1) as nat) && frames[i].session_id@ == session_id
}

/// The ids of the panes, in order.
pub open spec fn pane_ids_spec(panes: Seq<IgnitionPane>) -> Seq<Seq<char>> {
    panes.map_values(|p: IgnitionPane| p.id@)
}

fn pane_id_list(panes: &Vec<IgnitionPane>) -> (ids: Vec<String>)
    ensures
        texts(ids@) == pane_ids_spec(panes@),
{
    let mut ids: Vec<String> = Vec::new();
    let mut i: usize = 0;
    while i < panes.len()
        invariant
            i <= panes@.len(),
            texts(ids@) == pane_ids_spec(panes@.take(i as int)),
        decreases panes@.len() - i,
    {
        let ghost before = ids@;
        let id = panes[i].id.clone();
        ids.push(id);
        assert(texts(ids@) =~= texts(before).push(panes@[i as int].id@));
        assert(pane_ids_spec(panes@.take(i + 1)) =~= pane_ids_spec(panes@.take(i as int)).push(
            panes@[i as int].id@,
        ));
        i = i + 1;
    }
    assert(panes@.take(i as int) =~= panes@);
    ids
}

fn push_frame(frames: &mut Vec<FramePlan>, session_id: &str, kind: FrameKind)
    requires
        old(frames)@.len() < usize::MAX,
        numbered(old(frames)@, session_id@),
    ensures
        numbered(final(frames)@, session_id@),
        final(frames)@.len() == old(frames)@.len() + 1,
        frame_kinds(final(frames)@) == frame_kinds(old(frames)@).push(kind@),
{
    let n = frames.len() as u64 + 1;
    let ghost before = frames@;
    let f = FramePlan { seq: n, frame_id: frame_id(n), session_id: session_id.to_owned(), kind };
    frames.push(f);
    assert(frame_kinds(frames@) =~= frame_kinds(before).push(f.kind@));
    assert forall|i: int| 0 <= i < frames@.len() implies (#[trigger] frames@[i]).seq == i + 1
        && frames@[i].frame_id@ == frame_id_text((i + 1) as nat) && frames@[i].session_id@
        == session_id@ by {
        if i < before.len() {
            assert(frames@[i] == before[i]);
        }
    }
}

proof fn lemma_filling_prefix_len(panes: Seq<IgnitionPane>, k: int)
    requires
        0 <= k <= panes.len(),
    ensures
        filling_prefix(panes, k).len() >= k,
    decreases k,
{
    if k > 0 {
        lemma_filling_prefix_len(panes, k - 1);
    }
}

/// The ignition frames of a new session: the deck patch, the opening of
/// each pane, the ranking, the focus on the first pane, the filling of each
/// pane, and the end of the sequence; numbered from 1.
pub fn ignition_frames(
    session_id: &str,
    prompt: Option<&str>,
    source: Option<&str>,
    panes: &Vec<IgnitionPane>,
    reasons: &Vec<RankReason>,
) -> (frames: Vec<FramePlan>)
    requires
        ignition_kinds(opt_text_ref(prompt), opt_text_ref(source), panes@, reasons@).len()
            < usize::MAX,
    ensures
        numbered(frames@, session_id@),
        frame_kinds(frames@) == ignition_kinds(
            opt_text_ref(prompt),
            opt_text_ref(source),
            panes@,
            reasons@,
        ),
{
    let ghost p = opt_text_ref(prompt);
    let ghost src = opt_text_ref(source);
    let ghost total = ignition_kinds(p, src, panes@, reasons@);
    let ghost focus: Seq<FrameKindView> = if panes@.len() > 0 {
        seq![FrameKindView::FocusChange(0, first_reason_for(reasons@, panes@[0].id@, 0))]
    } else {
        seq![]
    };
    let ghost head = seq![FrameKindView::DeckPatch(session_title_spec(p))];
    let ghost opening = opening_frames(panes@, reasons@, src);
    proof {
        lemma_filling_prefix_len(panes@, panes@.len() as int);
        assert(total == head + opening + seq![FrameKindView::DeckRankChanged(pane_ids_spec(panes@))] + focus
            + filling_prefix(panes@, panes@.len() as int) + seq![FrameKindView::SessionDone]);
    }
    let mut frames: Vec<FramePlan> = Vec::new();
    assert(frame_kinds(frames@) =~= Seq::<FrameKindView>::empty());
    let title = session_title(prompt);
    push_frame(&mut frames, session_id, FrameKind::DeckPatch { title: title.to_owned() });
    let mut i: usize = 0;
    while i < panes.len()
        invariant
            i <= panes@.len(),
            total == ignition_kinds(p, src, panes@, reasons@),
            total.len() < usize::MAX,
            opening == opening_frames(panes@, reasons@, src),
            p == opt_text_ref(prompt),
            src == opt_text_ref(source),
            total == head + opening + seq![FrameKindView::DeckRankChanged(pane_ids_spec(panes@))] + focus
                + filling_prefix(panes@, panes@.len() as int) + seq![FrameKindView::SessionDone],
            numbered(frames@, session_id@),
            opening.len() == panes@.len(),
            frames@.len() == i + 1,
            frame_kinds(frames@) == head + opening.take(i as int),
        decreases panes@.len() - i,
    {
        let kind = if i == 0 {
            FrameKind::CardGhost { pane: 0 }
        } else {
            FrameKind::PanePrepare { pane: i, reason: prepare_reason(source, &panes[i], reasons) }
        };
        assert(kind@ == opening[i as int]);
        assert(frames@.len() < total.len());
        push_frame(&mut frames, session_id, kind);
        assert(opening.take(i + 1) =~= opening.take(i as int).push(opening[i as int]));
        i = i + 1;
    }
    assert(opening.take(i as int) =~= opening);
    assert(total.len() == 3 + panes@.len() + focus.len() + filling_prefix(
        panes@,
        panes@.len() as int,
    ).len());
    let ordered_pane_ids = pane_id_list(panes);
    push_frame(&mut frames, session_id, FrameKind::DeckRankChanged { ordered_pane_ids });
    if panes.len() > 0 {
        let r = reason_for(reasons, panes[0].id.as_str());
        push_frame(&mut frames, session_id, FrameKind::FocusChange { pane: 0, reason: r });
    }
    assert(frame_kinds(frames@) =~= head + opening + seq![FrameKindView::DeckRankChanged(pane_ids_spec(panes@))] + focus);
    let ghost before_fill = head + opening + seq![FrameKindView::DeckRankChanged(pane_ids_spec(panes@))] + focus;
    let mut k: usize = 0;
    while k < panes.len()
        invariant
            k <= panes@.len(),
            total.len() < usize::MAX,
            total == before_fill + filling_prefix(panes@, panes@.len() as int) + seq![
                FrameKindView::SessionDone,
            ],
            numbered(frames@, session_id@),
            frame_kinds(frames@) == before_fill + filling_prefix(panes@, k as int),
        decreases panes@.len() - k,
    {
        let pane = &panes[k];
        let ghost start = frame_kinds(frames@);
        proof {
            lemma_filling_prefix_prefix(panes@, k + 1, panes@.len() as int);
            assert(start.len() + filling_frames(k as int, panes@[k as int]).len() <= total.len() - 1);
        }
        if pane.evidence_count > 0 {
            push_frame(&mut frames, session_id, FrameKind::EvidenceAttach { pane: k });
        }
        let ghost with_evidence = frame_kinds(frames@);
        let mut a: usize = 0;
        while a < pane.action_count
            invariant
                a <= pane.action_count,
                *pane == panes@[k as int],
                k < panes@.len(),
                total.len() < usize::MAX,
                start.len() + filling_frames(k as int, panes@[k as int]).len() <= total.len() - 1,
                with_evidence.len() == start.len() + (if pane.evidence_count > 0 { 1int } else { 0int }),
                filling_frames(k as int, panes@[k as int]).len() == (if pane.evidence_count > 0 {
                    1int
                } else {
                    0int
                }) + pane.action_count + 1,
                frames@.len() == with_evidence.len() + a,
                numbered(frames@, session_id@),
                frame_kinds(frames@) == with_evidence + Seq::new(
                    a as nat,
                    |x: int| FrameKindView::ActionReady(k as int, x),
                ),
            decreases pane.action_count - a,
        {
            push_frame(&mut frames, session_id, FrameKind::ActionReady { pane: k, action: a });
            assert(Seq::new((a + 1) as nat, |x: int| FrameKindView::ActionReady(k as int, x))
                =~= Seq::new(a as nat, |x: int| FrameKindView::ActionReady(k as int, x)).push(
                FrameKindView::ActionReady(k as int, a as int),
            ));
            a = a + 1;
        }
        push_frame(&mut frames, session_id, FrameKind::CardHydrated { pane: k });
        assert(frame_kinds(frames@) =~= start + filling_frames(k as int, panes@[k as int]));
        k = k + 1;
    }
    push_frame(&mut frames, session_id, FrameKind::SessionDone);
    frames
}

proof fn lemma_filling_prefix_prefix(panes: Seq<IgnitionPane>, j: int, k: int)
    requires
        0 <= j <= k <= panes.len(),
    ensures
        filling_prefix(panes, j).len() <= filling_prefix(panes, k).len(),
    decreases k - j,
{
    if j < k {
        lemma_filling_prefix_prefix(panes, j, k - 1);
    }
}

/// The answer to an action on a session's deck: a preview, never a commit.
pub fn action_preview(session_id: &str, action_id: &str) -> (preview: Json)
    ensures
        json_get_str(preview, "sessionId"@) == Some(session_id@),
        json_get_str(preview, "actionId"@) == Some(action_id@),
        json_get_str(preview, "mode"@) == Some("preview_only"@),
        json_get(preview, "committed"@) == Some(Json::Bool(false)),
        json_get_str(preview, "message"@) == Some(
            "JITUX actions are previews unless committed through JMCP authority routes."@,
        ),
{
    let mut entries: Vec<(String, Json)> = Vec::new();
    crate::json::set_member(&mut entries, "sessionId".to_owned(), Json::String(session_id.to_owned()));
    crate::json::set_member(&mut entries, "actionId".to_owned(), Json::String(action_id.to_owned()));
    crate::json::set_member(&mut entries, "mode".to_owned(), Json::String("preview_only".to_owned()));
    crate::json::set_member(&mut entries, "committed".to_owned(), Json::Bool(false));
    crate::json::set_member(
        &mut entries,
        "message".to_owned(),
        Json::String("JITUX actions are previews unless committed through JMCP authority routes.".to_owned()),
    );
    proof {
        reveal_strlit("sessionId");
        reveal_strlit("actionId");
        reveal_strlit("mode");
        reveal_strlit("committed");
        reveal_strlit("message");
        assert("sessionId"@.len() == 9 && "actionId"@.len() == 8 && "mode"@.len() == 4);
        assert("committed"@.len() == 9 && "message"@.len() == 7);
        assert("sessionId"@[0] != "committed"@[0]);
        assert("sessionId"@ != "actionId"@ && "sessionId"@ != "mode"@ && "sessionId"@
            != "committed"@ && "sessionId"@ != "message"@);
        assert("actionId"@ != "mode"@ && "actionId"@ != "committed"@ && "actionId"@
            != "message"@);
        assert("mode"@ != "committed"@ && "mode"@ != "message"@);
        assert("committed"@ != "message"@);
    }
    Json::Object(entries)
}

/// The stream and socket paths of a session.
pub fn session_paths(session_id: &str) -> (paths: (String, String))
    ensures
        paths.0@ == "/jitux/sessions/"@ + session_id@ + "/stream"@,
        paths.1@ == "/jitux/sessions/"@ + session_id@ + "/ws"@,
{
    let mut stream = concat("/jitux/sessions/", session_id);
    stream.append("/stream");
    let mut ws = concat("/jitux/sessions/", session_id);
    ws.append("/ws");
    (stream, ws)
}

/// At most this many sessions are kept.
pub const MAX_SESSIONS: usize = 64;

/// At most this many frames are kept per session.
pub const MAX_BACKLOG: usize = 64;

/// The id of a session made from a UUID: `jitux_` and the UUID's 32 hex
/// digits.
pub open spec fn session_id_spec(n: u128) -> Seq<char> {
    "jitux_"@ + hex_lower(u128_be_bytes(n))
}

/// The id of the session made from the UUID `n`.
pub fn session_id_text(n: u128) -> (id: String)
    ensures
        id@ == session_id_spec(n),
{
    let t = uuid_to_text(n);
    let ghost h = hex_lower(u128_be_bytes(n));
    proof {
        assert(h.len() == 32);
        assert(t@.len() == 36);
    }
    let mut id = concat("jitux_", t.as_str().substring_char(0, 8));
    id.append(t.as_str().substring_char(9, 13));
    id.append(t.as_str().substring_char(14, 18));
    id.append(t.as_str().substring_char(19, 23));
    id.append(t.as_str().substring_char(24, 36));
    proof {
        reveal_strlit("jitux_");
        assert(h =~= h.subrange(0, 8) + h.subrange(8, 12) + h.subrange(12, 16) + h.subrange(16, 20)
            + h.subrange(20, 32));
    }
    assert(id@ =~= session_id_spec(n));
    id
}

/// The sessions of a hub: each session's id and its frame backlog, oldest
/// first.
pub type SessionsView = Seq<(Seq<char>, Seq<FramePlan>)>;

/// A hub's sessions are at most [`MAX_SESSIONS`] and have distinct ids.
pub open spec fn hub_wf(s: SessionsView) -> bool {
    &&& s.len() <= MAX_SESSIONS
    &&& forall|i: int, j: int| 0 <= i < j < s.len() ==> (#[trigger] s[i]).0 != (#[trigger] s[j]).0
}

/// The hub holds a session with this id.
pub open spec fn has_session(s: SessionsView, id: Seq<char>) -> bool {
    exists|i: int| 0 <= i < s.len() && (#[trigger] s[i]).0 == id
}

/// Where the session with this id stands.
pub open spec fn session_index(s: SessionsView, id: Seq<char>) -> int {
    choose|i: int| 0 <= i < s.len() && (#[trigger] s[i]).0 == id
}

/// The backlog of the session with this id, if the hub holds one.
pub open spec fn session_of(s: SessionsView, id: Seq<char>) -> Option<Seq<FramePlan>> {
    if has_session(s, id) {
        Some(s[session_index(s, id)].1)
    } else {
        None
    }
}

/// Before a session is stored in a full hub, the oldest one is dropped.
pub open spec fn evict_oldest(s: SessionsView) -> SessionsView {
    if s.len() >= MAX_SESSIONS {
        s.drop_first()
    } else {
        s
    }
}

/// Stores a backlog under an id: in place of the session with that id, or
/// as the newest session.
pub open spec fn upsert_session(s: SessionsView, id: Seq<char>, frames: Seq<FramePlan>) -> SessionsView {
    if has_session(s, id) {
        s.update(session_index(s, id), (id, frames))
    } else {
        s.push((id, frames))
    }
}

/// The frames of a session's ignition sequence.
pub open spec fn ignition_backlog(
    frames: Seq<FramePlan>,
    session_id: Seq<char>,
    prompt: Option<Seq<char>>,
    source: Option<Seq<char>>,
    panes: Seq<IgnitionPane>,
    reasons: Seq<RankReason>,
) -> bool {
    numbered(frames, session_id) && frame_kinds(frames) == ignition_kinds(prompt, source, panes, reasons)
}

/// The hub `after` is `before` with a session stored under `id` whose
/// backlog is an ignition sequence for these inputs.
pub open spec fn session_stored(
    after: SessionsView,
    before: SessionsView,
    id: Seq<char>,
    prompt: Option<Seq<char>>,
    source: Option<Seq<char>>,
    panes: Seq<IgnitionPane>,
    reasons: Seq<RankReason>,
) -> bool {
    exists|frames: Seq<FramePlan>|
        ignition_backlog(frames, id, prompt, source, panes, reasons) && after == #[trigger] upsert_session(
            evict_oldest(before),
            id,
            frames,
        )
}

/// A new session: its id and where its frames are streamed.
#[derive(Clone, Debug, PartialEq, Eq)]
pub struct JituxSessionCreated {
    pub session_id: String,
    pub stream_url: String,
    pub ws_url: String,
}

/// The Mission Deck sessions and their frame backlogs.
pub struct JituxHub {
    sessions: Vec<(String, Vec<FramePlan>)>,
}

impl View for JituxHub {
    type V = SessionsView;

    closed spec fn view(&self) -> SessionsView {
        self.sessions@.map_values(|p: (String, Vec<FramePlan>)| (p.0@, p.1@))
    }
}

impl JituxHub {
    /// A hub without sessions.
    pub fn new() -> (hub: JituxHub)
        ensures
            hub@ == Seq::<(Seq<char>, Seq<FramePlan>)>::empty(),
            hub_wf(hub@),
    {
        let hub = JituxHub { sessions: Vec::new() };
        assert(hub@ =~= Seq::<(Seq<char>, Seq<FramePlan>)>::empty());
        hub
    }

    fn find(&self, id: &str) -> (r: Option<usize>)
        requires
            hub_wf(self@),
        ensures
            match r {
                Some(i) => has_session(self@, id@) && i as int == session_index(self@, id@) && i
                    < self@.len(),
                None => !has_session(self@, id@),
            },
    {
        let mut i: usize = 0;
        while i < self.sessions.len()
            invariant
                i <= self.sessions@.len(),
                hub_wf(self@),
                self@.len() == self.sessions@.len(),
                forall|k: int| 0 <= k < i ==> (#[trigger] self@[k]).0 != id@,
            decreases self.sessions@.len() - i,
        {
            assert(self@[i as int].0 == self.sessions@[i as int].0@);
            if str_eq(self.sessions[i].0.as_str(), id) {
                proof {
                    let s = self@;
                    assert(0 <= i < s.len() && s[i as int].0 == id@);
                    let j = session_index(s, id@);
                    assert(s[j].0 == id@);
                    if j != i as int {
                        if j < i as int {
                            assert(s[j].0 != s[i as int].0);
                        } else {
                            assert(s[i as int].0 != s[j].0);
                        }
                    }
                }
                return Some(i);
            }
            i = i + 1;
        }
        None
    }

    /// The frame backlog of a session, if the hub holds it.
    pub fn backlog(&self, session_id: &str) -> (frames: Option<&Vec<FramePlan>>)
        requires
            hub_wf(self@),
        ensures
            match frames {
                Some(f) => session_of(self@, session_id@) == Some(f@),
                None => session_of(self@, session_id@) is None,
            },
    {
        match self.find(session_id) {
            Some(i) => {
                assert(self@[i as int].1 == self.sessions@[i as int].1@);
                Some(&self.sessions[i].1)
            },
            None => None,
        }
    }

    /// The preview of an action on a session's deck; `None` for a session the
    /// hub does not hold.
    pub fn action_preview(&self, session_id: &str, action_id: &str) -> (preview: Option<Json>)
        requires
            hub_wf(self@),
        ensures
            preview is Some == has_session(self@, session_id@),
            preview matches Some(p) ==> {
                &&& json_get_str(p, "sessionId"@) == Some(session_id@)
                &&& json_get_str(p, "actionId"@) == Some(action_id@)
                &&& json_get_str(p, "mode"@) == Some("preview_only"@)
                &&& json_get(p, "committed"@) == Some(Json::Bool(false))
            },
    {
        match self.find(session_id) {
            Some(_) => Some(action_preview(session_id, action_id)),
            None => None,
        }
    }

    /// Opens a session: a fresh id, its ignition frames as the backlog, and
    /// the oldest session dropped first when the hub is full.
    pub fn create_session(
        &mut self,
        prompt: Option<&str>,
        source: Option<&str>,
        panes: &Vec<IgnitionPane>,
        reasons: &Vec<RankReason>,
    ) -> (created: JituxSessionCreated)
        requires
            hub_wf(old(self)@),
            ignition_kinds(opt_text_ref(prompt), opt_text_ref(source), panes@, reasons@).len()
                < usize::MAX,
        ensures
            hub_wf(final(self)@),
            exists|n: u128| created.session_id@ == #[trigger] session_id_spec(n),
            created.stream_url@ == "/jitux/sessions/"@ + created.session_id@ + "/stream"@,
            created.ws_url@ == "/jitux/sessions/"@ + created.session_id@ + "/ws"@,
            session_stored(
                final(self)@,
                old(self)@,
                created.session_id@,
                opt_text_ref(prompt),
                opt_text_ref(source),
                panes@,
                reasons@,
            ),
    {
        let n = fresh_uuid();
        let session_id = session_id_text(n);
        let frames = ignition_frames(session_id.as_str(), prompt, source, panes, reasons);
        let ghost f = frames@;
        let ghost before = self@;
        if self.sessions.len() >= MAX_SESSIONS {
            self.sessions.remove(0);
            assert(self@ =~= before.drop_first());
        }
        let ghost evicted = self@;
        assert(evicted == evict_oldest(before));
        assert(hub_wf(evicted)) by {
            if before.len() >= MAX_SESSIONS {
                assert forall|i: int, j: int| 0 <= i < j < evicted.len() implies (
                #[trigger] evicted[i]).0 != (#[trigger] evicted[j]).0 by {
                    assert(evicted[i] == before[i + 1] && evicted[j] == before[j + 1]);
                }
            }
        }
        let (stream_url, ws_url) = session_paths(session_id.as_str());
        let entry = (session_id.clone(), frames);
        match self.find(session_id.as_str()) {
            Some(i) => {
                self.sessions.set(i, entry);
                assert(self@ =~= evicted.update(i as int, (session_id@, f)));
                assert forall|a: int, b: int| 0 <= a < b < self@.len() implies (
                #[trigger] self@[a]).0 != (#[trigger] self@[b]).0 by {
                    if a != i as int && b != i as int {
                        assert(self@[a] == evicted[a] && self@[b] == evicted[b]);
                    } else if a == i as int {
                        assert(self@[b] == evicted[b]);
                        assert(evicted[a].0 == session_id@);
                    } else {
                        assert(self@[a] == evicted[a]);
                        assert(evicted[b].0 == session_id@);
                    }
                }
            },
            None => {
                self.sessions.push(entry);
                assert(self@ =~= evicted.push((session_id@, f)));
                assert forall|a: int, b: int| 0 <= a < b < self@.len() implies (
                #[trigger] self@[a]).0 != (#[trigger] self@[b]).0 by {
                    if b == evicted.len() {
                        assert(self@[a] == evicted[a]);
                        assert(!(0 <= a < evicted.len() && evicted[a].0 == session_id@));
                    } else {
                        assert(self@[a] == evicted[a] && self@[b] == evicted[b]);
                    }
                }
            },
        }
        assert(self@ == upsert_session(evict_oldest(old(self)@), session_id@, f));
        assert(ignition_backlog(f, session_id@, opt_text_ref(prompt), opt_text_ref(source), panes@, reasons@));
        assert(session_stored(
            self@,
            old(self)@,
            session_id@,
            opt_text_ref(prompt),
            opt_text_ref(source),
            panes@,
            reasons@,
        ));
        JituxSessionCreated { session_id, stream_url, ws_url }
    }
}

/// A session the hub has just stored is held with exactly the frames it
/// was stored with, and the hub stays well formed.
pub proof fn law_stored_session_is_held(s: SessionsView, id: Seq<char>, frames: Seq<FramePlan>)
    requires
        hub_wf(s),
    ensures
        hub_wf(upsert_session(evict_oldest(s), id, frames)),
        session_of(upsert_session(evict_oldest(s), id, frames), id) == Some(frames),
{
    let e = evict_oldest(s);
    assert(hub_wf(e)) by {
        if s.len() >= MAX_SESSIONS {
            assert forall|i: int, j: int| 0 <= i < j < e.len() implies (#[trigger] e[i]).0 != (
            #[trigger] e[j]).0 by {
                assert(e[i] == s[i + 1] && e[j] == s[j + 1]);
            }
        }
    }
    let u = upsert_session(e, id, frames);
    if has_session(e, id) {
        let k = session_index(e, id);
        assert(u[k] == (id, frames));
        assert forall|a: int, b: int| 0 <= a < b < u.len() implies (#[trigger] u[a]).0 != (
        #[trigger] u[b]).0 by {
            if a != k && b != k {
                assert(u[a] == e[a] && u[b] == e[b]);
            } else if a == k {
                assert(u[b] == e[b]);
            } else {
                assert(u[a] == e[a]);
            }
        }
        assert(has_session(u, id));
        let j = session_index(u, id);
        if j != k {
            if j < k {
                assert(u[j].0 != u[k].0);
            } else {
                assert(u[k].0 != u[j].0);
            }
        }
    } else {
        let k = e.len() as int;
        assert(u[k] == (id, frames));
        assert forall|a: int, b: int| 0 <= a < b < u.len() implies (#[trigger] u[a]).0 != (
        #[trigger] u[b]).0 by {
            if b == k {
                assert(u[a] == e[a]);
                assert(!(0 <= a < e.len() && e[a].0 == id));
            } else {
                assert(u[a] == e[a] && u[b] == e[b]);
            }
        }
        assert(has_session(u, id));
        let j = session_index(u, id);
        if j != k {
            assert(u[j] == e[j]);
            assert(0 <= j < e.len() && e[j].0 == id);
        }
    }
}

/// Every ignition sequence opens with the deck patch, ends with the session
/// being done, and holds three frames more than its panes at the least.
pub proof fn law_ignition_bookends(
    prompt: Option<Seq<char>>,
    source: Option<Seq<char>>,
    panes: Seq<IgnitionPane>,
    reasons: Seq<RankReason>,
)
    ensures
        ignition_kinds(prompt, source, panes, reasons)[0] == FrameKindView::DeckPatch(
            session_title_spec(prompt),
        ),
        ignition_kinds(prompt, source, panes, reasons).last() == FrameKindView::SessionDone,
        ignition_kinds(prompt, source, panes, reasons).len() >= 3 + 2 * panes.len(),
{
    lemma_filling_prefix_len(panes, panes.len() as int);
}

} // verus!
