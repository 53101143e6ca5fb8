//! The parts of the control plane's work orders that adapters and projections read.

use vstd::prelude::*;

use crate::clock::Timestamp;
use crate::json::Json;
use crate::text::{concat, texts};

verus! {

/// What a work order asks for: its kind and its JSON payload.
#[derive(Debug)]
pub struct Task {
    pub kind: String,
    pub payload: Json,
}

/// A submitted work order.
#[derive(Debug)]
pub struct WorkOrder {
    /// The work order's UUID as a big-endian 128-bit value.
    pub id: u128,
    pub subject: String,
    pub task: Task,
    pub updated_at: Timestamp,
}

/// A lease on a work order, held by an adapter.
#[derive(Clone, Debug, PartialEq, Eq)]
pub struct Lease {
    pub work_order_id: u128,
    pub holder: String,
    pub expires_at: Timestamp,
}

/// `a` comes strictly before `b`.
pub open spec fn instant_before(a: (i64, u32), b: (i64, u32)) -> bool {
    a.0 < b.0 || (a.0 == b.0 && a.1 < b.1)
}

/// Why a lease does not let `holder` work on a work order at `now`, if it
/// does not.
pub open spec fn lease_error(work_order_id: u128, lease: Lease, holder: Seq<char>, now: (i64, u32)) -> Option<Seq<char>> {
    if lease.work_order_id != work_order_id {
        Some("lease does not match work order"@)
    } else if lease.holder@ != holder {
        Some("lease is held by another adapter"@)
    } else if !instant_before(now, lease.expires_at@) {
        Some("lease has expired"@)
    } else {
        None
    }
}

/// Checks, before an adapter touches anything, that the lease is on this
/// work order, held by this adapter, and not yet expired.
pub fn require_valid_lease(work_order_id: u128, lease: &Lease, holder: &str, now: &Timestamp) -> (r: Result<(), AdapterError>)
    ensures
        match r {
            Ok(()) => lease_error(work_order_id, *lease, holder@, now@) is None,
            Err(e) => lease_error(work_order_id, *lease, holder@, now@) == Some(e.message@),
        },
{
    if lease.work_order_id != work_order_id {
        return Err(AdapterError { message: "lease does not match work order".to_owned() });
    }
    if !crate::text::str_eq(lease.holder.as_str(), holder) {
        return Err(AdapterError { message: "lease is held by another adapter".to_owned() });
    }
    let (n_secs, n_nanos) = (now.unix_secs(), now.subsec_nanos());
    let (e_secs, e_nanos) = (lease.expires_at.unix_secs(), lease.expires_at.subsec_nanos());
    if !(n_secs < e_secs || (n_secs == e_secs && n_nanos < e_nanos)) {
        return Err(AdapterError { message: "lease has expired".to_owned() });
    }
    Ok(())
}

/// The lease check that comes before an adapter runs a work order: the
/// adapter is run only on `Ok`, and on `Err` nothing of the adapter is
/// touched and the work order fails with the lease's refusal.
pub fn execute_with_lease_gate(work_order: &WorkOrder, lease: &Lease, holder: &str, now: &Timestamp) -> (r: Result<(), AdapterError>)
    ensures
        match r {
            Ok(()) => lease_error(work_order.id, *lease, holder@, now@) is None,
            Err(e) => lease_error(work_order.id, *lease, holder@, now@) == Some(e.message@),
        },
{
    require_valid_lease(work_order.id, lease, holder, now)
}

/// A system's identity in the status board.
#[derive(Clone, Debug, PartialEq, Eq)]
pub struct SystemStatus {
    pub name: String,
    pub role: String,
}

/// Why an adapter refused or failed a work order.
#[derive(Clone, Debug, PartialEq, Eq)]
pub struct AdapterError {
    pub message: String,
}

/// `{service} adapter is not configured; failing closed`.
pub open spec fn fail_closed_text(service: Seq<char>) -> Seq<char> {
    service + " adapter is not configured; failing closed"@
}

/// The error an adapter returns for work it does not handle: it fails closed.
pub fn fail_closed(service: &str) -> (e: AdapterError)
    ensures
        e.message@ == fail_closed_text(service@),
{
    AdapterError { message: concat(service, " adapter is not configured; failing closed") }
}

/// An error with the given message.
pub fn adapter_error(message: String) -> (e: AdapterError)
    ensures
        e.message@ == message@,
{
    AdapterError { message }
}

/// The version every adapter of this control plane reports.
pub const ADAPTER_VERSION: &'static str = "0.1.0";

/// What an adapter advertises: its name, version, the subjects it serves and
/// its capabilities.
#[derive(Clone, Debug, PartialEq, Eq)]
pub struct ServiceCard {
    pub name: String,
    pub version: String,
    pub subjects: Vec<String>,
    pub capabilities: Vec<String>,
}

/// A card for the adapter `name` serving `*/{name}/*`, at [`ADAPTER_VERSION`].
pub fn adapter_card(name: &str, capabilities: Vec<String>) -> (card: ServiceCard)
    ensures
        card.name@ == name@,
        card.version@ == ADAPTER_VERSION@,
        texts(card.subjects@) == seq!["*/"@ + name@ + "/*"@],
        texts(card.capabilities@) == texts(capabilities@),
{
    let mut subject = concat("*/", name);
    subject.append("/*");
    let mut subjects: Vec<String> = Vec::new();
    subjects.push(subject);
    assert(texts(subjects@) =~= seq!["*/"@ + name@ + "/*"@]);
    ServiceCard {
        name: name.to_owned(),
        version: ADAPTER_VERSION.to_owned(),
        subjects,
        capabilities,
    }
}

/// A list of texts.
pub fn text_list(items: &[&str]) -> (out: Vec<String>)
    ensures
        texts(out@) == items@.map_values(|s: &str| s@),
{
    let mut out: Vec<String> = Vec::new();
    let mut i: usize = 0;
    while i < items.len()
        invariant
            i <= items@.len(),
            texts(out@) == items@.take(i as int).map_values(|s: &str| s@),
        decreases items@.len() - i,
    {
        let ghost before = out@;
        out.push(items[i].to_owned());
        assert(items@.take(i + 1) =~= items@.take(i as int).push(items@[i as int]));
        assert(texts(out@) =~= texts(before).push(items@[i as int]@));
        assert(items@.take(i + 1).map_values(|s: &str| s@) =~= items@.take(i as int).map_values(
            |s: &str| s@,
        ).push(items@[i as int]@));
        i = i + 1;
    }
    assert(items@.take(i as int) =~= items@);
    out
}

} // verus!
