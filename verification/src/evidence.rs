//! Evidence records that adapters report for a work order.

use vstd::prelude::*;

verus! {

/// One piece of evidence: what it is and where it points. The capture time is
/// stamped by the caller when the record is stored.
#[derive(Clone, Debug, PartialEq, Eq)]
pub struct Evidence {
    pub kind: String,
    pub uri: String,
}

pub struct EvidenceView {
    pub kind: Seq<char>,
    pub uri: Seq<char>,
}

impl View for Evidence {
    type V = EvidenceView;

    open spec fn view(&self) -> EvidenceView {
        EvidenceView { kind: self.kind@, uri: self.uri@ }
    }
}

/// The views of a list of evidence records.
pub open spec fn evidence_views(items: Seq<Evidence>) -> Seq<EvidenceView> {
    items.map_values(|e: Evidence| e@)
}

/// An evidence record with the given views.
pub open spec fn ev(kind: Seq<char>, uri: Seq<char>) -> EvidenceView {
    EvidenceView { kind, uri }
}

} // verus!
