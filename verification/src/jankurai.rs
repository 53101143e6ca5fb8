//! The Jankurai standards adapter: it advertises its local CLI and, until
//! that CLI is wired, refuses every work order.

use vstd::prelude::*;

use crate::domain::{
    adapter_card, fail_closed, fail_closed_text, text_list, AdapterError, ServiceCard,
    ADAPTER_VERSION,
};
use crate::text::texts;

verus! {

/// The Jankurai adapter.
#[derive(Clone, Copy, Debug, PartialEq, Eq)]
pub struct JankuraiAdapter;

impl JankuraiAdapter {
    /// What the adapter advertises.
    pub fn service_card(&self) -> (card: ServiceCard)
        ensures
            card.name@ == "jankurai"@,
            card.version@ == ADAPTER_VERSION@,
            texts(card.subjects@) == seq!["*/jankurai/*"@],
            texts(card.capabilities@) == seq!["local-cli"@],
    {
        let caps = text_list(&["local-cli"]);
        proof {
            reveal_strlit("*/");
            reveal_strlit("/*");
            reveal_strlit("jankurai");
            reveal_strlit("*/jankurai/*");
            assert("*/"@ + "jankurai"@ + "/*"@ =~= "*/jankurai/*"@);
        }
        adapter_card("jankurai", caps)
    }

    /// Every work order fails closed.
    pub fn execute(&self, kind: &str) -> (r: Result<(), AdapterError>)
        ensures
            r matches Err(e) && e.message@ == fail_closed_text("jankurai"@),
    {
        Err(fail_closed("jankurai"))
    }
}

} // verus!
