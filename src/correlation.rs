//! Correlation ids: the id a sub-message carries tells, when its reply comes
//! back, which kind of response envelope the reply holds.

use vstd::prelude::*;

verus! {

/// Ids below this value tag instantiate-style sub-messages; ids at or above
/// it tag execute-style sub-messages.
pub const EXECUTE_REPLY_BASE_ID: u64 = 0x7fff_ffff_ffff_ffff;

/// The kind of sub-call a reply belongs to, with the id it came back with.
#[derive(Debug, Clone, Copy, PartialEq, Eq)]
pub enum CorrelationKind {
    Init(u64),
    Exec(u64),
}

/// Whether `id` lies in the instantiate-style namespace.
pub open spec fn is_init_id(id: u64) -> bool {
    id < EXECUTE_REPLY_BASE_ID
}

impl CorrelationKind {
    /// The id this kind was built from.
    pub open spec fn id_spec(self) -> u64 {
        match self {
            CorrelationKind::Init(id) => id,
            CorrelationKind::Exec(id) => id,
        }
    }

    /// Sorts a reply id into its namespace.
    pub fn classify(id: u64) -> (r: CorrelationKind)
        ensures
            is_init_id(id) ==> r == CorrelationKind::Init(id),
            !is_init_id(id) ==> r == CorrelationKind::Exec(id),
    {
        if id < EXECUTE_REPLY_BASE_ID {
            CorrelationKind::Init(id)
        } else {
            CorrelationKind::Exec(id)
        }
    }

    /// The id this kind was built from.
    pub fn id(&self) -> (r: u64)
        ensures
            r == self.id_spec(),
    {
        match self {
            CorrelationKind::Init(id) => *id,
            CorrelationKind::Exec(id) => *id,
        }
    }
}

} // verus!
