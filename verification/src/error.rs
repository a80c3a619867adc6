//! Why a lookup ends without a result.

use vstd::prelude::*;

verus! {

/// The ways in which a lookup fails. That no row matches is no failure.
#[derive(Debug, Clone, Copy, PartialEq, Eq, Structural)]
pub enum LookupError {
    /// The request holds a time that cannot be written into a query.
    Usage,
    /// The store could not be reached.
    Connection,
    /// The store refused or failed a query.
    Query,
    /// A project was given without an organization, and the store knows no
    /// organization for it.
    Resolution { project_id: u64 },
    /// A returned row does not have the expected columns.
    Decode,
    /// An event arrived that the current state does not wait for.
    OutOfOrder,
}

/// The text that reports an error.
pub open spec fn message_of(error: LookupError) -> Seq<char> {
    match error {
        LookupError::Usage => "time bound cannot be written into a query"@,
        LookupError::Connection => "could not connect to the store"@,
        LookupError::Query => "the store failed the query"@,
        LookupError::Resolution { .. } => "could not find org_id for project_id"@,
        LookupError::Decode => "a returned row could not be decoded"@,
        LookupError::OutOfOrder => "event does not fit the state of the lookup"@,
    }
}

impl LookupError {
    /// The text that reports this error.
    pub fn message(&self) -> (text: String)
        ensures
            text@ == message_of(*self),
    {
        match self {
            LookupError::Usage => String::from_str("time bound cannot be written into a query"),
            LookupError::Connection => String::from_str("could not connect to the store"),
            LookupError::Query => String::from_str("the store failed the query"),
            LookupError::Resolution { .. } => String::from_str(
                "could not find org_id for project_id",
            ),
            LookupError::Decode => String::from_str("a returned row could not be decoded"),
            LookupError::OutOfOrder => String::from_str(
                "event does not fit the state of the lookup",
            ),
        }
    }
}

} // verus!
