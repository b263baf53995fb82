//! Which servers an operation may be sent to.

use vstd::prelude::*;

verus! {

/// The kind of server that reads are routed to.
#[derive(Clone, Copy, Debug, PartialEq, Eq, Structural)]
pub enum ReadPreference {
    Primary,
    Secondary,
    PrimaryPreferred,
    SecondaryPreferred,
    Nearest,
}

/// How the server for an operation is chosen.
#[derive(Clone, Copy, Debug, PartialEq, Eq, Structural)]
pub enum SelectionCriteria {
    ReadPreference(ReadPreference),
}

impl SelectionCriteria {
    /// Whether the criteria ask for the primary and nothing else.
    pub fn is_read_pref_primary(&self) -> (r: bool)
        ensures
            r == (*self == SelectionCriteria::ReadPreference(ReadPreference::Primary)),
    {
        match self {
            SelectionCriteria::ReadPreference(ReadPreference::Primary) => true,
            _ => false,
        }
    }
}

} // verus!
