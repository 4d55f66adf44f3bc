use vstd::prelude::*;

verus! {

/// The `data-state` value a part publishes.
#[derive(Clone, Copy, Debug, PartialEq, Eq, Structural)]
pub enum DataState {
    Open,
    Closed,
    Active,
    Inactive,
}

impl DataState {
    /// The attribute text of a state.
    pub open spec fn spec_text(self) -> Seq<char> {
        match self {
            DataState::Open => "open"@,
            DataState::Closed => "closed"@,
            DataState::Active => "active"@,
            DataState::Inactive => "inactive"@,
        }
    }

    pub fn as_str(&self) -> (s: &'static str)
        ensures
            s@ == self.spec_text(),
    {
        match self {
            DataState::Open => "open",
            DataState::Closed => "closed",
            DataState::Active => "active",
            DataState::Inactive => "inactive",
        }
    }

    /// The open/closed state for an open flag.
    pub open spec fn spec_from_open(open: bool) -> DataState {
        if open {
            DataState::Open
        } else {
            DataState::Closed
        }
    }

    pub fn from_open(open: bool) -> (s: DataState)
        ensures
            s == DataState::spec_from_open(open),
    {
        if open {
            DataState::Open
        } else {
            DataState::Closed
        }
    }
}

} // verus!
