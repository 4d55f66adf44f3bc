use vstd::prelude::*;
use crate::foundation::state::DataState;

verus! {

pub const TOOLTIP_GEOMETRY_NAMESPACE: &'static str = "tooltip";

/// How long a pointer may travel from trigger to content before the tooltip closes.
pub const TOOLTIP_HOVER_TRANSFER_GRACE_MS: u64 = 40;

pub const TOOLTIP_PARTS: [TooltipPart; 6] = [
    TooltipPart::Root,
    TooltipPart::Trigger,
    TooltipPart::Portal,
    TooltipPart::Content,
    TooltipPart::Arrow,
    TooltipPart::Provider,
];

/// The parts a tooltip is made of.
#[derive(Clone, Copy, Debug, PartialEq, Eq, Hash, Structural)]
pub enum TooltipPart {
    Root,
    Trigger,
    Portal,
    Content,
    Arrow,
    Provider,
}

impl TooltipPart {
    pub open spec fn spec_text(self) -> Seq<char> {
        match self {
            TooltipPart::Root => "root"@,
            TooltipPart::Trigger => "trigger"@,
            TooltipPart::Portal => "portal"@,
            TooltipPart::Content => "content"@,
            TooltipPart::Arrow => "arrow"@,
            TooltipPart::Provider => "provider"@,
        }
    }

    pub fn as_str(&self) -> (s: &'static str)
        ensures
            s@ == self.spec_text(),
    {
        match self {
            TooltipPart::Root => "root",
            TooltipPart::Trigger => "trigger",
            TooltipPart::Portal => "portal",
            TooltipPart::Content => "content",
            TooltipPart::Arrow => "arrow",
            TooltipPart::Provider => "provider",
        }
    }
}

/// A request to show or hide a tooltip.
#[derive(Clone, Copy, Debug, PartialEq, Eq, Hash, Structural)]
pub enum TooltipStateRequest {
    Open,
    Close,
}

impl TooltipStateRequest {
    pub open spec fn spec_next_open(self) -> bool {
        self == TooltipStateRequest::Open
    }

    pub fn next_open(self) -> (b: bool)
        ensures
            b == self.spec_next_open(),
    {
        match self {
            TooltipStateRequest::Open => true,
            TooltipStateRequest::Close => false,
        }
    }

    pub fn data_state(self) -> (s: DataState)
        ensures
            s == DataState::spec_from_open(self.spec_next_open()),
    {
        if self.next_open() {
            DataState::Open
        } else {
            DataState::Closed
        }
    }
}

} // verus!
