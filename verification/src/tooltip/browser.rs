use vstd::prelude::*;

verus! {

/// The event the browser reports when the pointer leaves the grace area between trigger and
/// content.
#[derive(Clone, Copy, Debug, PartialEq, Eq, Structural)]
pub enum TooltipGraceEventPayload {
    GraceLeave,
}

pub type TooltipGraceEvent = TooltipGraceEventPayload;

} // verus!
