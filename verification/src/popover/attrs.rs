use vstd::prelude::*;
use super::types::PopoverStateRequest;
use crate::foundation::{overlay::{PortalHost, PortalHostView}, state::DataState};

verus! {

/// The model of the root part's attributes.
pub struct PopoverRootAttributesView {
    pub id: Seq<char>,
    pub data_state: DataState,
}

#[derive(Clone, Debug, PartialEq, Eq)]
pub struct PopoverRootAttributes {
    pub(crate) id: String,
    pub(crate) data_state: DataState,
}

impl View for PopoverRootAttributes {
    type V = PopoverRootAttributesView;

    open(crate) spec fn view(&self) -> PopoverRootAttributesView {
        PopoverRootAttributesView { id: self.id@, data_state: self.data_state }
    }
}

impl PopoverRootAttributes {
    pub fn id(&self) -> (s: &str)
        ensures
            s@ == self@.id,
    {
        self.id.as_str()
    }

    pub fn data_state(&self) -> (s: &DataState)
        ensures
            *s == self@.data_state,
    {
        &self.data_state
    }
}

/// The model of the trigger part's attributes.
pub struct PopoverTriggerAttributesView {
    pub id: Seq<char>,
    pub aria_controls: Seq<char>,
    pub aria_expanded: bool,
    pub data_state: DataState,
    pub open_request: PopoverStateRequest,
}

#[derive(Clone, Debug, PartialEq, Eq)]
pub struct PopoverTriggerAttributes {
    pub(crate) id: String,
    pub(crate) aria_controls: String,
    pub(crate) aria_expanded: bool,
    pub(crate) data_state: DataState,
    pub(crate) open_request: PopoverStateRequest,
}

impl View for PopoverTriggerAttributes {
    type V = PopoverTriggerAttributesView;

    open(crate) spec fn view(&self) -> PopoverTriggerAttributesView {
        PopoverTriggerAttributesView {
            id: self.id@,
            aria_controls: self.aria_controls@,
            aria_expanded: self.aria_expanded,
            data_state: self.data_state,
            open_request: self.open_request,
        }
    }
}

impl PopoverTriggerAttributes {
    pub fn id(&self) -> (s: &str)
        ensures
            s@ == self@.id,
    {
        self.id.as_str()
    }

    pub fn aria_controls(&self) -> (s: &str)
        ensures
            s@ == self@.aria_controls,
    {
        self.aria_controls.as_str()
    }

    pub fn aria_expanded(&self) -> (b: bool)
        ensures
            b == self@.aria_expanded,
    {
        self.aria_expanded
    }

    pub fn data_state(&self) -> (s: &DataState)
        ensures
            *s == self@.data_state,
    {
        &self.data_state
    }

    pub fn open_request(&self) -> (r: PopoverStateRequest)
        ensures
            r == self@.open_request,
    {
        self.open_request
    }
}

/// The model of the anchor part's attributes.
pub struct PopoverAnchorAttributesView {
    pub id: Seq<char>,
}

#[derive(Clone, Debug, PartialEq, Eq)]
pub struct PopoverAnchorAttributes {
    pub(crate) id: String,
}

impl View for PopoverAnchorAttributes {
    type V = PopoverAnchorAttributesView;

    open(crate) spec fn view(&self) -> PopoverAnchorAttributesView {
        PopoverAnchorAttributesView { id: self.id@ }
    }
}

impl PopoverAnchorAttributes {
    pub fn id(&self) -> (s: &str)
        ensures
            s@ == self@.id,
    {
        self.id.as_str()
    }
}

#[derive(Clone, Debug, PartialEq, Eq)]
pub struct PopoverPortalAttributes {
    pub(crate) host: PortalHost,
}

impl View for PopoverPortalAttributes {
    type V = PortalHostView;

    open(crate) spec fn view(&self) -> PortalHostView {
        self.host@
    }
}

impl PopoverPortalAttributes {
    pub fn host(&self) -> (h: &PortalHost)
        ensures
            h@ == self@,
    {
        &self.host
    }
}

/// The model of the content part's attributes.
pub struct PopoverContentAttributesView {
    pub id: Seq<char>,
    pub role: Seq<char>,
    pub aria_modal: bool,
    pub data_state: DataState,
    pub data_side: Seq<char>,
    pub data_align: Seq<char>,
}

#[derive(Clone, Debug, PartialEq, Eq)]
pub struct PopoverContentAttributes {
    pub(crate) id: String,
    pub(crate) role: &'static str,
    pub(crate) aria_modal: bool,
    pub(crate) data_state: DataState,
    pub(crate) data_side: &'static str,
    pub(crate) data_align: &'static str,
}

impl View for PopoverContentAttributes {
    type V = PopoverContentAttributesView;

    open(crate) spec fn view(&self) -> PopoverContentAttributesView {
        PopoverContentAttributesView {
            id: self.id@,
            role: self.role@,
            aria_modal: self.aria_modal,
            data_state: self.data_state,
            data_side: self.data_side@,
            data_align: self.data_align@,
        }
    }
}

impl PopoverContentAttributes {
    pub fn id(&self) -> (s: &str)
        ensures
            s@ == self@.id,
    {
        self.id.as_str()
    }

    pub fn role(&self) -> (s: &'static str)
        ensures
            s@ == self@.role,
    {
        self.role
    }

    pub fn aria_modal(&self) -> (b: bool)
        ensures
            b == self@.aria_modal,
    {
        self.aria_modal
    }

    pub fn data_state(&self) -> (s: &DataState)
        ensures
            *s == self@.data_state,
    {
        &self.data_state
    }

    pub fn data_side(&self) -> (s: &'static str)
        ensures
            s@ == self@.data_side,
    {
        self.data_side
    }

    pub fn data_align(&self) -> (s: &'static str)
        ensures
            s@ == self@.data_align,
    {
        self.data_align
    }
}

/// The model of the arrow part's attributes.
pub struct PopoverArrowAttributesView {
    pub id: Seq<char>,
    pub data_state: DataState,
    pub data_side: Seq<char>,
    pub data_align: Seq<char>,
}

#[derive(Clone, Debug, PartialEq, Eq)]
pub struct PopoverArrowAttributes {
    pub(crate) id: String,
    pub(crate) data_state: DataState,
    pub(crate) data_side: &'static str,
    pub(crate) data_align: &'static str,
}

impl View for PopoverArrowAttributes {
    type V = PopoverArrowAttributesView;

    open(crate) spec fn view(&self) -> PopoverArrowAttributesView {
        PopoverArrowAttributesView {
            id: self.id@,
            data_state: self.data_state,
            data_side: self.data_side@,
            data_align: self.data_align@,
        }
    }
}

impl PopoverArrowAttributes {
    pub fn id(&self) -> (s: &str)
        ensures
            s@ == self@.id,
    {
        self.id.as_str()
    }

    pub fn data_state(&self) -> (s: &DataState)
        ensures
            *s == self@.data_state,
    {
        &self.data_state
    }

    pub fn data_side(&self) -> (s: &'static str)
        ensures
            s@ == self@.data_side,
    {
        self.data_side
    }

    pub fn data_align(&self) -> (s: &'static str)
        ensures
            s@ == self@.data_align,
    {
        self.data_align
    }
}

/// The model of the close part's attributes.
pub struct PopoverCloseAttributesView {
    pub id: Seq<char>,
    pub data_state: DataState,
    pub close_request: PopoverStateRequest,
}

#[derive(Clone, Debug, PartialEq, Eq)]
pub struct PopoverCloseAttributes {
    pub(crate) id: String,
    pub(crate) data_state: DataState,
    pub(crate) close_request: PopoverStateRequest,
}

impl View for PopoverCloseAttributes {
    type V = PopoverCloseAttributesView;

    open(crate) spec fn view(&self) -> PopoverCloseAttributesView {
        PopoverCloseAttributesView {
            id: self.id@,
            data_state: self.data_state,
            close_request: self.close_request,
        }
    }
}

impl PopoverCloseAttributes {
    pub fn id(&self) -> (s: &str)
        ensures
            s@ == self@.id,
    {
        self.id.as_str()
    }

    pub fn data_state(&self) -> (s: &DataState)
        ensures
            *s == self@.data_state,
    {
        &self.data_state
    }

    pub fn close_request(&self) -> (r: PopoverStateRequest)
        ensures
            r == self@.close_request,
    {
        self.close_request
    }
}

} // verus!
