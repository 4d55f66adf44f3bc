use vstd::prelude::*;
use super::types::TooltipStateRequest;
use crate::foundation::{
    overlay::{PortalHost, PortalHostView},
    shared::opt_text_view,
    state::DataState,
};

verus! {

pub struct TooltipRootAttributesView {
    pub id: Seq<char>,
    pub data_state: DataState,
}

#[derive(Clone, Debug, PartialEq, Eq)]
pub struct TooltipRootAttributes {
    pub(crate) id: String,
    pub(crate) data_state: DataState,
}

impl View for TooltipRootAttributes {
    type V = TooltipRootAttributesView;

    open(crate) spec fn view(&self) -> TooltipRootAttributesView {
        TooltipRootAttributesView { id: self.id@, data_state: self.data_state }
    }
}

impl TooltipRootAttributes {
    pub fn id(&self) -> (s: &str)
        ensures
            s@ == self@.id,
    {
        self.id.as_str()
    }

    pub fn data_state(&self) -> (s: &DataState)
        ensures
            *s == self@.data_state,
    {
        &self.data_state
    }
}

pub struct TooltipTriggerAttributesView {
    pub id: Seq<char>,
    pub aria_describedby: Option<Seq<char>>,
    pub provider_id: Option<Seq<char>>,
    pub data_state: DataState,
    pub open_request: TooltipStateRequest,
    pub close_request: TooltipStateRequest,
}

#[derive(Clone, Debug, PartialEq, Eq)]
pub struct TooltipTriggerAttributes {
    pub(crate) id: String,
    pub(crate) aria_describedby: Option<String>,
    pub(crate) provider_id: Option<String>,
    pub(crate) data_state: DataState,
    pub(crate) open_request: TooltipStateRequest,
    pub(crate) close_request: TooltipStateRequest,
}

impl View for TooltipTriggerAttributes {
    type V = TooltipTriggerAttributesView;

    open(crate) spec fn view(&self) -> TooltipTriggerAttributesView {
        TooltipTriggerAttributesView {
            id: self.id@,
            aria_describedby: opt_text_view(self.aria_describedby),
            provider_id: opt_text_view(self.provider_id),
            data_state: self.data_state,
            open_request: self.open_request,
            close_request: self.close_request,
        }
    }
}

fn opt_as_str(t: &Option<String>) -> (r: Option<&str>)
    ensures
        match r {
            Some(s) => opt_text_view(*t) == Some(s@),
            None => t is None,
        },
{
    match t {
        Some(s) => Some(s.as_str()),
        None => None,
    }
}

impl TooltipTriggerAttributes {
    pub fn id(&self) -> (s: &str)
        ensures
            s@ == self@.id,
    {
        self.id.as_str()
    }

    pub fn aria_describedby(&self) -> (s: Option<&str>)
        ensures
            match s {
                Some(t) => self@.aria_describedby == Some(t@),
                None => self@.aria_describedby is None,
            },
    {
        opt_as_str(&self.aria_describedby)
    }

    pub fn provider_id(&self) -> (s: Option<&str>)
        ensures
            match s {
                Some(t) => self@.provider_id == Some(t@),
                None => self@.provider_id is None,
            },
    {
        opt_as_str(&self.provider_id)
    }

    pub fn data_state(&self) -> (s: &DataState)
        ensures
            *s == self@.data_state,
    {
        &self.data_state
    }

    pub fn open_request(&self) -> (r: TooltipStateRequest)
        ensures
            r == self@.open_request,
    {
        self.open_request
    }

    pub fn close_request(&self) -> (r: TooltipStateRequest)
        ensures
            r == self@.close_request,
    {
        self.close_request
    }
}

#[derive(Clone, Debug, PartialEq, Eq)]
pub struct TooltipPortalAttributes {
    pub(crate) host: PortalHost,
}

impl View for TooltipPortalAttributes {
    type V = PortalHostView;

    open(crate) spec fn view(&self) -> PortalHostView {
        self.host@
    }
}

impl TooltipPortalAttributes {
    pub fn host(&self) -> (h: &PortalHost)
        ensures
            h@ == self@,
    {
        &self.host
    }
}

pub struct TooltipContentAttributesView {
    pub id: Seq<char>,
    pub role: Seq<char>,
    pub data_state: DataState,
    pub data_side: Seq<char>,
    pub data_align: Seq<char>,
    pub autofocus_suppressed: bool,
}

#[derive(Clone, Debug, PartialEq, Eq)]
pub struct TooltipContentAttributes {
    pub(crate) id: String,
    pub(crate) role: &'static str,
    pub(crate) data_state: DataState,
    pub(crate) data_side: &'static str,
    pub(crate) data_align: &'static str,
    pub(crate) autofocus_suppressed: bool,
}

impl View for TooltipContentAttributes {
    type V = TooltipContentAttributesView;

    open(crate) spec fn view(&self) -> TooltipContentAttributesView {
        TooltipContentAttributesView {
            id: self.id@,
            role: self.role@,
            data_state: self.data_state,
            data_side: self.data_side@,
            data_align: self.data_align@,
            autofocus_suppressed: self.autofocus_suppressed,
        }
    }
}

impl TooltipContentAttributes {
    pub fn id(&self) -> (s: &str)
        ensures
            s@ == self@.id,
    {
        self.id.as_str()
    }

    pub fn role(&self) -> (s: &'static str)
        ensures
            s@ == self@.role,
    {
        self.role
    }

    pub fn data_state(&self) -> (s: &DataState)
        ensures
            *s == self@.data_state,
    {
        &self.data_state
    }

    pub fn data_side(&self) -> (s: &'static str)
        ensures
            s@ == self@.data_side,
    {
        self.data_side
    }

    pub fn data_align(&self) -> (s: &'static str)
        ensures
            s@ == self@.data_align,
    {
        self.data_align
    }

    pub fn autofocus_suppressed(&self) -> (b: bool)
        ensures
            b == self@.autofocus_suppressed,
    {
        self.autofocus_suppressed
    }
}

pub struct TooltipArrowAttributesView {
    pub id: Seq<char>,
    pub data_state: DataState,
    pub data_side: Seq<char>,
    pub data_align: Seq<char>,
}

#[derive(Clone, Debug, PartialEq, Eq)]
pub struct TooltipArrowAttributes {
    pub(crate) id: String,
    pub(crate) data_state: DataState,
    pub(crate) data_side: &'static str,
    pub(crate) data_align: &'static str,
}

impl View for TooltipArrowAttributes {
    type V = TooltipArrowAttributesView;

    open(crate) spec fn view(&self) -> TooltipArrowAttributesView {
        TooltipArrowAttributesView {
            id: self.id@,
            data_state: self.data_state,
            data_side: self.data_side@,
            data_align: self.data_align@,
        }
    }
}

impl TooltipArrowAttributes {
    pub fn id(&self) -> (s: &str)
        ensures
            s@ == self@.id,
    {
        self.id.as_str()
    }

    pub fn data_state(&self) -> (s: &DataState)
        ensures
            *s == self@.data_state,
    {
        &self.data_state
    }

    pub fn data_side(&self) -> (s: &'static str)
        ensures
            s@ == self@.data_side,
    {
        self.data_side
    }

    pub fn data_align(&self) -> (s: &'static str)
        ensures
            s@ == self@.data_align,
    {
        self.data_align
    }
}

} // verus!
