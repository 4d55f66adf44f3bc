use vstd::prelude::*;
use crate::foundation::state::DataState;

verus! {

/// The `data-state` text of a trigger or panel: active, or inactive for anything else.
pub open spec fn active_text(state: DataState) -> Seq<char> {
    if state == DataState::Active {
        "active"@
    } else {
        "inactive"@
    }
}

fn active_str(state: DataState) -> (s: &'static str)
    ensures
        s@ == active_text(state),
{
    match state {
        DataState::Active => "active",
        _ => "inactive",
    }
}

pub struct TabsRootAttributesView {
    pub id: Seq<char>,
    pub data_orientation: Seq<char>,
}

#[derive(Clone, Debug, PartialEq, Eq)]
pub struct TabsRootAttributes {
    pub(crate) id: String,
    pub(crate) data_orientation: &'static str,
}

impl View for TabsRootAttributes {
    type V = TabsRootAttributesView;

    open(crate) spec fn view(&self) -> TabsRootAttributesView {
        TabsRootAttributesView { id: self.id@, data_orientation: self.data_orientation@ }
    }
}

impl TabsRootAttributes {
    pub fn id(&self) -> (s: &str)
        ensures
            s@ == self@.id,
    {
        self.id.as_str()
    }

    pub fn data_orientation(&self) -> (s: &'static str)
        ensures
            s@ == self@.data_orientation,
    {
        self.data_orientation
    }
}

pub struct TabsListAttributesView {
    pub id: Seq<char>,
    pub role: Seq<char>,
    pub aria_orientation: Seq<char>,
    pub data_orientation: Seq<char>,
    pub disabled: bool,
}

#[derive(Clone, Debug, PartialEq, Eq)]
pub struct TabsListAttributes {
    pub(crate) id: String,
    pub(crate) role: &'static str,
    pub(crate) aria_orientation: &'static str,
    pub(crate) data_orientation: &'static str,
    pub(crate) disabled: bool,
}

impl View for TabsListAttributes {
    type V = TabsListAttributesView;

    open(crate) spec fn view(&self) -> TabsListAttributesView {
        TabsListAttributesView {
            id: self.id@,
            role: self.role@,
            aria_orientation: self.aria_orientation@,
            data_orientation: self.data_orientation@,
            disabled: self.disabled,
        }
    }
}

impl TabsListAttributes {
    pub fn id(&self) -> (s: &str)
        ensures
            s@ == self@.id,
    {
        self.id.as_str()
    }

    pub fn role(&self) -> (s: &'static str)
        ensures
            s@ == self@.role,
    {
        self.role
    }

    pub fn aria_orientation(&self) -> (s: &'static str)
        ensures
            s@ == self@.aria_orientation,
    {
        self.aria_orientation
    }

    pub fn data_orientation(&self) -> (s: &'static str)
        ensures
            s@ == self@.data_orientation,
    {
        self.data_orientation
    }

    pub fn is_disabled(&self) -> (b: bool)
        ensures
            b == self@.disabled,
    {
        self.disabled
    }
}

pub struct TabsTriggerAttributesView {
    pub id: Seq<char>,
    pub role: Seq<char>,
    pub is_selected: bool,
    pub aria_selected: Seq<char>,
    pub aria_controls: Seq<char>,
    pub tabindex: i32,
    pub data_state: DataState,
    pub data_orientation: Seq<char>,
    pub data_value: Seq<char>,
    pub disabled: bool,
}

#[derive(Clone, Debug, PartialEq, Eq)]
pub struct TabsTriggerAttributes {
    pub(crate) id: String,
    pub(crate) role: &'static str,
    pub(crate) is_selected: bool,
    pub(crate) aria_selected: &'static str,
    pub(crate) aria_controls: String,
    pub(crate) tabindex: i32,
    pub(crate) data_state: DataState,
    pub(crate) data_orientation: &'static str,
    pub(crate) data_value: String,
    pub(crate) disabled: bool,
}

impl View for TabsTriggerAttributes {
    type V = TabsTriggerAttributesView;

    open(crate) spec fn view(&self) -> TabsTriggerAttributesView {
        TabsTriggerAttributesView {
            id: self.id@,
            role: self.role@,
            is_selected: self.is_selected,
            aria_selected: self.aria_selected@,
            aria_controls: self.aria_controls@,
            tabindex: self.tabindex,
            data_state: self.data_state,
            data_orientation: self.data_orientation@,
            data_value: self.data_value@,
            disabled: self.disabled,
        }
    }
}

impl TabsTriggerAttributes {
    pub fn id(&self) -> (s: &str)
        ensures
            s@ == self@.id,
    {
        self.id.as_str()
    }

    pub fn role(&self) -> (s: &'static str)
        ensures
            s@ == self@.role,
    {
        self.role
    }

    pub fn is_selected(&self) -> (b: bool)
        ensures
            b == self@.is_selected,
    {
        self.is_selected
    }

    pub fn aria_selected(&self) -> (s: &'static str)
        ensures
            s@ == self@.aria_selected,
    {
        self.aria_selected
    }

    pub fn aria_controls(&self) -> (s: &str)
        ensures
            s@ == self@.aria_controls,
    {
        self.aria_controls.as_str()
    }

    pub fn tabindex(&self) -> (i: i32)
        ensures
            i == self@.tabindex,
    {
        self.tabindex
    }

    pub fn data_state(&self) -> (s: DataState)
        ensures
            s == self@.data_state,
    {
        self.data_state
    }

    pub fn data_state_str(&self) -> (s: &'static str)
        ensures
            s@ == active_text(self@.data_state),
    {
        active_str(self.data_state)
    }

    pub fn data_orientation(&self) -> (s: &'static str)
        ensures
            s@ == self@.data_orientation,
    {
        self.data_orientation
    }

    pub fn data_value(&self) -> (s: &str)
        ensures
            s@ == self@.data_value,
    {
        self.data_value.as_str()
    }

    pub fn is_disabled(&self) -> (b: bool)
        ensures
            b == self@.disabled,
    {
        self.disabled
    }
}

pub struct TabsContentAttributesView {
    pub id: Seq<char>,
    pub role: Seq<char>,
    pub aria_labelledby: Seq<char>,
    pub tabindex: i32,
    pub hidden: bool,
    pub data_state: DataState,
    pub data_orientation: Seq<char>,
    pub data_value: Seq<char>,
}

#[derive(Clone, Debug, PartialEq, Eq)]
pub struct TabsContentAttributes {
    pub(crate) id: String,
    pub(crate) role: &'static str,
    pub(crate) aria_labelledby: String,
    pub(crate) tabindex: i32,
    pub(crate) hidden: bool,
    pub(crate) data_state: DataState,
    pub(crate) data_orientation: &'static str,
    pub(crate) data_value: String,
}

impl View for TabsContentAttributes {
    type V = TabsContentAttributesView;

    open(crate) spec fn view(&self) -> TabsContentAttributesView {
        TabsContentAttributesView {
            id: self.id@,
            role: self.role@,
            aria_labelledby: self.aria_labelledby@,
            tabindex: self.tabindex,
            hidden: self.hidden,
            data_state: self.data_state,
            data_orientation: self.data_orientation@,
            data_value: self.data_value@,
        }
    }
}

impl TabsContentAttributes {
    pub fn id(&self) -> (s: &str)
        ensures
            s@ == self@.id,
    {
        self.id.as_str()
    }

    pub fn role(&self) -> (s: &'static str)
        ensures
            s@ == self@.role,
    {
        self.role
    }

    pub fn aria_labelledby(&self) -> (s: &str)
        ensures
            s@ == self@.aria_labelledby,
    {
        self.aria_labelledby.as_str()
    }

    pub fn tabindex(&self) -> (i: i32)
        ensures
            i == self@.tabindex,
    {
        self.tabindex
    }

    pub fn is_hidden(&self) -> (b: bool)
        ensures
            b == self@.hidden,
    {
        self.hidden
    }

    pub fn data_state(&self) -> (s: DataState)
        ensures
            s == self@.data_state,
    {
        self.data_state
    }

    pub fn data_state_str(&self) -> (s: &'static str)
        ensures
            s@ == active_text(self@.data_state),
    {
        active_str(self.data_state)
    }

    pub fn data_orientation(&self) -> (s: &'static str)
        ensures
            s@ == self@.data_orientation,
    {
        self.data_orientation
    }

    pub fn data_value(&self) -> (s: &str)
        ensures
            s@ == self@.data_value,
    {
        self.data_value.as_str()
    }
}

} // verus!
