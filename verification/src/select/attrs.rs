use vstd::prelude::*;
use crate::foundation::{
    overlay::{PlacementAlign, PlacementSide, PortalHost},
    state::DataState,
};

verus! {

/// `"open"` for an open part, `"closed"` for anything else.
pub open spec fn open_text(state: DataState) -> Seq<char> {
    if state == DataState::Open {
        "open"@
    } else {
        "closed"@
    }
}

fn open_str(state: DataState) -> (s: &'static str)
    ensures
        s@ == open_text(state),
{
    match state {
        DataState::Open => "open",
        _ => "closed",
    }
}

/// The view of an optional attribute text.
pub open spec fn opt_str_view(s: Option<&'static str>) -> Option<Seq<char>> {
    match s {
        Some(t) => Some(t@),
        None => None,
    }
}

#[derive(Clone, Debug, PartialEq, Eq)]
pub struct SelectRootAttributes {
    pub id: String,
    pub data_state: DataState,
    pub disabled: bool,
}

impl SelectRootAttributes {
    pub fn id(&self) -> (s: &str)
        ensures
            s@ == self.id@,
    {
        self.id.as_str()
    }

    pub fn data_state(&self) -> (s: DataState)
        ensures
            s == self.data_state,
    {
        self.data_state
    }

    pub fn data_state_str(&self) -> (s: &'static str)
        ensures
            s@ == open_text(self.data_state),
    {
        open_str(self.data_state)
    }

    pub fn is_disabled(&self) -> (b: bool)
        ensures
            b == self.disabled,
    {
        self.disabled
    }
}

#[derive(Clone, Debug, PartialEq, Eq)]
pub struct SelectTriggerAttributes {
    pub id: String,
    pub role: &'static str,
    pub aria_haspopup: &'static str,
    pub aria_expanded: &'static str,
    pub aria_controls: String,
    pub aria_disabled: Option<&'static str>,
    pub aria_required: Option<&'static str>,
    pub data_state: DataState,
    pub data_placeholder: bool,
    pub disabled: bool,
    pub tabindex: i32,
}

impl SelectTriggerAttributes {
    pub fn id(&self) -> (s: &str)
        ensures
            s@ == self.id@,
    {
        self.id.as_str()
    }

    pub fn role(&self) -> (s: &'static str)
        ensures
            s == self.role,
    {
        self.role
    }

    pub fn aria_haspopup(&self) -> (s: &'static str)
        ensures
            s == self.aria_haspopup,
    {
        self.aria_haspopup
    }

    pub fn aria_expanded(&self) -> (s: &'static str)
        ensures
            s == self.aria_expanded,
    {
        self.aria_expanded
    }

    pub fn aria_controls(&self) -> (s: &str)
        ensures
            s@ == self.aria_controls@,
    {
        self.aria_controls.as_str()
    }

    pub fn aria_disabled(&self) -> (s: Option<&'static str>)
        ensures
            s == self.aria_disabled,
    {
        self.aria_disabled
    }

    pub fn aria_required(&self) -> (s: Option<&'static str>)
        ensures
            s == self.aria_required,
    {
        self.aria_required
    }

    pub fn data_state_str(&self) -> (s: &'static str)
        ensures
            s@ == open_text(self.data_state),
    {
        open_str(self.data_state)
    }

    pub fn is_disabled(&self) -> (b: bool)
        ensures
            b == self.disabled,
    {
        self.disabled
    }

    pub fn is_placeholder(&self) -> (b: bool)
        ensures
            b == self.data_placeholder,
    {
        self.data_placeholder
    }

    pub fn data_placeholder_str(&self) -> (s: &'static str)
        ensures
            s@ == (if self.data_placeholder {
                "true"@
            } else {
                "false"@
            }),
    {
        if self.data_placeholder {
            "true"
        } else {
            "false"
        }
    }

    pub fn tabindex(&self) -> (i: i32)
        ensures
            i == self.tabindex,
    {
        self.tabindex
    }
}

#[derive(Clone, Debug, PartialEq, Eq)]
pub struct SelectPortalAttributes {
    pub host: PortalHost,
}

impl SelectPortalAttributes {
    pub fn host(&self) -> (h: &PortalHost)
        ensures
            h@ == self.host@,
    {
        &self.host
    }
}

#[derive(Clone, Debug, PartialEq, Eq)]
pub struct SelectContentAttributes {
    pub id: String,
    pub role: &'static str,
    pub tabindex: i32,
    pub aria_activedescendant: Option<String>,
    pub data_state: DataState,
    pub data_side: PlacementSide,
    pub data_align: PlacementAlign,
    pub reference_hidden: bool,
}

impl SelectContentAttributes {
    pub fn id(&self) -> (s: &str)
        ensures
            s@ == self.id@,
    {
        self.id.as_str()
    }

    pub fn role(&self) -> (s: &'static str)
        ensures
            s == self.role,
    {
        self.role
    }

    pub fn tabindex(&self) -> (i: i32)
        ensures
            i == self.tabindex,
    {
        self.tabindex
    }

    pub fn aria_activedescendant(&self) -> (s: Option<&str>)
        ensures
            match s {
                Some(t) => self.aria_activedescendant matches Some(a) && a@ == t@,
                None => self.aria_activedescendant is None,
            },
    {
        match &self.aria_activedescendant {
            Some(a) => Some(a.as_str()),
            None => None,
        }
    }

    pub fn data_state_str(&self) -> (s: &'static str)
        ensures
            s@ == open_text(self.data_state),
    {
        open_str(self.data_state)
    }

    pub fn data_side(&self) -> (s: PlacementSide)
        ensures
            s == self.data_side,
    {
        self.data_side
    }

    pub fn data_side_str(&self) -> (s: &'static str)
        ensures
            s@ == self.data_side.spec_text(),
    {
        self.data_side.as_str()
    }

    pub fn data_align(&self) -> (a: PlacementAlign)
        ensures
            a == self.data_align,
    {
        self.data_align
    }

    pub fn data_align_str(&self) -> (s: &'static str)
        ensures
            s@ == self.data_align.spec_text(),
    {
        match self.data_align {
            PlacementAlign::Start => "start",
            PlacementAlign::Center => "center",
            PlacementAlign::End => "end",
        }
    }

    pub fn is_reference_hidden(&self) -> (b: bool)
        ensures
            b == self.reference_hidden,
    {
        self.reference_hidden
    }

    pub fn data_reference_hidden_str(&self) -> (s: Option<&'static str>)
        ensures
            opt_str_view(s) == (if self.reference_hidden {
                Some("true"@)
            } else {
                None
            }),
    {
        if self.reference_hidden {
            Some("true")
        } else {
            None
        }
    }
}

#[derive(Clone, Debug, PartialEq, Eq)]
pub struct SelectItemAttributes {
    pub id: String,
    pub role: &'static str,
    pub aria_selected: &'static str,
    pub aria_disabled: Option<&'static str>,
    pub data_state: &'static str,
    pub is_highlighted: bool,
    pub disabled: bool,
    pub value: String,
    pub label: String,
}

impl SelectItemAttributes {
    pub fn id(&self) -> (s: &str)
        ensures
            s@ == self.id@,
    {
        self.id.as_str()
    }

    pub fn role(&self) -> (s: &'static str)
        ensures
            s == self.role,
    {
        self.role
    }

    pub fn aria_selected(&self) -> (s: &'static str)
        ensures
            s == self.aria_selected,
    {
        self.aria_selected
    }

    pub fn aria_disabled(&self) -> (s: Option<&'static str>)
        ensures
            s == self.aria_disabled,
    {
        self.aria_disabled
    }

    pub fn data_state(&self) -> (s: &'static str)
        ensures
            s == self.data_state,
    {
        self.data_state
    }

    pub fn is_highlighted(&self) -> (b: bool)
        ensures
            b == self.is_highlighted,
    {
        self.is_highlighted
    }

    pub fn is_disabled(&self) -> (b: bool)
        ensures
            b == self.disabled,
    {
        self.disabled
    }

    pub fn value(&self) -> (s: &str)
        ensures
            s@ == self.value@,
    {
        self.value.as_str()
    }

    pub fn label(&self) -> (s: &str)
        ensures
            s@ == self.label@,
    {
        self.label.as_str()
    }

    pub fn data_value(&self) -> (s: &str)
        ensures
            s@ == self.value@,
    {
        self.value.as_str()
    }

    pub fn data_label(&self) -> (s: &str)
        ensures
            s@ == self.label@,
    {
        self.label.as_str()
    }

    pub fn data_selected(&self) -> (s: &'static str)
        ensures
            s == self.aria_selected,
    {
        self.aria_selected
    }
}

} // verus!
