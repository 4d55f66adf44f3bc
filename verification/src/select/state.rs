use vstd::prelude::*;
use crate::foundation::{
    overlay::{PlacementAlign, PlacementSide, PortalHost, PortalHostView},
    shared::{contains_text, opt_text_view, text_eq, texts_view, ScopeHandle},
    state::DataState,
};
use super::{
    attrs::{
        opt_str_view, SelectContentAttributes, SelectItemAttributes, SelectPortalAttributes,
        SelectRootAttributes, SelectTriggerAttributes,
    },
    relationships::{SelectRelationships, SelectRelationshipsView},
    types::{SelectItemData, SelectMode, SelectPart, SELECT_PARTS},
};

verus! {

/// The values that an optional single value stands for: none or one.
pub open spec fn single_values(value: Option<Seq<char>>) -> Seq<Seq<char>> {
    match value {
        Some(v) => seq![v],
        None => Seq::empty(),
    }
}

/// The first of some values.
pub open spec fn first_value(values: Seq<Seq<char>>) -> Option<Seq<char>> {
    if values.len() > 0 {
        Some(values[0])
    } else {
        None
    }
}

/// The model of a select.
pub struct SelectView {
    pub relationships: SelectRelationshipsView,
    pub mode: SelectMode,
    pub value: Option<Seq<char>>,
    pub default_value: Option<Seq<char>>,
    pub values: Seq<Seq<char>>,
    pub default_values: Seq<Seq<char>>,
    pub open: bool,
    pub disabled: bool,
    pub required: bool,
    pub name: Option<Seq<char>>,
    pub form: Option<Seq<char>>,
    pub autocomplete: Option<Seq<char>>,
    pub portal_host: PortalHostView,
    pub items: Seq<SelectItemData>,
    pub loop_selection: bool,
}

impl SelectView {
    pub open spec fn data_state(self) -> DataState {
        DataState::spec_from_open(self.open)
    }

    /// The trigger shows its placeholder while nothing (or the empty value) is chosen.
    pub open spec fn is_placeholder(self) -> bool {
        match self.mode {
            SelectMode::Single { .. } => self.value is None || self.value == Some(Seq::<
                char,
            >::empty()),
            SelectMode::Multiple => self.values.len() == 0,
        }
    }

    /// Whether the non-empty `item` is chosen.
    pub open spec fn is_item_selected(self, item: Seq<char>) -> bool {
        item.len() > 0 && match self.mode {
            SelectMode::Single { .. } => self.value == Some(item),
            SelectMode::Multiple => self.values.contains(item),
        }
    }
}

/// A headless select: its ids, mode, chosen values, form settings and items.
#[derive(Debug, PartialEq, Eq)]
pub struct Select {
    pub(crate) relationships: SelectRelationships,
    pub(crate) mode: SelectMode,
    pub(crate) value: Option<String>,
    pub(crate) default_value: Option<String>,
    pub(crate) values: Vec<String>,
    pub(crate) default_values: Vec<String>,
    pub(crate) open: bool,
    pub(crate) disabled: bool,
    pub(crate) required: bool,
    pub(crate) name: Option<String>,
    pub(crate) form: Option<String>,
    pub(crate) autocomplete: Option<String>,
    pub(crate) portal_host: PortalHost,
    pub(crate) items: Vec<SelectItemData>,
    pub(crate) loop_selection: bool,
}

impl View for Select {
    type V = SelectView;

    open(crate) spec fn view(&self) -> SelectView {
        SelectView {
            relationships: self.relationships@,
            mode: self.mode,
            value: opt_text_view(self.value),
            default_value: opt_text_view(self.default_value),
            values: texts_view(self.values@),
            default_values: texts_view(self.default_values@),
            open: self.open,
            disabled: self.disabled,
            required: self.required,
            name: opt_text_view(self.name),
            form: opt_text_view(self.form),
            autocomplete: opt_text_view(self.autocomplete),
            portal_host: self.portal_host@,
            items: self.items@,
            loop_selection: self.loop_selection,
        }
    }
}

pub(crate) fn clone_opt(t: &Option<String>) -> (r: Option<String>)
    ensures
        opt_text_view(r) == opt_text_view(*t),
{
    match t {
        Some(s) => Some(s.clone()),
        None => None,
    }
}

pub(crate) fn clone_values(texts: &Vec<String>) -> (r: Vec<String>)
    ensures
        texts_view(r@) == texts_view(texts@),
{
    let mut r: Vec<String> = Vec::new();
    let mut i: usize = 0;
    while i < texts.len()
        invariant
            0 <= i <= texts@.len(),
            texts_view(r@) == texts_view(texts@).take(i as int),
        decreases texts@.len() - i,
    {
        let ghost before = r@;
        r.push(texts[i].clone());
        assert(texts_view(r@) =~= texts_view(before).push(texts@[i as int]@));
        assert(texts_view(texts@).take(i + 1) =~= texts_view(texts@).take(i as int).push(
            texts@[i as int]@,
        ));
        i = i + 1;
    }
    assert(texts_view(texts@).take(texts@.len() as int) =~= texts_view(texts@));
    r
}

pub(crate) fn single_vec(value: &Option<String>) -> (r: Vec<String>)
    ensures
        texts_view(r@) == single_values(opt_text_view(*value)),
{
    match value {
        Some(v) => {
            let r = vec![v.clone()];
            assert(texts_view(r@) =~= seq![v@]);
            r
        },
        None => {
            let r: Vec<String> = Vec::new();
            assert(texts_view(r@) =~= Seq::<Seq<char>>::empty());
            r
        },
    }
}

pub(crate) fn first_of(values: &Vec<String>) -> (r: Option<String>)
    ensures
        opt_text_view(r) == first_value(texts_view(values@)),
{
    if values.len() > 0 {
        Some(values[0].clone())
    } else {
        None
    }
}

pub(crate) fn clone_items(items: &Vec<SelectItemData>) -> (r: Vec<SelectItemData>)
    ensures
        r@ == items@,
{
    let mut r: Vec<SelectItemData> = Vec::new();
    let mut i: usize = 0;
    while i < items.len()
        invariant
            0 <= i <= items@.len(),
            r@ == items@.take(i as int),
        decreases items@.len() - i,
    {
        r.push(items[i].clone());
        assert(r@ =~= items@.take(i + 1));
        i = i + 1;
    }
    assert(items@.take(items@.len() as int) =~= items@);
    r
}

impl Clone for Select {
    fn clone(&self) -> (r: Self)
        ensures
            r@ == self@,
    {
        Select {
            relationships: self.relationships.clone(),
            mode: self.mode,
            value: clone_opt(&self.value),
            default_value: clone_opt(&self.default_value),
            values: clone_values(&self.values),
            default_values: clone_values(&self.default_values),
            open: self.open,
            disabled: self.disabled,
            required: self.required,
            name: clone_opt(&self.name),
            form: clone_opt(&self.form),
            autocomplete: clone_opt(&self.autocomplete),
            portal_host: self.portal_host.clone(),
            items: clone_items(&self.items),
            loop_selection: self.loop_selection,
        }
    }
}

impl Select {
    pub fn parts() -> (parts: &'static [SelectPart])
        ensures
            parts@.len() == 16,
            parts@[0] == SelectPart::Root,
            parts@[15] == SelectPart::HiddenInput,
    {
        &SELECT_PARTS
    }

    /// A closed, enabled, single-value select with nothing chosen and no items.
    pub fn new(scope: ScopeHandle) -> (s: Self)
        ensures
            s@.relationships.scope == scope@,
            s@.relationships.wf(),
            s@.mode == (SelectMode::Single { allow_deselect: false }),
            s@.value is None && s@.default_value is None,
            s@.values.len() == 0 && s@.default_values.len() == 0,
            !s@.open && !s@.disabled && !s@.required,
            s@.name is None && s@.form is None && s@.autocomplete is None,
            s@.portal_host == PortalHostView::Default,
            s@.items.len() == 0,
            !s@.loop_selection,
    {
        let s = Select {
            relationships: SelectRelationships::new(scope),
            mode: SelectMode::Single { allow_deselect: false },
            value: None,
            default_value: None,
            values: Vec::new(),
            default_values: Vec::new(),
            open: false,
            disabled: false,
            required: false,
            name: None,
            form: None,
            autocomplete: None,
            portal_host: PortalHost::default_host(),
            items: Vec::new(),
            loop_selection: false,
        };
        assert(texts_view(s.values@) =~= Seq::<Seq<char>>::empty());
        assert(texts_view(s.default_values@) =~= Seq::<Seq<char>>::empty());
        s
    }

    pub fn with_mode(self, mode: SelectMode) -> (s: Self)
        ensures
            s@ == (SelectView { mode, ..self@ }),
    {
        Select { mode, ..self }
    }

    pub fn with_multiple(self, multiple: bool) -> (s: Self)
        ensures
            s@ == (SelectView {
                mode: if multiple {
                    SelectMode::Multiple
                } else {
                    SelectMode::Single { allow_deselect: false }
                },
                ..self@
            }),
    {
        let mode = if multiple {
            SelectMode::Multiple
        } else {
            SelectMode::Single { allow_deselect: false }
        };
        Select { mode, ..self }
    }

    /// Chooses `val`; it also becomes the default when no default was set.
    pub fn with_value(self, val: Option<String>) -> (s: Self)
        ensures
            s@ == (SelectView {
                value: opt_text_view(val),
                default_value: if self@.default_value is None {
                    opt_text_view(val)
                } else {
                    self@.default_value
                },
                default_values: if self@.default_value is None {
                    single_values(opt_text_view(val))
                } else {
                    self@.default_values
                },
                values: single_values(opt_text_view(val)),
                ..self@
            }),
    {
        let mut s = self;
        s.value = clone_opt(&val);
        if s.default_value.is_none() {
            s.default_value = clone_opt(&val);
            s.default_values = single_vec(&val);
        }
        s.values = single_vec(&val);
        s
    }

    /// Sets the default; it is also chosen when nothing was chosen.
    pub fn with_default_value(self, val: Option<String>) -> (s: Self)
        ensures
            s@ == (SelectView {
                default_value: opt_text_view(val),
                value: if self@.value is None {
                    opt_text_view(val)
                } else {
                    self@.value
                },
                values: if self@.value is None {
                    single_values(opt_text_view(val))
                } else {
                    self@.values
                },
                default_values: if self@.value is None {
                    single_values(opt_text_view(val))
                } else {
                    self@.default_values
                },
                ..self@
            }),
    {
        let mut s = self;
        s.default_value = clone_opt(&val);
        if s.value.is_none() {
            s.value = clone_opt(&val);
            s.values = single_vec(&val);
            s.default_values = clone_values(&s.values);
        }
        s
    }

    /// Chooses `vals`, the first one as the single value; they also become the defaults when
    /// no defaults were set.
    pub fn with_values(self, vals: Vec<String>) -> (s: Self)
        ensures
            s@ == (SelectView {
                value: first_value(texts_view(vals@)),
                default_value: if self@.default_values.len() == 0 {
                    first_value(texts_view(vals@))
                } else {
                    self@.default_value
                },
                default_values: if self@.default_values.len() == 0 {
                    texts_view(vals@)
                } else {
                    self@.default_values
                },
                values: texts_view(vals@),
                ..self@
            }),
    {
        let mut s = self;
        s.value = first_of(&vals);
        if s.default_values.len() == 0 {
            s.default_value = clone_opt(&s.value);
            s.default_values = clone_values(&vals);
        }
        s.values = vals;
        s
    }

    /// Sets the defaults; they are also chosen when nothing was chosen.
    pub fn with_default_values(self, vals: Vec<String>) -> (s: Self)
        ensures
            s@ == (SelectView {
                default_values: texts_view(vals@),
                value: if self@.values.len() == 0 {
                    first_value(texts_view(vals@))
                } else {
                    self@.value
                },
                default_value: if self@.values.len() == 0 {
                    first_value(texts_view(vals@))
                } else {
                    self@.default_value
                },
                values: if self@.values.len() == 0 {
                    texts_view(vals@)
                } else {
                    self@.values
                },
                ..self@
            }),
    {
        let mut s = self;
        s.default_values = clone_values(&vals);
        if s.values.len() == 0 {
            s.value = first_of(&vals);
            s.default_value = clone_opt(&s.value);
            s.values = vals;
        }
        s
    }

    pub fn with_open(self, open: bool) -> (s: Self)
        ensures
            s@ == (SelectView { open, ..self@ }),
    {
        Select { open, ..self }
    }

    pub fn with_allow_deselect(self, allow: bool) -> (s: Self)
        ensures
            s@ == (SelectView { mode: SelectMode::Single { allow_deselect: allow }, ..self@ }),
    {
        Select { mode: SelectMode::Single { allow_deselect: allow }, ..self }
    }

    pub fn with_disabled(self, disabled: bool) -> (s: Self)
        ensures
            s@ == (SelectView { disabled, ..self@ }),
    {
        Select { disabled, ..self }
    }

    pub fn with_required(self, required: bool) -> (s: Self)
        ensures
            s@ == (SelectView { required, ..self@ }),
    {
        Select { required, ..self }
    }

    pub fn with_name(self, name: String) -> (s: Self)
        ensures
            s@ == (SelectView { name: Some(name@), ..self@ }),
    {
        Select { name: Some(name), ..self }
    }

    pub fn with_form(self, form: String) -> (s: Self)
        ensures
            s@ == (SelectView { form: Some(form@), ..self@ }),
    {
        Select { form: Some(form), ..self }
    }

    pub fn with_autocomplete(self, autocomplete: String) -> (s: Self)
        ensures
            s@ == (SelectView { autocomplete: Some(autocomplete@), ..self@ }),
    {
        Select { autocomplete: Some(autocomplete), ..self }
    }

    pub fn with_items(self, items: Vec<SelectItemData>) -> (s: Self)
        ensures
            s@ == (SelectView { items: items@, ..self@ }),
    {
        Select { items, ..self }
    }

    pub fn with_loop(self, loop_selection: bool) -> (s: Self)
        ensures
            s@ == (SelectView { loop_selection, ..self@ }),
    {
        Select { loop_selection, ..self }
    }

    pub fn with_portal_host(self, portal_host: PortalHost) -> (s: Self)
        ensures
            s@ == (SelectView { portal_host: portal_host@, ..self@ }),
    {
        Select { portal_host, ..self }
    }

    pub fn mode(&self) -> (m: SelectMode)
        ensures
            m == self@.mode,
    {
        self.mode
    }

    pub fn is_multiple(&self) -> (b: bool)
        ensures
            b == (self@.mode == SelectMode::Multiple),
    {
        self.mode.is_multiple()
    }

    pub fn portal_host(&self) -> (h: &PortalHost)
        ensures
            h@ == self@.portal_host,
    {
        &self.portal_host
    }

    pub fn portal_attributes(&self) -> (a: SelectPortalAttributes)
        ensures
            a.host@ == self@.portal_host,
    {
        SelectPortalAttributes { host: self.portal_host.clone() }
    }

    pub fn relationships(&self) -> (r: &SelectRelationships)
        ensures
            r@ == self@.relationships,
    {
        &self.relationships
    }

    pub fn value(&self) -> (v: Option<&str>)
        ensures
            match v {
                Some(t) => self@.value == Some(t@),
                None => self@.value is None,
            },
    {
        match &self.value {
            Some(v) => Some(v.as_str()),
            None => None,
        }
    }

    pub fn default_value(&self) -> (v: Option<&str>)
        ensures
            match v {
                Some(t) => self@.default_value == Some(t@),
                None => self@.default_value is None,
            },
    {
        match &self.default_value {
            Some(v) => Some(v.as_str()),
            None => None,
        }
    }

    pub fn values(&self) -> (v: &[String])
        ensures
            texts_view(v@) == self@.values,
    {
        self.values.as_slice()
    }

    pub fn default_values(&self) -> (v: &[String])
        ensures
            texts_view(v@) == self@.default_values,
    {
        self.default_values.as_slice()
    }

    pub fn items(&self) -> (v: &[SelectItemData])
        ensures
            v@ == self@.items,
    {
        self.items.as_slice()
    }

    pub fn loop_selection(&self) -> (b: bool)
        ensures
            b == self@.loop_selection,
    {
        self.loop_selection
    }

    pub fn is_open(&self) -> (b: bool)
        ensures
            b == self@.open,
    {
        self.open
    }

    /// Only a single-value select that allows it can have its value chosen away.
    pub fn allows_deselect(&self) -> (b: bool)
        ensures
            b == (self@.mode == SelectMode::Single { allow_deselect: true }),
    {
        match self.mode {
            SelectMode::Single { allow_deselect } => allow_deselect,
            SelectMode::Multiple => false,
        }
    }

    pub fn is_disabled(&self) -> (b: bool)
        ensures
            b == self@.disabled,
    {
        self.disabled
    }

    pub fn is_required(&self) -> (b: bool)
        ensures
            b == self@.required,
    {
        self.required
    }

    pub fn name(&self) -> (v: Option<&str>)
        ensures
            match v {
                Some(t) => self@.name == Some(t@),
                None => self@.name is None,
            },
    {
        match &self.name {
            Some(v) => Some(v.as_str()),
            None => None,
        }
    }

    pub fn form(&self) -> (v: Option<&str>)
        ensures
            match v {
                Some(t) => self@.form == Some(t@),
                None => self@.form is None,
            },
    {
        match &self.form {
            Some(v) => Some(v.as_str()),
            None => None,
        }
    }

    pub fn autocomplete(&self) -> (v: Option<&str>)
        ensures
            match v {
                Some(t) => self@.autocomplete == Some(t@),
                None => self@.autocomplete is None,
            },
    {
        match &self.autocomplete {
            Some(v) => Some(v.as_str()),
            None => None,
        }
    }

    pub fn root_attributes(&self) -> (a: SelectRootAttributes)
        ensures
            a.id@ == self@.relationships.root_id,
            a.data_state == self@.data_state(),
            a.disabled == self@.disabled,
    {
        SelectRootAttributes {
            id: self.relationships.root_id().to_owned(),
            data_state: if self.open {
                DataState::Open
            } else {
                DataState::Closed
            },
            disabled: self.disabled,
        }
    }

    fn is_placeholder(&self) -> (b: bool)
        ensures
            b == self@.is_placeholder(),
    {
        match self.mode {
            SelectMode::Single { .. } => match &self.value {
                None => true,
                Some(v) => {
                    proof {
                        reveal_strlit("");
                        assert(""@ =~= Seq::<char>::empty());
                    }
                    text_eq(v.as_str(), "")
                },
            },
            SelectMode::Multiple => self.values.len() == 0,
        }
    }

    /// The trigger is a combobox controlling the listbox content, focusable unless disabled.
    pub fn trigger_attributes(&self) -> (a: SelectTriggerAttributes)
        ensures
            a.id@ == self@.relationships.trigger_id,
            a.role@ == "combobox"@,
            a.aria_haspopup@ == "listbox"@,
            a.aria_expanded@ == (if self@.open {
                "true"@
            } else {
                "false"@
            }),
            a.aria_controls@ == self@.relationships.content_id,
            opt_str_view(a.aria_disabled) == (if self@.disabled {
                Some("true"@)
            } else {
                None
            }),
            opt_str_view(a.aria_required) == (if self@.required {
                Some("true"@)
            } else {
                None
            }),
            a.data_state == self@.data_state(),
            a.data_placeholder == self@.is_placeholder(),
            a.disabled == self@.disabled,
            a.tabindex == (if self@.disabled {
                -1i32
            } else {
                0i32
            }),
    {
        proof {
            reveal_strlit("combobox");
            reveal_strlit("listbox");
        }
        SelectTriggerAttributes {
            id: self.relationships.trigger_id().to_owned(),
            role: "combobox",
            aria_haspopup: "listbox",
            aria_expanded: if self.open {
                "true"
            } else {
                "false"
            },
            aria_controls: self.relationships.content_id().to_owned(),
            aria_disabled: if self.disabled {
                Some("true")
            } else {
                None
            },
            aria_required: if self.required {
                Some("true")
            } else {
                None
            },
            data_state: if self.open {
                DataState::Open
            } else {
                DataState::Closed
            },
            data_placeholder: self.is_placeholder(),
            disabled: self.disabled,
            tabindex: if self.disabled {
                -1
            } else {
                0
            },
        }
    }

    pub fn content_attributes(&self, activedescendant: Option<String>) -> (a:
        SelectContentAttributes)
        ensures
            a.id@ == self@.relationships.content_id,
            a.role@ == "listbox"@,
            a.tabindex == -1,
            a.aria_activedescendant == activedescendant,
            a.data_state == self@.data_state(),
            a.data_side == PlacementSide::Bottom,
            a.data_align == PlacementAlign::Start,
            !a.reference_hidden,
    {
        self.content_attributes_with_side_and_align(
            activedescendant,
            PlacementSide::Bottom,
            PlacementAlign::Start,
        )
    }

    pub fn content_attributes_with_side(
        &self,
        activedescendant: Option<String>,
        side: PlacementSide,
    ) -> (a: SelectContentAttributes)
        ensures
            a.id@ == self@.relationships.content_id,
            a.role@ == "listbox"@,
            a.tabindex == -1,
            a.aria_activedescendant == activedescendant,
            a.data_state == self@.data_state(),
            a.data_side == side,
            a.data_align == PlacementAlign::Start,
            !a.reference_hidden,
    {
        self.content_attributes_with_side_and_align(activedescendant, side, PlacementAlign::Start)
    }

    /// The content is a listbox reporting the highlighted option as active descendant.
    pub fn content_attributes_with_side_and_align(
        &self,
        activedescendant: Option<String>,
        side: PlacementSide,
        align: PlacementAlign,
    ) -> (a: SelectContentAttributes)
        ensures
            a.id@ == self@.relationships.content_id,
            a.role@ == "listbox"@,
            a.tabindex == -1,
            a.aria_activedescendant == activedescendant,
            a.data_state == self@.data_state(),
            a.data_side == side,
            a.data_align == align,
            !a.reference_hidden,
    {
        proof {
            reveal_strlit("listbox");
        }
        SelectContentAttributes {
            id: self.relationships.content_id().to_owned(),
            role: "listbox",
            tabindex: -1,
            aria_activedescendant: activedescendant,
            data_state: if self.open {
                DataState::Open
            } else {
                DataState::Closed
            },
            data_side: side,
            data_align: align,
            reference_hidden: false,
        }
    }

    /// Whether the non-empty `item_val` is chosen.
    pub fn is_item_selected(&self, item_val: &str) -> (b: bool)
        ensures
            b == self@.is_item_selected(item_val@),
    {
        proof {
            reveal_strlit("");
            assert(item_val@.len() == 0 ==> item_val@ =~= ""@);
        }
        let non_empty = !text_eq(item_val, "");
        let chosen = match self.mode {
            SelectMode::Single { .. } => match &self.value {
                Some(v) => text_eq(v.as_str(), item_val),
                None => false,
            },
            SelectMode::Multiple => contains_text(self.values.as_slice(), item_val),
        };
        chosen && non_empty
    }

    /// An option reports whether it is chosen, and is disabled with its select.
    pub fn item_attributes(&self, item_val: &str, is_highlighted: bool, disabled: bool) -> (a:
        SelectItemAttributes)
        ensures
            a.id@ == self@.relationships.spec_item_id(item_val@),
            a.role@ == "option"@,
            a.aria_selected@ == (if self@.is_item_selected(item_val@) {
                "true"@
            } else {
                "false"@
            }),
            opt_str_view(a.aria_disabled) == (if self@.disabled || disabled {
                Some("true"@)
            } else {
                None
            }),
            a.data_state@ == (if self@.is_item_selected(item_val@) {
                "checked"@
            } else {
                "unchecked"@
            }),
            a.is_highlighted == is_highlighted,
            a.disabled == (self@.disabled || disabled),
            a.value@ == item_val@,
            a.label@ == item_val@,
    {
        proof {
            reveal_strlit("option");
        }
        let is_selected = self.is_item_selected(item_val);
        let eff_disabled = self.disabled || disabled;
        SelectItemAttributes {
            id: self.relationships.item_id(item_val),
            role: "option",
            aria_selected: if is_selected {
                "true"
            } else {
                "false"
            },
            aria_disabled: if eff_disabled {
                Some("true")
            } else {
                None
            },
            data_state: if is_selected {
                "checked"
            } else {
                "unchecked"
            },
            is_highlighted,
            disabled: eff_disabled,
            value: item_val.to_owned(),
            label: item_val.to_owned(),
        }
    }
}

} // verus!
