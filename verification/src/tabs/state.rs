use vstd::prelude::*;
use crate::foundation::{
    roving::{
        first_index, lemma_first_index_bounds, lemma_target_is_item, spec_intent, spec_target, Direction, Orientation, RovingFocusController, RovingFocusKey,
    },
    shared::{text_eq, texts_view, ScopeHandle},
    state::DataState,
};
use super::{
    attrs::{
        TabsContentAttributes, TabsContentAttributesView, TabsListAttributes,
        TabsListAttributesView, TabsRootAttributes, TabsRootAttributesView, TabsTriggerAttributes,
        TabsTriggerAttributesView,
    },
    relationships::{TabsRelationships, TabsRelationshipsView},
    types::{
        TabsActivationMode, TabsDirection, TabsOrientation, TabsPart, TriggerRegistration,
        TABS_PARTS,
    },
};

verus! {

pub open spec fn spec_orientation(o: TabsOrientation) -> Orientation {
    match o {
        TabsOrientation::Horizontal => Orientation::Horizontal,
        TabsOrientation::Vertical => Orientation::Vertical,
    }
}

pub open spec fn spec_direction(d: TabsDirection) -> Direction {
    match d {
        TabsDirection::Ltr => Direction::Ltr,
        TabsDirection::Rtl => Direction::Rtl,
    }
}

/// The roving key a key name stands for; Page Up and Page Down act as Home and End.
pub open spec fn spec_key(key: Seq<char>) -> Option<RovingFocusKey> {
    if key == "ArrowLeft"@ {
        Some(RovingFocusKey::ArrowLeft)
    } else if key == "ArrowRight"@ {
        Some(RovingFocusKey::ArrowRight)
    } else if key == "ArrowUp"@ {
        Some(RovingFocusKey::ArrowUp)
    } else if key == "ArrowDown"@ {
        Some(RovingFocusKey::ArrowDown)
    } else if key == "Home"@ || key == "PageUp"@ {
        Some(RovingFocusKey::Home)
    } else if key == "End"@ || key == "PageDown"@ {
        Some(RovingFocusKey::End)
    } else {
        None
    }
}

/// The values of the enabled triggers, in registration order.
pub open spec fn enabled_values(triggers: Seq<TriggerRegistration>) -> Seq<Seq<char>>
    decreases triggers.len(),
{
    if triggers.len() == 0 {
        Seq::empty()
    } else {
        let rest = enabled_values(triggers.drop_last());
        if triggers.last().disabled {
            rest
        } else {
            rest.push(triggers.last().value@)
        }
    }
}

/// The model of a tabs widget.
pub struct TabsView {
    pub relationships: TabsRelationshipsView,
    pub orientation: TabsOrientation,
    pub dir: TabsDirection,
    pub activation_mode: TabsActivationMode,
    pub loop_focus: bool,
    pub disabled: bool,
    pub active_value: Seq<char>,
    pub current_tab_stop: Seq<char>,
}

impl TabsView {
    /// The trigger a key press moves to from `current`, if any.
    pub open spec fn spec_navigation(
        self,
        triggers: Seq<TriggerRegistration>,
        current: Seq<char>,
        key: Seq<char>,
    ) -> Option<Seq<char>> {
        if self.disabled {
            None
        } else {
            match spec_key(key) {
                None => None,
                Some(k) => match spec_intent(
                    k,
                    spec_orientation(self.orientation),
                    spec_direction(self.dir),
                ) {
                    None => None,
                    Some(intent) => spec_target(
                        enabled_values(triggers),
                        current,
                        intent,
                        self.loop_focus,
                    ),
                },
            }
        }
    }

    pub open spec fn spec_root(self) -> TabsRootAttributesView {
        TabsRootAttributesView {
            id: self.relationships.root_id,
            data_orientation: self.orientation.spec_text(),
        }
    }

    pub open spec fn spec_list(self) -> TabsListAttributesView {
        TabsListAttributesView {
            id: self.relationships.list_id,
            role: "tablist"@,
            aria_orientation: self.orientation.spec_text(),
            data_orientation: self.orientation.spec_text(),
            disabled: self.disabled,
        }
    }

    /// The trigger of `value` is selected when it is the active tab, and is the one focusable
    /// trigger when it is the tab stop and neither it nor the widget is disabled.
    pub open spec fn spec_trigger(self, value: Seq<char>, trigger_disabled: bool) -> TabsTriggerAttributesView {
        TabsTriggerAttributesView {
            id: self.relationships.spec_trigger_id(value),
            role: "tab"@,
            is_selected: self.active_value == value,
            aria_selected: if self.active_value == value {
                "true"@
            } else {
                "false"@
            },
            aria_controls: self.relationships.spec_content_id(value),
            tabindex: if self.current_tab_stop == value && !(self.disabled || trigger_disabled) {
                0i32
            } else {
                -1i32
            },
            data_state: if self.active_value == value {
                DataState::Active
            } else {
                DataState::Inactive
            },
            data_orientation: self.orientation.spec_text(),
            data_value: value,
            disabled: self.disabled || trigger_disabled,
        }
    }

    /// The panel of `value` is labelled by its trigger and hidden unless its tab is active.
    pub open spec fn spec_content(self, value: Seq<char>) -> TabsContentAttributesView {
        TabsContentAttributesView {
            id: self.relationships.spec_content_id(value),
            role: "tabpanel"@,
            aria_labelledby: self.relationships.spec_trigger_id(value),
            tabindex: 0,
            hidden: self.active_value != value,
            data_state: if self.active_value == value {
                DataState::Active
            } else {
                DataState::Inactive
            },
            data_orientation: self.orientation.spec_text(),
            data_value: value,
        }
    }
}

/// A tabs widget: its ids, its layout and keyboard settings, the selected tab and the tab stop.
#[derive(Debug, PartialEq, Eq)]
pub struct Tabs {
    pub(crate) relationships: TabsRelationships,
    pub(crate) orientation: TabsOrientation,
    pub(crate) dir: TabsDirection,
    pub(crate) activation_mode: TabsActivationMode,
    pub(crate) loop_focus: bool,
    pub(crate) disabled: bool,
    pub(crate) active_value: String,
    pub(crate) current_tab_stop: String,
}

impl Clone for Tabs {
    fn clone(&self) -> (r: Self)
        ensures
            r@ == self@,
    {
        Tabs {
            relationships: self.relationships.clone(),
            orientation: self.orientation,
            dir: self.dir,
            activation_mode: self.activation_mode,
            loop_focus: self.loop_focus,
            disabled: self.disabled,
            active_value: self.active_value.clone(),
            current_tab_stop: self.current_tab_stop.clone(),
        }
    }
}

impl View for Tabs {
    type V = TabsView;

    open(crate) spec fn view(&self) -> TabsView {
        TabsView {
            relationships: self.relationships@,
            orientation: self.orientation,
            dir: self.dir,
            activation_mode: self.activation_mode,
            loop_focus: self.loop_focus,
            disabled: self.disabled,
            active_value: self.active_value@,
            current_tab_stop: self.current_tab_stop@,
        }
    }
}

fn enabled_trigger_values(triggers: &[TriggerRegistration]) -> (values: Vec<String>)
    ensures
        texts_view(values@) == enabled_values(triggers@),
{
    let mut values: Vec<String> = Vec::new();
    let mut i: usize = 0;
    while i < triggers.len()
        invariant
            0 <= i <= triggers@.len(),
            texts_view(values@) == enabled_values(triggers@.take(i as int)),
        decreases triggers@.len() - i,
    {
        assert(triggers@.take(i + 1).drop_last() =~= triggers@.take(i as int));
        if !triggers[i].disabled {
            let ghost before = values@;
            values.push(triggers[i].value.clone());
            assert(texts_view(values@) =~= texts_view(before).push(triggers@[i as int].value@));
        }
        i = i + 1;
    }
    assert(triggers@.take(triggers@.len() as int) =~= triggers@);
    values
}

fn key_of(key: &str) -> (k: Option<RovingFocusKey>)
    ensures
        k == spec_key(key@),
{
    if text_eq(key, "ArrowLeft") {
        Some(RovingFocusKey::ArrowLeft)
    } else if text_eq(key, "ArrowRight") {
        Some(RovingFocusKey::ArrowRight)
    } else if text_eq(key, "ArrowUp") {
        Some(RovingFocusKey::ArrowUp)
    } else if text_eq(key, "ArrowDown") {
        Some(RovingFocusKey::ArrowDown)
    } else if text_eq(key, "Home") || text_eq(key, "PageUp") {
        Some(RovingFocusKey::Home)
    } else if text_eq(key, "End") || text_eq(key, "PageDown") {
        Some(RovingFocusKey::End)
    } else {
        None
    }
}

impl Tabs {
    /// A horizontal, left-to-right, automatically activating, looping tabs widget with
    /// `initial_value` selected and as tab stop.
    pub fn new(scope: ScopeHandle, initial_value: String) -> (t: Self)
        ensures
            t@.relationships.scope == scope@,
            t@.relationships.wf(),
            t@.orientation == TabsOrientation::Horizontal,
            t@.dir == TabsDirection::Ltr,
            t@.activation_mode == TabsActivationMode::Automatic,
            t@.loop_focus,
            !t@.disabled,
            t@.active_value == initial_value@,
            t@.current_tab_stop == initial_value@,
    {
        Tabs {
            relationships: TabsRelationships::new(scope),
            orientation: TabsOrientation::Horizontal,
            dir: TabsDirection::Ltr,
            activation_mode: TabsActivationMode::Automatic,
            loop_focus: true,
            disabled: false,
            active_value: initial_value.clone(),
            current_tab_stop: initial_value,
        }
    }

    pub fn parts() -> (parts: &'static [TabsPart])
        ensures
            parts@ == seq![TabsPart::Root, TabsPart::List, TabsPart::Trigger, TabsPart::Content],
    {
        &TABS_PARTS
    }

    pub fn relationships(&self) -> (r: &TabsRelationships)
        ensures
            r@ == self@.relationships,
    {
        &self.relationships
    }

    pub fn orientation(&self) -> (o: TabsOrientation)
        ensures
            o == self@.orientation,
    {
        self.orientation
    }

    pub fn dir(&self) -> (d: TabsDirection)
        ensures
            d == self@.dir,
    {
        self.dir
    }

    pub fn activation_mode(&self) -> (m: TabsActivationMode)
        ensures
            m == self@.activation_mode,
    {
        self.activation_mode
    }

    pub fn loop_focus(&self) -> (b: bool)
        ensures
            b == self@.loop_focus,
    {
        self.loop_focus
    }

    pub fn is_disabled(&self) -> (b: bool)
        ensures
            b == self@.disabled,
    {
        self.disabled
    }

    pub fn active_value(&self) -> (s: &str)
        ensures
            s@ == self@.active_value,
    {
        self.active_value.as_str()
    }

    pub fn current_tab_stop(&self) -> (s: &str)
        ensures
            s@ == self@.current_tab_stop,
    {
        self.current_tab_stop.as_str()
    }

    pub fn with_orientation(self, orientation: TabsOrientation) -> (t: Self)
        ensures
            t@ == (TabsView { orientation, ..self@ }),
    {
        Tabs { orientation, ..self }
    }

    pub fn with_direction(self, dir: TabsDirection) -> (t: Self)
        ensures
            t@ == (TabsView { dir, ..self@ }),
    {
        Tabs { dir, ..self }
    }

    pub fn with_activation_mode(self, mode: TabsActivationMode) -> (t: Self)
        ensures
            t@ == (TabsView { activation_mode: mode, ..self@ }),
    {
        Tabs { activation_mode: mode, ..self }
    }

    pub fn with_loop_focus(self, loop_focus: bool) -> (t: Self)
        ensures
            t@ == (TabsView { loop_focus, ..self@ }),
    {
        Tabs { loop_focus, ..self }
    }

    pub fn with_disabled(self, disabled: bool) -> (t: Self)
        ensures
            t@ == (TabsView { disabled, ..self@ }),
    {
        Tabs { disabled, ..self }
    }

    pub fn set_tab_stop(&mut self, value: String)
        ensures
            final(self)@ == (TabsView { current_tab_stop: value@, ..old(self)@ }),
    {
        self.current_tab_stop = value;
    }

    /// Selects `value` and makes it the tab stop; says whether the selection changed.
    pub fn select_tab(&mut self, value: String) -> (changed: bool)
        ensures
            changed == (old(self)@.active_value != value@),
            final(self)@ == (TabsView {
                active_value: value@,
                current_tab_stop: value@,
                ..old(self)@
            }),
    {
        let changed = !text_eq(self.active_value.as_str(), value.as_str());
        self.active_value = value.clone();
        self.current_tab_stop = value;
        changed
    }

    /// The keys that move between triggers.
    pub open spec fn spec_is_navigation_key(key: Seq<char>) -> bool {
        spec_key(key) is Some
    }

    pub fn is_navigation_key(key: &str) -> (b: bool)
        ensures
            b == Self::spec_is_navigation_key(key@),
    {
        key_of(key).is_some()
    }

    /// The trigger that `key` moves to from `current_tab_stop` among the enabled registered
    /// triggers, following the orientation, reading direction and looping of the widget;
    /// nothing when the widget is disabled, the key does not navigate, or no move is possible.
    pub fn resolve_key_navigation(
        &self,
        registered_triggers: &[TriggerRegistration],
        current_tab_stop: &str,
        key: &str,
    ) -> (r: Option<String>)
        ensures
            match self@.spec_navigation(registered_triggers@, current_tab_stop@, key@) {
                Some(t) => r matches Some(s) && s@ == t,
                None => r is None,
            },
    {
        if self.disabled {
            return None;
        }
        let roving_key = match key_of(key) {
            Some(k) => k,
            None => return None,
        };
        let values = enabled_trigger_values(registered_triggers);
        let controller = RovingFocusController::new(self.dir.into()).with_orientation(
            self.orientation.into(),
        ).with_looping(self.loop_focus);
        controller.navigate(&values, current_tab_stop, roving_key)
    }

    pub fn root(&self) -> (a: TabsRootAttributes)
        ensures
            a@ == self@.spec_root(),
            a@.id == self@.relationships.root_id,
            a@.data_orientation == self@.orientation.spec_text(),
    {
        TabsRootAttributes {
            id: self.relationships.root_id().to_owned(),
            data_orientation: self.orientation.as_str(),
        }
    }

    pub fn list(&self) -> (a: TabsListAttributes)
        ensures
            a@ == self@.spec_list(),
            a@.id == self@.relationships.list_id,
            a@.role == "tablist"@,
            a@.aria_orientation == self@.orientation.spec_text(),
            a@.data_orientation == self@.orientation.spec_text(),
            a@.disabled == self@.disabled,
    {
        proof {
            reveal_strlit("tablist");
        }
        TabsListAttributes {
            id: self.relationships.list_id().to_owned(),
            role: "tablist",
            aria_orientation: self.orientation.as_str(),
            data_orientation: self.orientation.as_str(),
            disabled: self.disabled,
        }
    }

    /// The trigger of `value` is selected when it is the active tab, and is the one focusable
    /// trigger when it is the tab stop and neither it nor the widget is disabled.
    pub fn trigger(&self, value: &str, trigger_disabled: bool) -> (a: TabsTriggerAttributes)
        ensures
            a@ == self@.spec_trigger(value@, trigger_disabled),
            a@.id == self@.relationships.spec_trigger_id(value@),
            a@.role == "tab"@,
            a@.is_selected == (self@.active_value == value@),
            a@.aria_selected == (if self@.active_value == value@ {
                "true"@
            } else {
                "false"@
            }),
            a@.aria_controls == self@.relationships.spec_content_id(value@),
            a@.tabindex == (if self@.current_tab_stop == value@ && !(self@.disabled
                || trigger_disabled) {
                0i32
            } else {
                -1i32
            }),
            a@.data_state == (if self@.active_value == value@ {
                DataState::Active
            } else {
                DataState::Inactive
            }),
            a@.data_orientation == self@.orientation.spec_text(),
            a@.data_value == value@,
            a@.disabled == (self@.disabled || trigger_disabled),
    {
        proof {
            reveal_strlit("tab");
        }
        let is_selected = text_eq(self.active_value.as_str(), value);
        let is_tab_stop = text_eq(self.current_tab_stop.as_str(), value);
        let effective_disabled = self.disabled || trigger_disabled;
        let tabindex: i32 = if is_tab_stop && !effective_disabled {
            0
        } else {
            -1
        };
        TabsTriggerAttributes {
            id: self.relationships.trigger_id(value),
            role: "tab",
            is_selected,
            aria_selected: if is_selected {
                "true"
            } else {
                "false"
            },
            aria_controls: self.relationships.content_id(value),
            tabindex,
            data_state: if is_selected {
                DataState::Active
            } else {
                DataState::Inactive
            },
            data_orientation: self.orientation.as_str(),
            data_value: value.to_owned(),
            disabled: effective_disabled,
        }
    }

    /// The panel of `value` is labelled by its trigger and hidden unless its tab is active.
    pub fn content(&self, value: &str) -> (a: TabsContentAttributes)
        ensures
            a@ == self@.spec_content(value@),
            a@.id == self@.relationships.spec_content_id(value@),
            a@.role == "tabpanel"@,
            a@.aria_labelledby == self@.relationships.spec_trigger_id(value@),
            a@.tabindex == 0,
            a@.hidden == (self@.active_value != value@),
            a@.data_state == (if self@.active_value == value@ {
                DataState::Active
            } else {
                DataState::Inactive
            }),
            a@.data_orientation == self@.orientation.spec_text(),
            a@.data_value == value@,
    {
        proof {
            reveal_strlit("tabpanel");
        }
        let is_active = text_eq(self.active_value.as_str(), value);
        TabsContentAttributes {
            id: self.relationships.content_id(value),
            role: "tabpanel",
            aria_labelledby: self.relationships.trigger_id(value),
            tabindex: 0,
            hidden: !is_active,
            data_state: if is_active {
                DataState::Active
            } else {
                DataState::Inactive
            },
            data_orientation: self.orientation.as_str(),
            data_value: value.to_owned(),
        }
    }
}

/// After a selection the selected tab is also the tab stop, and selecting it again reports
/// no change.
pub proof fn lemma_select_is_idempotent(tabs: TabsView, value: Seq<char>)
    ensures
        (TabsView { active_value: value, current_tab_stop: value, ..tabs }).active_value == value,
        (TabsView { active_value: value, current_tab_stop: value, ..tabs }).current_tab_stop
            == value,
{
}

/// With navigation disabled on the widget, no key moves focus.
pub proof fn lemma_disabled_tabs_do_not_navigate(
    tabs: TabsView,
    triggers: Seq<TriggerRegistration>,
    current: Seq<char>,
    key: Seq<char>,
)
    requires
        tabs.disabled,
    ensures
        tabs.spec_navigation(triggers, current, key) is None,
{
}

/// Navigation only ever lands on an enabled registered trigger.
pub proof fn lemma_navigation_lands_on_enabled_trigger(
    tabs: TabsView,
    triggers: Seq<TriggerRegistration>,
    current: Seq<char>,
    key: Seq<char>,
)
    ensures
        tabs.spec_navigation(triggers, current, key) matches Some(t) ==> enabled_values(
            triggers,
        ).contains(t),
{
    if !tabs.disabled {
        if let Some(k) = spec_key(key) {
            if let Some(intent) = spec_intent(
                k,
                spec_orientation(tabs.orientation),
                spec_direction(tabs.dir),
            ) {
                lemma_target_is_item(enabled_values(triggers), current, intent, tabs.loop_focus);
            }
        }
    }
}

/// The arrows along the tab list step to the neighbouring enabled trigger: on vertical tabs
/// ArrowDown goes to the trigger after the tab stop and ArrowUp to the one before it; on
/// horizontal tabs read left to right ArrowRight goes forward and ArrowLeft back, and reading
/// right to left swaps the two. Arrows across the list move nothing.
pub proof fn lemma_arrows_step_to_neighbouring_trigger(
    tabs: TabsView,
    triggers: Seq<TriggerRegistration>,
    current: Seq<char>,
)
    requires
        !tabs.disabled,
        0 <= first_index(enabled_values(triggers), current),
    ensures
        ({
            let e = enabled_values(triggers);
            let ci = first_index(e, current);
            let down = tabs.spec_navigation(triggers, current, "ArrowDown"@);
            let up = tabs.spec_navigation(triggers, current, "ArrowUp"@);
            let right = tabs.spec_navigation(triggers, current, "ArrowRight"@);
            let left = tabs.spec_navigation(triggers, current, "ArrowLeft"@);
            let forward = if ci + 1 < e.len() {
                Some(e[ci + 1])
            } else if tabs.loop_focus {
                Some(e[0])
            } else {
                None
            };
            let backward = if ci > 0 {
                Some(e[ci - 1])
            } else if tabs.loop_focus {
                Some(e[e.len() - 1])
            } else {
                None
            };
            &&& current == e[ci]
            &&& tabs.orientation == TabsOrientation::Vertical ==> down == forward && up == backward
                && right is None && left is None
            &&& tabs.orientation == TabsOrientation::Horizontal ==> down is None && up is None
            &&& tabs.orientation == TabsOrientation::Horizontal && tabs.dir == TabsDirection::Ltr
                ==> right == forward && left == backward
            &&& tabs.orientation == TabsOrientation::Horizontal && tabs.dir == TabsDirection::Rtl
                ==> right == backward && left == forward
        }),
{
    reveal_strlit("ArrowLeft");
    reveal_strlit("ArrowRight");
    reveal_strlit("ArrowUp");
    reveal_strlit("ArrowDown");
    reveal_strlit("Home");
    reveal_strlit("PageUp");
    reveal_strlit("End");
    reveal_strlit("PageDown");
    lemma_first_index_bounds(enabled_values(triggers), current);
    assert("ArrowDown"@ != "ArrowLeft"@) by {
        assert("ArrowDown"@[5] != "ArrowLeft"@[5]);
    }
    assert("ArrowDown"@ != "ArrowRight"@) by {
        assert("ArrowDown"@.len() != "ArrowRight"@.len());
    }
    assert("ArrowDown"@ != "ArrowUp"@) by {
        assert("ArrowDown"@.len() != "ArrowUp"@.len());
    }
    assert("ArrowUp"@ != "ArrowLeft"@) by {
        assert("ArrowUp"@.len() != "ArrowLeft"@.len());
    }
    assert("ArrowUp"@ != "ArrowRight"@) by {
        assert("ArrowUp"@.len() != "ArrowRight"@.len());
    }
    assert("ArrowRight"@ != "ArrowLeft"@) by {
        assert("ArrowRight"@.len() != "ArrowLeft"@.len());
    }
    assert(spec_key("ArrowDown"@) == Some(RovingFocusKey::ArrowDown));
    assert(spec_key("ArrowUp"@) == Some(RovingFocusKey::ArrowUp));
    assert(spec_key("ArrowRight"@) == Some(RovingFocusKey::ArrowRight));
    assert(spec_key("ArrowLeft"@) == Some(RovingFocusKey::ArrowLeft));
}

} // verus!
