use vstd::prelude::*;
use crate::foundation::shared::text_eq;
use super::{
    attrs::{TabsContentAttributes, TabsListAttributes, TabsRootAttributes, TabsTriggerAttributes},
    relationships::TabsRelationships,
    state::{Tabs, TabsView},
    types::{TabsActivationMode, TriggerRegistration},
};

verus! {

/// `k` is the first registration of `value`.
pub open spec fn is_first_registration(triggers: Seq<TriggerRegistration>, value: Seq<char>, k: int) -> bool {
    &&& 0 <= k < triggers.len()
    &&& triggers[k].value@ == value
    &&& forall|j: int| 0 <= j < k ==> #[trigger] triggers[j].value@ != value
}

pub open spec fn is_registered(triggers: Seq<TriggerRegistration>, value: Seq<char>) -> bool {
    exists|k: int| 0 <= k < triggers.len() && #[trigger] triggers[k].value@ == value
}

pub open spec fn first_registration(triggers: Seq<TriggerRegistration>, value: Seq<char>) -> int {
    choose|k: int| is_first_registration(triggers, value, k)
}

/// The registrations other than those of `value`, in order.
pub open spec fn without_value(triggers: Seq<TriggerRegistration>, value: Seq<char>) -> Seq<
    TriggerRegistration,
>
    decreases triggers.len(),
{
    if triggers.len() == 0 {
        Seq::empty()
    } else {
        let rest = without_value(triggers.drop_last(), value);
        if triggers.last().value@ == value {
            rest
        } else {
            rest.push(triggers.last())
        }
    }
}

/// Registers the trigger of `value`, or updates the disabled flag of its first registration.
pub fn register_trigger(triggers: &mut Vec<TriggerRegistration>, value: &str, disabled: bool)
    ensures
        is_registered(old(triggers)@, value@) ==> {
            let k = first_registration(old(triggers)@, value@);
            &&& is_first_registration(old(triggers)@, value@, k)
            &&& final(triggers)@ == old(triggers)@.update(
                k,
                TriggerRegistration { disabled, ..old(triggers)@[k] },
            )
        },
        !is_registered(old(triggers)@, value@) ==> final(triggers)@.len() == old(triggers)@.len()
            + 1 && final(triggers)@.drop_last() == old(triggers)@ && final(triggers)@.last().value@
            == value@ && final(triggers)@.last().disabled == disabled,
{
    let mut i: usize = 0;
    while i < triggers.len()
        invariant
            0 <= i <= triggers@.len(),
            triggers@ == old(triggers)@,
            forall|j: int| 0 <= j < i ==> #[trigger] triggers@[j].value@ != value@,
        decreases triggers@.len() - i,
    {
        if text_eq(triggers[i].value.as_str(), value) {
            let mut entry = triggers[i].clone();
            entry.disabled = disabled;
            triggers.set(i, entry);
            proof {
                let p = |j: int| is_first_registration(old(triggers)@, value@, j);
                assert(p(i as int));
                let c = first_registration(old(triggers)@, value@);
                assert(p(c));
                if c < i {
                    assert(old(triggers)@[c].value@ != value@);
                }
                if i < c {
                    assert(old(triggers)@[i as int].value@ != value@);
                }
            }
            return;
        }
        i = i + 1;
    }
    triggers.push(TriggerRegistration { value: value.to_owned(), disabled });
    assert(triggers@.drop_last() =~= old(triggers)@);
}

/// Drops every registration of `value`, keeping the others in order.
pub fn unregister_trigger(triggers: &mut Vec<TriggerRegistration>, value: &str)
    ensures
        final(triggers)@ == without_value(old(triggers)@, value@),
{
    let ghost start = triggers@;
    let mut kept: Vec<TriggerRegistration> = Vec::new();
    let mut i: usize = 0;
    while i < triggers.len()
        invariant
            0 <= i <= triggers@.len(),
            triggers@ == start,
            kept@ == without_value(start.take(i as int), value@),
        decreases triggers@.len() - i,
    {
        assert(start.take(i + 1).drop_last() =~= start.take(i as int));
        if !text_eq(triggers[i].value.as_str(), value) {
            kept.push(triggers[i].clone());
        }
        i = i + 1;
    }
    assert(start.take(start.len() as int) =~= start);
    *triggers = kept;
}

/// Moves the tab stop as `key` asks and, in automatic activation, selects the new tab stop.
/// Returns the trigger moved to, and whether the selection changed.
pub fn navigate_key(tabs: &mut Tabs, registered_triggers: &[TriggerRegistration], key: &str) -> (r:
    Option<(String, bool)>)
    ensures
        match old(tabs)@.spec_navigation(
            registered_triggers@,
            old(tabs)@.current_tab_stop,
            key@,
        ) {
            None => r is None && final(tabs)@ == old(tabs)@,
            Some(t) => r matches Some((s, changed)) && s@ == t && if old(tabs)@.activation_mode
                == TabsActivationMode::Automatic {
                &&& changed == (old(tabs)@.active_value != t)
                &&& final(tabs)@ == (TabsView {
                    active_value: t,
                    current_tab_stop: t,
                    ..old(tabs)@
                })
            } else {
                &&& !changed
                &&& final(tabs)@ == (TabsView { current_tab_stop: t, ..old(tabs)@ })
            },
        },
{
    let current = tabs.current_tab_stop().to_owned();
    let next = tabs.resolve_key_navigation(registered_triggers, current.as_str(), key);
    match next {
        None => None,
        Some(target) => {
            tabs.set_tab_stop(target.clone());
            let changed = if tabs.activation_mode().is_automatic() {
                tabs.select_tab(target.clone())
            } else {
                false
            };
            Some((target, changed))
        },
    }
}

/// The live state of a tabs widget: the widget with its current selection and tab stop, and the
/// triggers registered so far.
#[derive(Debug)]
pub struct TabsRuntime {
    pub(crate) tabs: Tabs,
    pub(crate) registered_triggers: Vec<TriggerRegistration>,
}

/// The model of the tabs runtime.
pub struct TabsRuntimeView {
    pub tabs: TabsView,
    pub triggers: Seq<TriggerRegistration>,
}

impl View for TabsRuntime {
    type V = TabsRuntimeView;

    open(crate) spec fn view(&self) -> TabsRuntimeView {
        TabsRuntimeView { tabs: self.tabs@, triggers: self.registered_triggers@ }
    }
}

/// What moving the tab stop asks of the host.
#[derive(Clone, Debug, PartialEq, Eq)]
pub struct TabsMove {
    /// The id of the trigger to focus.
    pub focus_id: String,
    /// The selection changed: the value-change handler is due with the new value.
    pub value_changed: bool,
}

impl TabsRuntime {
    /// Starts from the widget's selection and tab stop, with no trigger registered.
    pub fn new(tabs: Tabs) -> (r: Self)
        ensures
            r@.tabs == tabs@,
            r@.triggers.len() == 0,
    {
        TabsRuntime { tabs, registered_triggers: Vec::new() }
    }

    /// The widget with the current selection and tab stop.
    pub fn tabs(&self) -> (t: Tabs)
        ensures
            t@ == self@.tabs,
    {
        self.tabs.clone()
    }

    pub fn active_value(&self) -> (s: String)
        ensures
            s@ == self@.tabs.active_value,
    {
        self.tabs.active_value().to_owned()
    }

    pub fn current_tab_stop(&self) -> (s: String)
        ensures
            s@ == self@.tabs.current_tab_stop,
    {
        self.tabs.current_tab_stop().to_owned()
    }

    pub fn registered_triggers(&self) -> (t: &[TriggerRegistration])
        ensures
            t@ == self@.triggers,
    {
        self.registered_triggers.as_slice()
    }

    pub fn relationships(&self) -> (r: &TabsRelationships)
        ensures
            r@ == self@.tabs.relationships,
    {
        self.tabs.relationships()
    }

    pub fn root(&self) -> (a: TabsRootAttributes)
        ensures
            a@ == self@.tabs.spec_root(),
    {
        self.tabs.root()
    }

    pub fn list(&self) -> (a: TabsListAttributes)
        ensures
            a@ == self@.tabs.spec_list(),
    {
        self.tabs.list()
    }

    pub fn trigger(&self, value: &str, disabled: bool) -> (a: TabsTriggerAttributes)
        ensures
            a@ == self@.tabs.spec_trigger(value@, disabled),
    {
        self.tabs.trigger(value, disabled)
    }

    pub fn content(&self, value: &str) -> (a: TabsContentAttributes)
        ensures
            a@ == self@.tabs.spec_content(value@),
    {
        self.tabs.content(value)
    }

    /// Selects `value` and puts the tab stop on it; answers whether the selection changed,
    /// when the value-change handler is due.
    pub fn select_tab(&mut self, value: &str) -> (changed: bool)
        ensures
            changed == (old(self)@.tabs.active_value != value@),
            final(self)@.tabs == (TabsView {
                active_value: value@,
                current_tab_stop: value@,
                ..old(self)@.tabs
            }),
            final(self)@.triggers == old(self)@.triggers,
    {
        self.tabs.select_tab(value.to_owned())
    }

    /// Puts the tab stop on `value`, to be focused, and selects it in automatic activation.
    pub fn move_tab_stop(&mut self, value: &str) -> (m: TabsMove)
        ensures
            m.focus_id@ == old(self)@.tabs.relationships.spec_trigger_id(value@),
            final(self)@.triggers == old(self)@.triggers,
            old(self)@.tabs.activation_mode == TabsActivationMode::Automatic ==> {
                &&& m.value_changed == (old(self)@.tabs.active_value != value@)
                &&& final(self)@.tabs == (TabsView {
                    active_value: value@,
                    current_tab_stop: value@,
                    ..old(self)@.tabs
                })
            },
            old(self)@.tabs.activation_mode != TabsActivationMode::Automatic ==> {
                &&& !m.value_changed
                &&& final(self)@.tabs == (TabsView { current_tab_stop: value@, ..old(self)@.tabs })
            },
    {
        self.tabs.set_tab_stop(value.to_owned());
        let focus_id = self.tabs.relationships().trigger_id(value);
        let value_changed = if self.tabs.activation_mode().is_automatic() {
            self.select_tab(value)
        } else {
            false
        };
        TabsMove { focus_id, value_changed }
    }

    pub fn register_trigger(&mut self, value: &str, disabled: bool)
        ensures
            final(self)@.tabs == old(self)@.tabs,
            is_registered(old(self)@.triggers, value@) ==> {
                let k = first_registration(old(self)@.triggers, value@);
                &&& is_first_registration(old(self)@.triggers, value@, k)
                &&& final(self)@.triggers == old(self)@.triggers.update(
                    k,
                    TriggerRegistration { disabled, ..old(self)@.triggers[k] },
                )
            },
            !is_registered(old(self)@.triggers, value@) ==> final(self)@.triggers.len() == old(self)@.triggers.len() + 1
                && final(self)@.triggers.drop_last() == old(self)@.triggers
                && final(self)@.triggers.last().value@ == value@ && final(self)@.triggers.last().disabled == disabled,
    {
        register_trigger(&mut self.registered_triggers, value, disabled);
    }

    pub fn unregister_trigger(&mut self, value: &str)
        ensures
            final(self)@.tabs == old(self)@.tabs,
            final(self)@.triggers == without_value(old(self)@.triggers, value@),
    {
        unregister_trigger(&mut self.registered_triggers, value);
    }

    /// Moves the tab stop as `key` asks among the registered triggers; answers the trigger
    /// moved to and the move to perform.
    pub fn navigate_key(&mut self, key: &str) -> (r: Option<(String, TabsMove)>)
        ensures
            final(self)@.triggers == old(self)@.triggers,
            match old(self)@.tabs.spec_navigation(
                old(self)@.triggers,
                old(self)@.tabs.current_tab_stop,
                key@,
            ) {
                None => r is None && final(self)@.tabs == old(self)@.tabs,
                Some(t) => r matches Some((s, m)) && s@ == t && m.focus_id@
                    == old(self)@.tabs.relationships.spec_trigger_id(t) && if old(self)@.tabs.activation_mode == TabsActivationMode::Automatic {
                    &&& m.value_changed == (old(self)@.tabs.active_value != t)
                    &&& final(self)@.tabs == (TabsView {
                        active_value: t,
                        current_tab_stop: t,
                        ..old(self)@.tabs
                    })
                } else {
                    &&& !m.value_changed
                    &&& final(self)@.tabs == (TabsView { current_tab_stop: t, ..old(self)@.tabs })
                },
            },
    {
        let current = self.tabs.current_tab_stop().to_owned();
        let next = self.tabs.resolve_key_navigation(
            self.registered_triggers.as_slice(),
            current.as_str(),
            key,
        );
        match next {
            None => None,
            Some(target) => {
                let m = self.move_tab_stop(target.as_str());
                Some((target, m))
            },
        }
    }

    pub fn navigate_arrow(&mut self, key: &str) -> (r: Option<(String, TabsMove)>)
        ensures
            final(self)@.triggers == old(self)@.triggers,
            match old(self)@.tabs.spec_navigation(
                old(self)@.triggers,
                old(self)@.tabs.current_tab_stop,
                key@,
            ) {
                None => r is None && final(self)@.tabs == old(self)@.tabs,
                Some(t) => r matches Some((s, _)) && s@ == t && final(self)@.tabs.current_tab_stop
                    == t,
            },
    {
        self.navigate_key(key)
    }

    /// Moves the tab stop to the first (or last) enabled trigger.
    pub fn navigate_boundary(&mut self, first: bool) -> (r: Option<(String, TabsMove)>)
        ensures
            final(self)@.triggers == old(self)@.triggers,
            match old(self)@.tabs.spec_navigation(
                old(self)@.triggers,
                old(self)@.tabs.current_tab_stop,
                if first {
                    "Home"@
                } else {
                    "End"@
                },
            ) {
                None => r is None && final(self)@.tabs == old(self)@.tabs,
                Some(t) => r matches Some((s, _)) && s@ == t && final(self)@.tabs.current_tab_stop
                    == t,
            },
    {
        if first {
            self.navigate_key("Home")
        } else {
            self.navigate_key("End")
        }
    }
}

} // verus!
