use vstd::prelude::*;
use crate::foundation::{
    overlay::{
        DocumentDismissEvent, PlacementAlign, PlacementSide, Presence, PresenceCloseCycleId, PresenceControllerUpdate,
        PresenceController, PresenceState,
    },
    roving::{find_text, first_index, lemma_first_index_bounds},
    shared::{opt_text_view, text_eq, texts_view},
    text::{
        alphanumeric, char_text, has_prefix, is_alphanumeric_char, is_whitespace_char,
        lowercase_of, lowercase_text, starts_with_text, whitespace,
    },
};
use super::{
    attrs::{
        opt_str_view, SelectContentAttributes, SelectItemAttributes, SelectRootAttributes,
        SelectTriggerAttributes,
    },
    relationships::SelectRelationshipsView,
    state::{clone_items, clone_opt, clone_values, first_of, first_value, single_values, single_vec, Select, SelectView},
    types::{SelectItemData, SelectMode},
};

verus! {

/// The presence of the select content, which stays mounted while it animates out.
#[derive(Clone, Copy, Debug, PartialEq, Eq, Structural)]
pub struct SelectContentPresenceLane {
    pub content: PresenceController,
}

impl SelectContentPresenceLane {
    pub open spec fn wf(self) -> bool {
        self.content.wf()
    }

    pub open spec fn spec_should_render_content(self) -> bool {
        self.content.spec_should_render()
    }

    pub fn new(presence: &Presence) -> (lane: Self)
        ensures
            lane.wf(),
            lane.content.state == (if presence.desired_present {
                PresenceState::Present
            } else {
                PresenceState::Absent
            }),
            lane.content.retain_mount == presence.retain_mount,
            lane.content.pending_cycle is None,
    {
        SelectContentPresenceLane {
            content: PresenceController::new(presence.desired_present()).with_retained_mount(
                presence.retain_mount(),
            ),
        }
    }

    pub fn sync(&mut self, desired_present: bool) -> (u: PresenceControllerUpdate)
        requires
            old(self).wf(),
        ensures
            final(self).wf(),
            u.state == final(self).content.state,
            u.should_render == final(self).spec_should_render_content(),
            desired_present ==> final(self).content.state == PresenceState::Present
                && u.invalidated_close_cycle == old(self).content.pending_cycle,
            !desired_present && old(self).content.state == PresenceState::Present
                && old(self).content.retain_mount ==> final(self).content.state
                == PresenceState::Suspended && u.started_close_cycle
                == final(self).content.pending_cycle && u.started_close_cycle is Some,
            !desired_present && old(self).content.state == PresenceState::Present
                && !old(self).content.retain_mount ==> final(self).content.state
                == PresenceState::Absent,
            !desired_present && old(self).content.state != PresenceState::Present ==> *final(self)
                == *old(self) && u.started_close_cycle is None,
    {
        self.content.sync(desired_present)
    }

    /// The portal renders exactly while the content does.
    pub fn should_render_portal(&self) -> (b: bool)
        ensures
            b == self.spec_should_render_content(),
    {
        self.should_render_content()
    }

    pub fn should_render_content(&self) -> (b: bool)
        ensures
            b == self.spec_should_render_content(),
    {
        self.content.should_render()
    }

    pub fn complete_close_cycle(&mut self, cycle_id: PresenceCloseCycleId) -> (done: bool)
        requires
            old(self).wf(),
        ensures
            final(self).wf(),
            done == (old(self).content.state == PresenceState::Suspended
                && old(self).content.pending_cycle == Some(cycle_id)),
            done ==> final(self).content.state == PresenceState::Absent,
            !done ==> *final(self) == *old(self),
    {
        self.content.complete_close_cycle(cycle_id)
    }
}

/// How focus is handled when the dropdown closes.
#[derive(Clone, Copy, Debug, PartialEq, Eq, Structural)]
pub enum SelectCloseFocus {
    /// The dropdown did not close.
    Unchanged,
    /// The close-auto-focus handler is told, and focus stays where it went.
    NotifyOnly,
    /// The close-auto-focus handler is told, then focus returns to the trigger.
    RestoreTrigger,
}

/// What the host has to do after the runtime changed: the change handlers to call with their
/// arguments, the item to scroll into view, focus handling, monitors, and whether the key event
/// that caused the change has its default action prevented.
#[derive(Debug)]
pub struct SelectEffects {
    pub value_change: Option<Option<String>>,
    pub values_change: Option<Vec<String>>,
    pub open_change: Option<bool>,
    pub scroll_into_view: Option<String>,
    pub close_focus: SelectCloseFocus,
    pub start_dismiss_monitor: bool,
    pub stop_monitors: bool,
    pub prevent_default: bool,
}

/// The model of the effects.
pub struct SelectEffectsView {
    pub value_change: Option<Option<Seq<char>>>,
    pub values_change: Option<Seq<Seq<char>>>,
    pub open_change: Option<bool>,
    pub scroll_into_view: Option<Seq<char>>,
    pub close_focus: SelectCloseFocus,
    pub start_dismiss_monitor: bool,
    pub stop_monitors: bool,
    pub prevent_default: bool,
}

impl View for SelectEffects {
    type V = SelectEffectsView;

    open spec fn view(&self) -> SelectEffectsView {
        SelectEffectsView {
            value_change: match self.value_change {
                Some(v) => Some(opt_text_view(v)),
                None => None,
            },
            values_change: match self.values_change {
                Some(v) => Some(texts_view(v@)),
                None => None,
            },
            open_change: self.open_change,
            scroll_into_view: opt_text_view(self.scroll_into_view),
            close_focus: self.close_focus,
            start_dismiss_monitor: self.start_dismiss_monitor,
            stop_monitors: self.stop_monitors,
            prevent_default: self.prevent_default,
        }
    }
}

/// No effect at all.
pub open spec fn no_effects() -> SelectEffectsView {
    SelectEffectsView {
        value_change: None,
        values_change: None,
        open_change: None,
        scroll_into_view: None,
        close_focus: SelectCloseFocus::Unchanged,
        start_dismiss_monitor: false,
        stop_monitors: false,
        prevent_default: false,
    }
}

impl SelectEffects {
    pub fn none() -> (e: Self)
        ensures
            e@ == no_effects(),
    {
        SelectEffects {
            value_change: None,
            values_change: None,
            open_change: None,
            scroll_into_view: None,
            close_focus: SelectCloseFocus::Unchanged,
            start_dismiss_monitor: false,
            stop_monitors: false,
            prevent_default: false,
        }
    }
}

/// The model of the runtime state of a select.
pub struct SelectRuntimeView {
    /// The select the runtime was made from.
    pub select: SelectView,
    pub value: Option<Seq<char>>,
    pub default_value: Option<Seq<char>>,
    pub values: Seq<Seq<char>>,
    pub default_values: Seq<Seq<char>>,
    pub open: bool,
    pub highlighted: Option<Seq<char>>,
    pub items: Seq<super::types::SelectItemData>,
    pub typeahead: Seq<char>,
    pub last_key_ms: u64,
    pub preferred_side: PlacementSide,
    pub preferred_align: PlacementAlign,
    pub side: PlacementSide,
    pub align: PlacementAlign,
    pub avoid_collisions: bool,
    pub hide_when_detached: bool,
    pub collision_boundary: Option<Seq<char>>,
    pub custom_anchor: Option<Seq<char>>,
    pub sticky: Option<Seq<char>>,
    pub reference_hidden: bool,
    pub escape_prevented: bool,
    pub prevent_scroll: bool,
    pub prevent_overflow_text_selection: bool,
    pub force_mount: bool,
    pub presence: SelectContentPresenceLane,
}

/// The values of the enabled options, in order.
pub open spec fn enabled_item_values(items: Seq<SelectItemData>) -> Seq<Seq<char>>
    decreases items.len(),
{
    if items.len() == 0 {
        Seq::empty()
    } else {
        let rest = enabled_item_values(items.drop_last());
        if items.last().disabled {
            rest
        } else {
            rest.push(items.last().value@)
        }
    }
}

/// The option highlighted when the dropdown opens: the current choice when it is an enabled
/// option, else the first enabled option.
pub open spec fn initial_highlight(items: Seq<SelectItemData>, current: Option<Seq<char>>) -> Option<
    Seq<char>,
> {
    let enabled = enabled_item_values(items);
    if current is Some && enabled.contains(current->0) {
        current
    } else if enabled.len() > 0 {
        Some(enabled[0])
    } else {
        None
    }
}

/// The item to scroll into view when the highlight moves from `from` to `to`: the newly
/// highlighted option, if the highlight changed to one.
pub open spec fn scroll_target(
    relationships: SelectRelationshipsView,
    from: Option<Seq<char>>,
    to: Option<Seq<char>>,
) -> Option<Seq<char>> {
    if to != from && to is Some {
        Some(relationships.spec_item_id(to->0))
    } else {
        None
    }
}

/// `values` with `v` taken out (its first occurrence) when present, else with `v` added last.
pub open spec fn toggled(values: Seq<Seq<char>>, v: Seq<char>) -> Seq<Seq<char>> {
    let i = first_index(values, v);
    if i >= 0 {
        values.remove(i)
    } else {
        values.push(v)
    }
}

/// The values of the options, in order.
pub open spec fn item_values(items: Seq<SelectItemData>) -> Seq<Seq<char>> {
    items.map_values(|i: SelectItemData| i.value@)
}

/// The text of the first option whose value is `val`.
pub open spec fn label_of(items: Seq<SelectItemData>, val: Seq<char>) -> Option<Seq<char>> {
    let i = first_index(item_values(items), val);
    if i >= 0 {
        Some(items[i].text@)
    } else {
        None
    }
}

/// The option after `current` among the enabled options: the first when nothing (or no enabled
/// option) is highlighted; past the last, the first when looping, else the last again.
pub open spec fn next_highlight(enabled: Seq<Seq<char>>, current: Option<Seq<char>>, looping: bool) -> Seq<
    char,
> {
    let ci = match current {
        Some(v) => first_index(enabled, v),
        None => -1,
    };
    if ci < 0 {
        enabled[0]
    } else if ci + 1 < enabled.len() {
        enabled[ci + 1]
    } else if looping {
        enabled[0]
    } else {
        enabled[ci]
    }
}

/// The option before `current` among the enabled options: the last when nothing (or no enabled
/// option) is highlighted; before the first, the last when looping, else the first again.
pub open spec fn prev_highlight(enabled: Seq<Seq<char>>, current: Option<Seq<char>>, looping: bool) -> Seq<
    char,
> {
    let ci = match current {
        Some(v) => first_index(enabled, v),
        None => -1,
    };
    if ci < 0 {
        enabled.last()
    } else if ci > 0 {
        enabled[ci - 1]
    } else if looping {
        enabled.last()
    } else {
        enabled[0]
    }
}

/// The typeahead buffer after typing `ch` at `now`: a pause of more than half a second since the
/// last key starts a new search.
pub open spec fn next_buffer(buffer: Seq<char>, last_ms: u64, now_ms: u64, ch: char) -> Seq<char> {
    if now_ms > last_ms + 500 {
        seq![ch]
    } else {
        buffer.push(ch)
    }
}

/// The first enabled option whose lowercased text starts with `prefix`.
pub open spec fn typeahead_match(items: Seq<SelectItemData>, prefix: Seq<char>) -> Option<Seq<char>>
    decreases items.len(),
{
    if items.len() == 0 {
        None
    } else if !items[0].disabled && has_prefix(lowercase_of(items[0].text@), prefix) {
        Some(items[0].value@)
    } else {
        typeahead_match(items.drop_first(), prefix)
    }
}

/// The first enabled option whose lowercased text or value starts with `prefix`.
pub open spec fn closed_typeahead_match(items: Seq<SelectItemData>, prefix: Seq<char>) -> Option<
    Seq<char>,
>
    decreases items.len(),
{
    if items.len() == 0 {
        None
    } else if !items[0].disabled && (has_prefix(lowercase_of(items[0].text@), prefix) || has_prefix(
        lowercase_of(items[0].value@),
        prefix,
    )) {
        Some(items[0].value@)
    } else {
        closed_typeahead_match(items.drop_first(), prefix)
    }
}

/// The character a key stands for when its name is a single ASCII character.
pub open spec fn single_key_char(key: Seq<char>) -> Option<char> {
    if key.len() == 1 && key[0] <= '\u{7f}' {
        Some(key[0])
    } else {
        None
    }
}

/// A key that types into the typeahead: a single alphanumeric or white-space character.
pub open spec fn typing_char(key: Seq<char>) -> Option<char> {
    match single_key_char(key) {
        Some(c) => if alphanumeric(c) || whitespace(c) {
            Some(c)
        } else {
            None
        },
        None => None,
    }
}

/// The same effects, with the key event's default action prevented.
pub open spec fn prevented(e: SelectEffectsView) -> SelectEffectsView {
    SelectEffectsView { prevent_default: true, ..e }
}

/// Some id on the event path is the trigger or the content.
pub open spec fn path_is_inside(relationships: SelectRelationshipsView, path: Seq<Seq<char>>) -> bool {
    exists|k: int|
        0 <= k < path.len() && (path[k] == relationships.trigger_id || path[k]
            == relationships.content_id)
}

proof fn lemma_subrange_step(items: Seq<SelectItemData>, i: int)
    requires
        0 <= i < items.len(),
    ensures
        items.subrange(i, items.len() as int).drop_first() == items.subrange(i + 1, items.len() as int),
        items.subrange(i, items.len() as int)[0] == items[i],
        items.subrange(i, items.len() as int).len() > 0,
{
    assert(items.subrange(i, items.len() as int).drop_first() =~= items.subrange(
        i + 1,
        items.len() as int,
    ));
}

fn find_typeahead(items: &Vec<SelectItemData>, prefix: &str, by_value: bool) -> (r: Option<
    String,
>)
    ensures
        opt_text_view(r) == if by_value {
            closed_typeahead_match(items@, prefix@)
        } else {
            typeahead_match(items@, prefix@)
        },
{
    let n = items.len();
    let mut i: usize = 0;
    assert(items@.subrange(0, n as int) =~= items@);
    while i < n
        invariant
            0 <= i <= n,
            n == items@.len(),
            by_value ==> closed_typeahead_match(items@, prefix@) == closed_typeahead_match(
                items@.subrange(i as int, n as int),
                prefix@,
            ),
            !by_value ==> typeahead_match(items@, prefix@) == typeahead_match(
                items@.subrange(i as int, n as int),
                prefix@,
            ),
        decreases n - i,
    {
        proof {
            lemma_subrange_step(items@, i as int);
        }
        let item = &items[i];
        if !item.disabled {
            let text_hit = starts_with_text(lowercase_text(item.text.as_str()).as_str(), prefix);
            if text_hit {
                return Some(item.value.clone());
            }
            if by_value {
                let value_hit = starts_with_text(
                    lowercase_text(item.value.as_str()).as_str(),
                    prefix,
                );
                if value_hit {
                    return Some(item.value.clone());
                }
            }
        }
        i = i + 1;
    }
    assert(items@.subrange(n as int, n as int).len() == 0);
    None
}

/// The single character a key name stands for, when it is one ASCII character.
fn key_char(key: &str) -> (c: Option<char>)
    ensures
        c == single_key_char(key@),
{
    if key.unicode_len() == 1 {
        let c = key.get_char(0);
        if c <= '\u{7f}' {
            return Some(c);
        }
    }
    None
}

fn typing_char_of(key: &str) -> (c: Option<char>)
    ensures
        c == typing_char(key@),
{
    match key_char(key) {
        Some(c) => if is_alphanumeric_char(c) || is_whitespace_char(c) {
            Some(c)
        } else {
            None
        },
        None => None,
    }
}

fn path_inside(relationships: &super::relationships::SelectRelationships, path: &Vec<String>) -> (b:
    bool)
    ensures
        b == path_is_inside(relationships@, texts_view(path@)),
{
    let ghost p = texts_view(path@);
    let mut k: usize = 0;
    while k < path.len()
        invariant
            0 <= k <= path@.len(),
            p == texts_view(path@),
            p.len() == path@.len(),
            forall|j: int|
                0 <= j < k ==> #[trigger] p[j] != relationships@.trigger_id && p[j]
                    != relationships@.content_id,
        decreases path@.len() - k,
    {
        if text_eq(path[k].as_str(), relationships.trigger_id()) || text_eq(
            path[k].as_str(),
            relationships.content_id(),
        ) {
            assert(p[k as int] == path@[k as int]@);
            return true;
        }
        k = k + 1;
    }
    false
}

fn next_buffer_text(buffer: &String, last_ms: u64, now_ms: u64, ch: char) -> (r: String)
    ensures
        r@ == next_buffer(buffer@, last_ms, now_ms, ch),
{
    let typed = char_text(ch);
    if now_ms > last_ms && now_ms - last_ms > 500 {
        typed
    } else {
        let mut r = buffer.clone();
        r.append(typed.as_str());
        assert(r@ =~= buffer@.push(ch));
        r
    }
}

impl SelectRuntimeView {
    pub open spec fn wf(self) -> bool {
        self.presence.wf()
    }

    /// The choice the highlight starts from: the value, or the first of the values.
    pub open spec fn focus_value(self) -> Option<Seq<char>> {
        match self.select.mode {
            SelectMode::Single { .. } => self.value,
            SelectMode::Multiple => first_value(self.values),
        }
    }

    pub open spec fn spec_is_selected(self, val: Seq<char>) -> bool {
        val.len() > 0 && match self.select.mode {
            SelectMode::Single { .. } => self.value == Some(val),
            SelectMode::Multiple => self.values.contains(val),
        }
    }

    /// Opening, where it happens: the dropdown opens and highlights its initial option.
    pub open spec fn opened(self) -> Self {
        SelectRuntimeView {
            open: true,
            highlighted: initial_highlight(self.items, self.focus_value()),
            ..self
        }
    }

    pub open spec fn open_effects(self) -> SelectEffectsView {
        SelectEffectsView {
            open_change: Some(true),
            scroll_into_view: scroll_target(
                self.select.relationships,
                self.highlighted,
                initial_highlight(self.items, self.focus_value()),
            ),
            start_dismiss_monitor: true,
            ..no_effects()
        }
    }

    /// Closing, where it happens: the dropdown closes and nothing stays highlighted.
    pub open spec fn closed(self) -> Self {
        SelectRuntimeView { open: false, highlighted: None, ..self }
    }

    pub open spec fn close_effects(self, restore_focus: bool) -> SelectEffectsView {
        SelectEffectsView {
            open_change: Some(false),
            close_focus: if restore_focus {
                SelectCloseFocus::RestoreTrigger
            } else {
                SelectCloseFocus::NotifyOnly
            },
            stop_monitors: true,
            ..no_effects()
        }
    }

    /// The state after a close request: closed if it was open, else unchanged.
    pub open spec fn after_close(self) -> Self {
        if self.open {
            self.closed()
        } else {
            self
        }
    }

    pub open spec fn after_close_effects(self, restore_focus: bool) -> SelectEffectsView {
        if self.open {
            self.close_effects(restore_focus)
        } else {
            no_effects()
        }
    }

    /// The value and values after choosing the non-empty `val`.
    pub open spec fn chosen(self, val: Seq<char>) -> (Option<Seq<char>>, Seq<Seq<char>>) {
        match self.select.mode {
            SelectMode::Single { allow_deselect } => {
                let next = if allow_deselect && self.value == Some(val) {
                    None
                } else {
                    Some(val)
                };
                (next, single_values(next))
            },
            SelectMode::Multiple => {
                let list = toggled(self.values, val);
                (first_value(list), list)
            },
        }
    }

    /// The value and values replaced by those chosen with `val`.
    pub open spec fn with_choice(self, val: Seq<char>) -> Self {
        SelectRuntimeView { value: self.chosen(val).0, values: self.chosen(val).1, ..self }
    }

    /// Nothing chosen.
    pub open spec fn cleared(self) -> Self {
        SelectRuntimeView { value: None, values: Seq::empty(), ..self }
    }

    /// The state after `select_item(val)` on an enabled select.
    pub open spec fn after_select(self, val: Seq<char>) -> Self {
        if val.len() == 0 {
            self.cleared().after_close()
        } else if self.select.mode is Multiple {
            self.with_choice(val)
        } else {
            self.with_choice(val).after_close()
        }
    }

    pub open spec fn select_effects(self, val: Seq<char>) -> SelectEffectsView {
        if val.len() == 0 {
            SelectEffectsView {
                value_change: Some(None),
                values_change: Some(Seq::empty()),
                ..self.after_close_effects(true)
            }
        } else if self.select.mode is Multiple {
            SelectEffectsView {
                value_change: Some(self.chosen(val).0),
                values_change: Some(self.chosen(val).1),
                ..no_effects()
            }
        } else {
            SelectEffectsView {
                value_change: Some(self.chosen(val).0),
                values_change: Some(self.chosen(val).1),
                ..self.after_close_effects(true)
            }
        }
    }

    /// The highlight moved to `to`, with the scroll that goes with it.
    pub open spec fn highlighted_to(self, to: Seq<char>) -> Self {
        SelectRuntimeView { highlighted: Some(to), ..self }
    }

    pub open spec fn highlight_effects(self, to: Seq<char>) -> SelectEffectsView {
        SelectEffectsView {
            scroll_into_view: scroll_target(self.select.relationships, self.highlighted, Some(to)),
            ..no_effects()
        }
    }

    pub open spec fn after_highlight_next(self) -> Self {
        let enabled = enabled_item_values(self.items);
        if enabled.len() == 0 {
            self
        } else {
            self.highlighted_to(next_highlight(enabled, self.highlighted, self.select.loop_selection))
        }
    }

    pub open spec fn highlight_next_effects(self) -> SelectEffectsView {
        let enabled = enabled_item_values(self.items);
        if enabled.len() == 0 {
            no_effects()
        } else {
            self.highlight_effects(
                next_highlight(enabled, self.highlighted, self.select.loop_selection),
            )
        }
    }

    pub open spec fn after_highlight_prev(self) -> Self {
        let enabled = enabled_item_values(self.items);
        if enabled.len() == 0 {
            self
        } else {
            self.highlighted_to(prev_highlight(enabled, self.highlighted, self.select.loop_selection))
        }
    }

    pub open spec fn highlight_prev_effects(self) -> SelectEffectsView {
        let enabled = enabled_item_values(self.items);
        if enabled.len() == 0 {
            no_effects()
        } else {
            self.highlight_effects(
                prev_highlight(enabled, self.highlighted, self.select.loop_selection),
            )
        }
    }

    pub open spec fn after_highlight_first(self) -> Self {
        let enabled = enabled_item_values(self.items);
        if enabled.len() == 0 {
            self
        } else {
            self.highlighted_to(enabled[0])
        }
    }

    pub open spec fn highlight_first_effects(self) -> SelectEffectsView {
        let enabled = enabled_item_values(self.items);
        if enabled.len() == 0 {
            no_effects()
        } else {
            self.highlight_effects(enabled[0])
        }
    }

    pub open spec fn after_highlight_last(self) -> Self {
        let enabled = enabled_item_values(self.items);
        if enabled.len() == 0 {
            self
        } else {
            self.highlighted_to(enabled.last())
        }
    }

    pub open spec fn highlight_last_effects(self) -> SelectEffectsView {
        let enabled = enabled_item_values(self.items);
        if enabled.len() == 0 {
            no_effects()
        } else {
            self.highlight_effects(enabled.last())
        }
    }

    /// `select_item(val)`: nothing on a disabled select.
    pub open spec fn after_select_item(self, val: Seq<char>) -> Self {
        if self.select.disabled {
            self
        } else {
            self.after_select(val)
        }
    }

    pub open spec fn select_item_effects(self, val: Seq<char>) -> SelectEffectsView {
        if self.select.disabled {
            no_effects()
        } else {
            self.select_effects(val)
        }
    }

    /// The buffer and the time of the last key after typing `ch` at `now_ms`.
    pub open spec fn typed(self, ch: char, now_ms: u64) -> Self {
        SelectRuntimeView {
            typeahead: next_buffer(self.typeahead, self.last_key_ms, now_ms, ch),
            last_key_ms: now_ms,
            ..self
        }
    }

    /// Typing in the open dropdown highlights the first enabled option whose text starts with
    /// the buffer, ignoring case.
    pub open spec fn after_typeahead(self, ch: char, now_ms: u64) -> Self {
        let t = self.typed(ch, now_ms);
        match typeahead_match(self.items, lowercase_of(t.typeahead)) {
            Some(v) => t.highlighted_to(v),
            None => t,
        }
    }

    pub open spec fn typeahead_effects(self, ch: char, now_ms: u64) -> SelectEffectsView {
        let t = self.typed(ch, now_ms);
        match typeahead_match(self.items, lowercase_of(t.typeahead)) {
            Some(v) => t.highlight_effects(v),
            None => no_effects(),
        }
    }

    /// The option typing on the closed trigger chooses: the first enabled registered option
    /// whose text or value starts with the buffer, ignoring case, else such an option of the
    /// select's own list.
    pub open spec fn closed_match(self, ch: char, now_ms: u64) -> Option<Seq<char>> {
        let prefix = lowercase_of(self.typed(ch, now_ms).typeahead);
        match closed_typeahead_match(self.items, prefix) {
            Some(v) => Some(v),
            None => closed_typeahead_match(self.select.items, prefix),
        }
    }

    pub open spec fn after_closed_typeahead(self, ch: char, now_ms: u64) -> Self {
        match self.closed_match(ch, now_ms) {
            Some(v) => self.typed(ch, now_ms).after_select_item(v),
            None => self.typed(ch, now_ms),
        }
    }

    pub open spec fn closed_typeahead_effects(self, ch: char, now_ms: u64) -> SelectEffectsView {
        match self.closed_match(ch, now_ms) {
            Some(v) => self.typed(ch, now_ms).select_item_effects(v),
            None => no_effects(),
        }
    }

    /// A key on the closed trigger: the arrows, space and enter open the dropdown, and a typed
    /// character chooses by typeahead; the open or disabled trigger ignores keys.
    pub open spec fn after_trigger_key(self, key: Seq<char>, now_ms: u64) -> Self {
        if self.select.disabled || self.open {
            self
        } else if key == "ArrowDown"@ || key == "ArrowUp"@ || key == " "@ || key == "Enter"@ {
            self.opened()
        } else {
            match typing_char(key) {
                Some(c) => self.after_closed_typeahead(c, now_ms),
                None => self,
            }
        }
    }

    pub open spec fn trigger_key_effects(self, key: Seq<char>, now_ms: u64) -> SelectEffectsView {
        if self.select.disabled || self.open {
            no_effects()
        } else if key == "ArrowDown"@ || key == "ArrowUp"@ || key == " "@ || key == "Enter"@ {
            prevented(self.open_effects())
        } else {
            match typing_char(key) {
                Some(c) => prevented(self.closed_typeahead_effects(c, now_ms)),
                None => no_effects(),
            }
        }
    }

    /// A key in the open content: the arrows, home and end move the highlight, enter and space
    /// choose the highlighted option, escape closes and returns focus to the trigger, tab
    /// closes and lets focus move on, and a typed character searches the options.
    pub open spec fn after_content_key(self, key: Seq<char>, now_ms: u64) -> Self {
        if !self.open {
            self
        } else if key == "ArrowDown"@ {
            self.after_highlight_next()
        } else if key == "ArrowUp"@ {
            self.after_highlight_prev()
        } else if key == "Home"@ {
            self.after_highlight_first()
        } else if key == "End"@ {
            self.after_highlight_last()
        } else if key == "Enter"@ || key == " "@ {
            match self.highlighted {
                Some(c) => self.after_select_item(c),
                None => self,
            }
        } else if key == "Escape"@ || key == "Tab"@ {
            self.after_close()
        } else {
            match typing_char(key) {
                Some(c) => self.after_typeahead(c, now_ms),
                None => self,
            }
        }
    }

    pub open spec fn content_key_effects(self, key: Seq<char>, now_ms: u64) -> SelectEffectsView {
        if !self.open {
            no_effects()
        } else if key == "ArrowDown"@ {
            prevented(self.highlight_next_effects())
        } else if key == "ArrowUp"@ {
            prevented(self.highlight_prev_effects())
        } else if key == "Home"@ {
            prevented(self.highlight_first_effects())
        } else if key == "End"@ {
            prevented(self.highlight_last_effects())
        } else if key == "Enter"@ || key == " "@ {
            match self.highlighted {
                Some(c) => prevented(self.select_item_effects(c)),
                None => prevented(no_effects()),
            }
        } else if key == "Escape"@ {
            prevented(self.after_close_effects(true))
        } else if key == "Tab"@ {
            self.after_close_effects(false)
        } else {
            match typing_char(key) {
                Some(c) => self.typeahead_effects(c, now_ms),
                None => no_effects(),
            }
        }
    }

    /// Escape pressed in the content: a handler that prevented it marks the escape as
    /// prevented; otherwise the dropdown closes and focus returns to the trigger.
    pub open spec fn after_content_escape(self, handler_prevented: bool) -> Self {
        if handler_prevented {
            SelectRuntimeView { escape_prevented: true, ..self }
        } else {
            self.after_close()
        }
    }

    pub open spec fn content_escape_effects(self, handler_prevented: bool) -> SelectEffectsView {
        if handler_prevented {
            no_effects()
        } else {
            self.after_close_effects(true)
        }
    }

    /// What the document reports while the dropdown is open. Escape closes and returns focus,
    /// unless its handler prevented it or an escape was marked prevented (the mark is then
    /// cleared). A pointer-down outside the trigger and content closes without returning focus
    /// unless its handler prevented it; focus moving outside closes without returning focus.
    pub open spec fn after_dismiss(self, event: DismissKind, handler_prevented: bool) -> Self {
        match event {
            DismissKind::Escape => if handler_prevented {
                self
            } else if self.escape_prevented {
                SelectRuntimeView { escape_prevented: false, ..self }
            } else {
                self.after_close()
            },
            DismissKind::PointerDown { inside } => if inside || handler_prevented {
                self
            } else {
                self.after_close()
            },
            DismissKind::FocusIn { inside } => if inside {
                self
            } else {
                self.after_close()
            },
        }
    }

    pub open spec fn dismiss_effects(self, event: DismissKind, handler_prevented: bool) -> SelectEffectsView {
        match event {
            DismissKind::Escape => if handler_prevented || self.escape_prevented {
                no_effects()
            } else {
                self.after_close_effects(true)
            },
            DismissKind::PointerDown { inside } => if inside || handler_prevented {
                no_effects()
            } else {
                self.after_close_effects(false)
            },
            DismissKind::FocusIn { inside } => if inside {
                no_effects()
            } else {
                self.after_close_effects(false)
            },
        }
    }

    /// The select as it stands now: the runtime's chosen values and open state on the
    /// select's other settings.
    pub open spec fn current(self) -> SelectView {
        SelectView {
            value: self.value,
            default_value: self.default_value,
            values: self.values,
            default_values: self.default_values,
            open: self.open,
            ..self.select
        }
    }
}

/// A document event as the select sees it: whether its path reaches the trigger or content.
pub ghost enum DismissKind {
    Escape,
    PointerDown { inside: bool },
    FocusIn { inside: bool },
}

/// How the select sees `event`.
pub open spec fn dismiss_kind(relationships: SelectRelationshipsView, event: DocumentDismissEvent) -> DismissKind {
    match event {
        DocumentDismissEvent::Escape => DismissKind::Escape,
        DocumentDismissEvent::PointerDown { path_ids } => DismissKind::PointerDown {
            inside: path_is_inside(relationships, texts_view(path_ids@)),
        },
        DocumentDismissEvent::FocusIn { path_ids } => DismissKind::FocusIn {
            inside: path_is_inside(relationships, texts_view(path_ids@)),
        },
    }
}

/// The live state of a select: what is chosen, whether it is open, the highlighted option,
/// the registered options, the typeahead buffer and the placement of its content.
#[derive(Debug)]
pub struct SelectRuntime {
    pub(crate) select: Select,
    pub(crate) value: Option<String>,
    pub(crate) default_value: Option<String>,
    pub(crate) values: Vec<String>,
    pub(crate) default_values: Vec<String>,
    pub(crate) open: bool,
    pub(crate) highlighted_value: Option<String>,
    pub(crate) items: Vec<super::types::SelectItemData>,
    pub(crate) typeahead_buffer: String,
    pub(crate) last_key_ms: u64,
    pub(crate) preferred_side: PlacementSide,
    pub(crate) preferred_align: PlacementAlign,
    pub(crate) side: PlacementSide,
    pub(crate) align: PlacementAlign,
    pub(crate) avoid_collisions: bool,
    pub(crate) hide_when_detached: bool,
    pub(crate) collision_boundary: Option<String>,
    pub(crate) custom_anchor: Option<String>,
    pub(crate) sticky: Option<String>,
    pub(crate) reference_hidden: bool,
    pub(crate) escape_prevented: bool,
    pub(crate) prevent_scroll: bool,
    pub(crate) prevent_overflow_text_selection: bool,
    pub(crate) force_mount: bool,
    pub(crate) presence_lane: SelectContentPresenceLane,
}

impl View for SelectRuntime {
    type V = SelectRuntimeView;

    open(crate) spec fn view(&self) -> SelectRuntimeView {
        SelectRuntimeView {
            select: self.select@,
            value: opt_text_view(self.value),
            default_value: opt_text_view(self.default_value),
            values: texts_view(self.values@),
            default_values: texts_view(self.default_values@),
            open: self.open,
            highlighted: opt_text_view(self.highlighted_value),
            items: self.items@,
            typeahead: self.typeahead_buffer@,
            last_key_ms: self.last_key_ms,
            preferred_side: self.preferred_side,
            preferred_align: self.preferred_align,
            side: self.side,
            align: self.align,
            avoid_collisions: self.avoid_collisions,
            hide_when_detached: self.hide_when_detached,
            collision_boundary: opt_text_view(self.collision_boundary),
            custom_anchor: opt_text_view(self.custom_anchor),
            sticky: opt_text_view(self.sticky),
            reference_hidden: self.reference_hidden,
            escape_prevented: self.escape_prevented,
            prevent_scroll: self.prevent_scroll,
            prevent_overflow_text_selection: self.prevent_overflow_text_selection,
            force_mount: self.force_mount,
            presence: self.presence_lane,
        }
    }
}

fn opt_text_eq(a: &Option<String>, b: &Option<String>) -> (r: bool)
    ensures
        r == (opt_text_view(*a) == opt_text_view(*b)),
{
    match (a, b) {
        (Some(x), Some(y)) => text_eq(x.as_str(), y.as_str()),
        (None, None) => true,
        _ => false,
    }
}

proof fn lemma_enabled_take(items: Seq<SelectItemData>, i: int)
    requires
        0 <= i < items.len(),
    ensures
        enabled_item_values(items.take(i + 1)) == if items[i].disabled {
            enabled_item_values(items.take(i))
        } else {
            enabled_item_values(items.take(i)).push(items[i].value@)
        },
{
    assert(items.take(i + 1).drop_last() =~= items.take(i));
}

fn enabled_values_of(items: &Vec<SelectItemData>) -> (r: Vec<String>)
    ensures
        texts_view(r@) == enabled_item_values(items@),
{
    let mut r: Vec<String> = Vec::new();
    let mut i: usize = 0;
    assert(texts_view(r@) =~= enabled_item_values(items@.take(0)));
    while i < items.len()
        invariant
            0 <= i <= items@.len(),
            texts_view(r@) == enabled_item_values(items@.take(i as int)),
        decreases items@.len() - i,
    {
        proof {
            lemma_enabled_take(items@, i as int);
        }
        if !items[i].disabled {
            let ghost before = texts_view(r@);
            r.push(items[i].value.clone());
            assert(texts_view(r@) =~= before.push(items@[i as int].value@));
        }
        i = i + 1;
    }
    assert(items@.take(items@.len() as int) =~= items@);
    r
}

fn initial_highlight_of(items: &Vec<SelectItemData>, current: &Option<String>) -> (r: Option<
    String,
>)
    ensures
        opt_text_view(r) == initial_highlight(items@, opt_text_view(*current)),
{
    let enabled = enabled_values_of(items);
    let ghost ev = texts_view(enabled@);
    if let Some(v) = current {
        proof {
            lemma_first_index_bounds(ev, v@);
        }
        if let Some(i) = find_text(&enabled, v.as_str()) {
            assert(ev.contains(v@)) by {
                assert(ev[i as int] == v@);
            }
            return Some(v.clone());
        }
        assert(!ev.contains(v@));
    }
    if enabled.len() > 0 {
        Some(enabled[0].clone())
    } else {
        None
    }
}

fn find_item(items: &Vec<SelectItemData>, val: &str) -> (r: Option<usize>)
    ensures
        match r {
            Some(i) => i as int == first_index(item_values(items@), val@) && i < items@.len(),
            None => first_index(item_values(items@), val@) < 0,
        },
{
    let ghost v = item_values(items@);
    proof {
        lemma_first_index_bounds(v, val@);
    }
    let mut i: usize = 0;
    while i < items.len()
        invariant
            0 <= i <= items@.len(),
            v == item_values(items@),
            v.len() == items@.len(),
            forall|j: int| 0 <= j < i ==> #[trigger] v[j] != val@,
            -1 <= first_index(v, val@) < v.len(),
            first_index(v, val@) >= 0 ==> v[first_index(v, val@)] == val@,
            first_index(v, val@) >= 0 ==> forall|j: int|
                0 <= j < first_index(v, val@) ==> v[j] != val@,
            first_index(v, val@) < 0 ==> forall|j: int| 0 <= j < v.len() ==> v[j] != val@,
        decreases items@.len() - i,
    {
        if text_eq(items[i].value.as_str(), val) {
            assert(v[i as int] == val@);
            return Some(i);
        }
        i = i + 1;
    }
    None
}

impl SelectRuntime {
    /// Starts from the select's chosen values, open state and items, with nothing highlighted,
    /// an empty typeahead buffer and the content placed below the trigger, aligned to its start.
    pub fn new(select: Select) -> (r: Self)
        ensures
            r@.wf(),
            r@.select == select@,
            r@.value == select@.value,
            r@.default_value == select@.default_value,
            r@.values == select@.values,
            r@.default_values == select@.default_values,
            r@.open == select@.open,
            r@.highlighted is None,
            r@.items == select@.items,
            r@.typeahead.len() == 0,
            r@.last_key_ms == 0,
            r@.preferred_side == PlacementSide::Bottom && r@.side == PlacementSide::Bottom,
            r@.preferred_align == PlacementAlign::Start && r@.align == PlacementAlign::Start,
            r@.avoid_collisions && !r@.hide_when_detached,
            r@.collision_boundary is None && r@.custom_anchor is None && r@.sticky is None,
            !r@.reference_hidden && !r@.escape_prevented,
            !r@.prevent_scroll && !r@.prevent_overflow_text_selection && !r@.force_mount,
            r@.presence.content.state == (if select@.open {
                PresenceState::Present
            } else {
                PresenceState::Absent
            }),
            r@.presence.content.retain_mount,
            r@.presence.content.pending_cycle is None,
    {
        let value = clone_opt(&select.value);
        let default_value = clone_opt(&select.default_value);
        let values = clone_values(&select.values);
        let default_values = clone_values(&select.default_values);
        let items = clone_items(&select.items);
        let open = select.open;
        let lane = SelectContentPresenceLane::new(&Presence::new(open).with_retained_mount(true));
        SelectRuntime {
            select,
            value,
            default_value,
            values,
            default_values,
            open,
            highlighted_value: None,
            items,
            typeahead_buffer: String::new(),
            last_key_ms: 0,
            preferred_side: PlacementSide::Bottom,
            preferred_align: PlacementAlign::Start,
            side: PlacementSide::Bottom,
            align: PlacementAlign::Start,
            avoid_collisions: true,
            hide_when_detached: false,
            collision_boundary: None,
            custom_anchor: None,
            sticky: None,
            reference_hidden: false,
            escape_prevented: false,
            prevent_scroll: false,
            prevent_overflow_text_selection: false,
            force_mount: false,
            presence_lane: lane,
        }
    }

    /// The select the runtime was made from.
    pub fn select(&self) -> (s: Select)
        ensures
            s@ == self@.select,
    {
        self.select.clone()
    }

    pub fn relationships(&self) -> (r: &super::relationships::SelectRelationships)
        ensures
            r@ == self@.select.relationships,
    {
        self.select.relationships()
    }

    pub fn should_render_portal(&self) -> (b: bool)
        ensures
            b == self@.presence.spec_should_render_content(),
    {
        self.presence_lane.should_render_portal()
    }

    pub fn should_render_content(&self) -> (b: bool)
        ensures
            b == self@.presence.spec_should_render_content(),
    {
        self.presence_lane.should_render_content()
    }

    pub fn presence_state(&self) -> (s: PresenceState)
        ensures
            s == self@.presence.content.state,
    {
        self.presence_lane.content.state
    }

    pub fn value(&self) -> (v: Option<String>)
        ensures
            opt_text_view(v) == self@.value,
    {
        clone_opt(&self.value)
    }

    pub fn values(&self) -> (v: Vec<String>)
        ensures
            texts_view(v@) == self@.values,
    {
        clone_values(&self.values)
    }

    pub fn default_value(&self) -> (v: Option<String>)
        ensures
            opt_text_view(v) == self@.default_value,
    {
        clone_opt(&self.default_value)
    }

    pub fn default_values(&self) -> (v: Vec<String>)
        ensures
            texts_view(v@) == self@.default_values,
    {
        clone_values(&self.default_values)
    }

    pub fn is_open(&self) -> (b: bool)
        ensures
            b == self@.open,
    {
        self.open
    }

    pub fn is_disabled(&self) -> (b: bool)
        ensures
            b == self@.select.disabled,
    {
        self.select.is_disabled()
    }

    pub fn highlighted_value(&self) -> (v: Option<String>)
        ensures
            opt_text_view(v) == self@.highlighted,
    {
        clone_opt(&self.highlighted_value)
    }

    pub fn is_selected(&self, val: &str) -> (b: bool)
        ensures
            b == self@.spec_is_selected(val@),
    {
        proof {
            reveal_strlit("");
            assert(val@.len() == 0 ==> val@ =~= ""@);
        }
        let non_empty = !text_eq(val, "");
        let chosen = match self.select.mode {
            SelectMode::Single { .. } => match &self.value {
                Some(v) => text_eq(v.as_str(), val),
                None => false,
            },
            SelectMode::Multiple => crate::foundation::shared::contains_text(
                self.values.as_slice(),
                val,
            ),
        };
        chosen && non_empty
    }

    /// Highlights `val`; answers the id of the option to scroll into view when the highlight
    /// moved to a new option.
    pub fn set_highlighted(&mut self, val: Option<String>) -> (scroll: Option<String>)
        ensures
            final(self)@ == (SelectRuntimeView { highlighted: opt_text_view(val), ..old(self)@ }),
            opt_text_view(scroll) == scroll_target(
                old(self)@.select.relationships,
                old(self)@.highlighted,
                opt_text_view(val),
            ),
    {
        let changed = !opt_text_eq(&self.highlighted_value, &val);
        let scroll = if changed {
            match &val {
                Some(v) => Some(self.select.relationships.item_id(v.as_str())),
                None => None,
            }
        } else {
            None
        };
        self.highlighted_value = val;
        scroll
    }

    /// Opens an enabled, closed dropdown: tells the open handlers, highlights the current
    /// choice when it is an enabled option (else the first enabled option) and starts watching
    /// for dismissal.
    pub fn open_dropdown(&mut self) -> (e: SelectEffects)
        ensures
            old(self)@.select.disabled || old(self)@.open ==> final(self)@ == old(self)@ && e@
                == no_effects(),
            !old(self)@.select.disabled && !old(self)@.open ==> final(self)@ == old(self)@.opened() && e@ == old(self)@.open_effects(),
    {
        let mut e = SelectEffects::none();
        if self.select.is_disabled() || self.open {
            return e;
        }
        self.open = true;
        e.open_change = Some(true);
        let current = match self.select.mode {
            SelectMode::Single { .. } => clone_opt(&self.value),
            SelectMode::Multiple => first_of(&self.values),
        };
        let init = initial_highlight_of(&self.items, &current);
        e.scroll_into_view = self.set_highlighted(init);
        e.start_dismiss_monitor = true;
        e
    }

    /// Closes an open dropdown: tells the open handlers, clears the highlight, stops the
    /// monitors, and hands focus back to the trigger when `restore_focus` is set.
    pub fn close_dropdown_with_options(&mut self, restore_focus: bool) -> (e: SelectEffects)
        ensures
            final(self)@ == old(self)@.after_close(),
            e@ == old(self)@.after_close_effects(restore_focus),
    {
        let mut e = SelectEffects::none();
        if !self.open {
            return e;
        }
        self.open = false;
        e.open_change = Some(false);
        let _ = self.set_highlighted(None);
        e.stop_monitors = true;
        e.close_focus = if restore_focus {
            SelectCloseFocus::RestoreTrigger
        } else {
            SelectCloseFocus::NotifyOnly
        };
        e
    }

    pub fn close_dropdown(&mut self) -> (e: SelectEffects)
        ensures
            final(self)@ == old(self)@.after_close(),
            e@ == old(self)@.after_close_effects(true),
    {
        self.close_dropdown_with_options(true)
    }

    pub fn close_dropdown_without_restore(&mut self) -> (e: SelectEffects)
        ensures
            final(self)@ == old(self)@.after_close(),
            e@ == old(self)@.after_close_effects(false),
    {
        self.close_dropdown_with_options(false)
    }

    pub fn toggle_open(&mut self) -> (e: SelectEffects)
        ensures
            old(self)@.open ==> final(self)@ == old(self)@.closed() && e@ == old(self)@.close_effects(true),
            !old(self)@.open && !old(self)@.select.disabled ==> final(self)@ == old(self)@.opened() && e@ == old(self)@.open_effects(),
            !old(self)@.open && old(self)@.select.disabled ==> final(self)@ == old(self)@ && e@
                == no_effects(),
    {
        if self.open {
            self.close_dropdown()
        } else {
            self.open_dropdown()
        }
    }

    /// Chooses `val` on an enabled select. The empty value clears the choice and closes the
    /// dropdown. In single mode the value becomes `val` (or nothing, when deselecting is allowed
    /// and `val` was chosen) and the dropdown closes; in multiple mode `val` is toggled in the
    /// values and the dropdown stays open. Both change handlers are told.
    pub fn select_item(&mut self, val: &str) -> (e: SelectEffects)
        ensures
            old(self)@.select.disabled ==> final(self)@ == old(self)@ && e@ == no_effects(),
            !old(self)@.select.disabled ==> final(self)@ == old(self)@.after_select(val@) && e@
                == old(self)@.select_effects(val@),
    {
        if self.select.is_disabled() {
            return SelectEffects::none();
        }
        proof {
            reveal_strlit("");
            assert(val@.len() == 0 ==> val@ =~= ""@);
        }
        if text_eq(val, "") {
            return self.clear_choice();
        }
        match self.select.mode {
            SelectMode::Single { allow_deselect } => self.choose_single(val, allow_deselect),
            SelectMode::Multiple => self.toggle_multiple(val),
        }
    }

    fn clear_choice(&mut self) -> (e: SelectEffects)
        ensures
            final(self)@ == old(self)@.cleared().after_close(),
            e@ == (SelectEffectsView {
                value_change: Some(None),
                values_change: Some(Seq::empty()),
                ..old(self)@.after_close_effects(true)
            }),
    {
        self.value = None;
        self.values = Vec::new();
        assert(texts_view(self.values@) =~= Seq::<Seq<char>>::empty());
        let mut e = self.close_dropdown();
        e.value_change = Some(None);
        let cleared: Vec<String> = Vec::new();
        assert(texts_view(cleared@) =~= Seq::<Seq<char>>::empty());
        e.values_change = Some(cleared);
        e
    }

    fn choose_single(&mut self, val: &str, allow_deselect: bool) -> (e: SelectEffects)
        requires
            old(self)@.select.mode == (SelectMode::Single { allow_deselect }),
        ensures
            final(self)@ == old(self)@.with_choice(val@).after_close(),
            e@ == (SelectEffectsView {
                value_change: Some(old(self)@.chosen(val@).0),
                values_change: Some(old(self)@.chosen(val@).1),
                ..old(self)@.after_close_effects(true)
            }),
    {
        let is_current = match &self.value {
            Some(v) => text_eq(v.as_str(), val),
            None => false,
        };
        let next: Option<String> = if allow_deselect && is_current {
            None
        } else {
            Some(val.to_owned())
        };
        self.value = clone_opt(&next);
        self.values = single_vec(&next);
        let mut e = self.close_dropdown();
        e.values_change = Some(single_vec(&next));
        e.value_change = Some(next);
        e
    }

    fn toggle_multiple(&mut self, val: &str) -> (e: SelectEffects)
        requires
            old(self)@.select.mode == SelectMode::Multiple,
        ensures
            final(self)@ == old(self)@.with_choice(val@),
            e@ == (SelectEffectsView {
                value_change: Some(old(self)@.chosen(val@).0),
                values_change: Some(old(self)@.chosen(val@).1),
                ..no_effects()
            }),
    {
        let ghost before = texts_view(self.values@);
        proof {
            lemma_first_index_bounds(before, val@);
        }
        match find_text(&self.values, val) {
            Some(pos) => {
                let _ = self.values.remove(pos);
                assert(texts_view(self.values@) =~= before.remove(pos as int));
            },
            None => {
                self.values.push(val.to_owned());
                assert(texts_view(self.values@) =~= before.push(val@));
            },
        }
        self.value = first_of(&self.values);
        let mut e = SelectEffects::none();
        e.values_change = Some(clone_values(&self.values));
        e.value_change = Some(first_of(&self.values));
        e
    }

    pub fn toggle_item(&mut self, val: &str) -> (e: SelectEffects)
        ensures
            old(self)@.select.disabled ==> final(self)@ == old(self)@ && e@ == no_effects(),
            !old(self)@.select.disabled ==> final(self)@ == old(self)@.after_select(val@) && e@
                == old(self)@.select_effects(val@),
    {
        self.select_item(val)
    }

    /// A form reset brings back the defaults: the default value in single mode, the default
    /// values in multiple mode, and tells the matching change handler.
    pub fn handle_form_reset(&mut self) -> (e: SelectEffects)
        ensures
            old(self)@.select.mode is Single ==> final(self)@ == (SelectRuntimeView {
                value: old(self)@.default_value,
                ..old(self)@
            }) && e@ == (SelectEffectsView {
                value_change: Some(old(self)@.default_value),
                ..no_effects()
            }),
            old(self)@.select.mode is Multiple ==> final(self)@ == (SelectRuntimeView {
                values: old(self)@.default_values,
                ..old(self)@
            }) && e@ == (SelectEffectsView {
                values_change: Some(old(self)@.default_values),
                ..no_effects()
            }),
    {
        let mut e = SelectEffects::none();
        match self.select.mode {
            SelectMode::Single { .. } => {
                self.value = clone_opt(&self.default_value);
                e.value_change = Some(clone_opt(&self.default_value));
            },
            SelectMode::Multiple => {
                self.values = clone_values(&self.default_values);
                e.values_change = Some(clone_values(&self.default_values));
            },
        }
        e
    }

    /// Records an option: the first one with value `val` gets the new text and disabled flag,
    /// else the option is added last.
    pub fn register_item(&mut self, val: &str, text: &str, disabled: bool)
        ensures
            final(self)@ == (SelectRuntimeView { items: final(self)@.items, ..old(self)@ }),
            first_index(item_values(old(self)@.items), val@) >= 0 ==> {
                let i = first_index(item_values(old(self)@.items), val@);
                &&& final(self)@.items.len() == old(self)@.items.len()
                &&& forall|j: int|
                    0 <= j < old(self)@.items.len() && j != i ==> final(self)@.items[j] == old(self)@.items[j]
                &&& final(self)@.items[i].value == old(self)@.items[i].value
                &&& final(self)@.items[i].text@ == text@
                &&& final(self)@.items[i].disabled == disabled
            },
            first_index(item_values(old(self)@.items), val@) < 0 ==> {
                &&& final(self)@.items.len() == old(self)@.items.len() + 1
                &&& final(self)@.items.drop_last() == old(self)@.items
                &&& final(self)@.items.last().value@ == val@
                &&& final(self)@.items.last().text@ == text@
                &&& final(self)@.items.last().disabled == disabled
            },
    {
        match find_item(&self.items, val) {
            Some(i) => {
                let existing = SelectItemData {
                    value: self.items[i].value.clone(),
                    text: text.to_owned(),
                    disabled,
                };
                self.items.set(i, existing);
            },
            None => {
                let ghost before = self.items@;
                self.items.push(SelectItemData { value: val.to_owned(), text: text.to_owned(), disabled });
                assert(self.items@.drop_last() =~= before);
            },
        }
    }

    /// The text of the first option with value `val`.
    pub fn item_label(&self, val: &str) -> (l: Option<String>)
        ensures
            opt_text_view(l) == label_of(self@.items, val@),
    {
        match find_item(&self.items, val) {
            Some(i) => Some(self.items[i].text.clone()),
            None => None,
        }
    }

    /// Moves the highlight to the next enabled option; nothing happens without one.
    pub fn highlight_next(&mut self) -> (e: SelectEffects)
        ensures
            final(self)@ == old(self)@.after_highlight_next(),
            e@ == old(self)@.highlight_next_effects(),
    {
        let enabled = enabled_values_of(&self.items);
        let ghost ev = texts_view(enabled@);
        let mut e = SelectEffects::none();
        if enabled.len() == 0 {
            return e;
        }
        let looping = self.select.loop_selection;
        let ci: Option<usize> = match &self.highlighted_value {
            Some(v) => {
                proof {
                    lemma_first_index_bounds(ev, v@);
                }
                find_text(&enabled, v.as_str())
            },
            None => None,
        };
        let next_idx: usize = match ci {
            Some(idx) => {
                proof {
                    lemma_first_index_bounds(ev, self.highlighted_value->0@);
                }
                if idx + 1 < enabled.len() {
                    idx + 1
                } else if looping {
                    0
                } else {
                    idx
                }
            },
            None => 0,
        };
        let to = enabled[next_idx].clone();
        e.scroll_into_view = self.set_highlighted(Some(to));
        e
    }

    /// Moves the highlight to the previous enabled option; nothing happens without one.
    pub fn highlight_prev(&mut self) -> (e: SelectEffects)
        ensures
            final(self)@ == old(self)@.after_highlight_prev(),
            e@ == old(self)@.highlight_prev_effects(),
    {
        let enabled = enabled_values_of(&self.items);
        let ghost ev = texts_view(enabled@);
        let mut e = SelectEffects::none();
        if enabled.len() == 0 {
            return e;
        }
        let looping = self.select.loop_selection;
        let ci: Option<usize> = match &self.highlighted_value {
            Some(v) => {
                proof {
                    lemma_first_index_bounds(ev, v@);
                }
                find_text(&enabled, v.as_str())
            },
            None => None,
        };
        let last = enabled.len() - 1;
        let prev_idx: usize = match ci {
            Some(idx) => {
                proof {
                    lemma_first_index_bounds(ev, self.highlighted_value->0@);
                }
                if idx > 0 {
                    idx - 1
                } else if looping {
                    last
                } else {
                    0
                }
            },
            None => last,
        };
        let to = enabled[prev_idx].clone();
        e.scroll_into_view = self.set_highlighted(Some(to));
        e
    }

    /// Highlights the first enabled option, if there is one.
    pub fn highlight_first(&mut self) -> (e: SelectEffects)
        ensures
            final(self)@ == old(self)@.after_highlight_first(),
            e@ == old(self)@.highlight_first_effects(),
    {
        let enabled = enabled_values_of(&self.items);
        let mut e = SelectEffects::none();
        if enabled.len() == 0 {
            return e;
        }
        let to = enabled[0].clone();
        e.scroll_into_view = self.set_highlighted(Some(to));
        e
    }

    /// Highlights the last enabled option, if there is one.
    pub fn highlight_last(&mut self) -> (e: SelectEffects)
        ensures
            final(self)@ == old(self)@.after_highlight_last(),
            e@ == old(self)@.highlight_last_effects(),
    {
        let enabled = enabled_values_of(&self.items);
        let mut e = SelectEffects::none();
        if enabled.len() == 0 {
            return e;
        }
        let to = enabled[enabled.len() - 1].clone();
        e.scroll_into_view = self.set_highlighted(Some(to));
        e
    }

    fn type_char(&mut self, ch: char, now_ms: u64)
        ensures
            final(self)@ == old(self)@.typed(ch, now_ms),
    {
        let buffer = next_buffer_text(&self.typeahead_buffer, self.last_key_ms, now_ms, ch);
        self.typeahead_buffer = buffer;
        self.last_key_ms = now_ms;
    }

    /// Typing `ch` at `now_ms` in the open dropdown.
    pub fn handle_typeahead(&mut self, ch: char, now_ms: u64) -> (e: SelectEffects)
        ensures
            final(self)@ == old(self)@.after_typeahead(ch, now_ms),
            e@ == old(self)@.typeahead_effects(ch, now_ms),
    {
        self.type_char(ch, now_ms);
        let prefix = lowercase_text(self.typeahead_buffer.as_str());
        let mut e = SelectEffects::none();
        match find_typeahead(&self.items, prefix.as_str(), false) {
            Some(v) => {
                e.scroll_into_view = self.set_highlighted(Some(v));
            },
            None => {},
        }
        e
    }

    /// Typing `ch` at `now_ms` on the closed trigger.
    pub fn handle_closed_typeahead(&mut self, ch: char, now_ms: u64) -> (e: SelectEffects)
        ensures
            final(self)@ == old(self)@.after_closed_typeahead(ch, now_ms),
            e@ == old(self)@.closed_typeahead_effects(ch, now_ms),
    {
        self.type_char(ch, now_ms);
        let prefix = lowercase_text(self.typeahead_buffer.as_str());
        let matched = match find_typeahead(&self.items, prefix.as_str(), true) {
            Some(v) => Some(v),
            None => find_typeahead(&self.select.items, prefix.as_str(), true),
        };
        match matched {
            Some(v) => self.select_item(v.as_str()),
            None => SelectEffects::none(),
        }
    }

    /// A key pressed on the trigger at `now_ms`.
    pub fn handle_trigger_keydown(&mut self, key: &str, now_ms: u64) -> (e: SelectEffects)
        ensures
            final(self)@ == old(self)@.after_trigger_key(key@, now_ms),
            e@ == old(self)@.trigger_key_effects(key@, now_ms),
    {
        if self.select.is_disabled() || self.open {
            return SelectEffects::none();
        }
        if text_eq(key, "ArrowDown") || text_eq(key, "ArrowUp") || text_eq(key, " ") || text_eq(
            key,
            "Enter",
        ) {
            let mut e = self.open_dropdown();
            e.prevent_default = true;
            return e;
        }
        match typing_char_of(key) {
            Some(c) => {
                let mut e = self.handle_closed_typeahead(c, now_ms);
                e.prevent_default = true;
                e
            },
            None => SelectEffects::none(),
        }
    }

    /// A key pressed in the open content at `now_ms`.
    pub fn handle_content_keydown(&mut self, key: &str, now_ms: u64) -> (e: SelectEffects)
        ensures
            final(self)@ == old(self)@.after_content_key(key@, now_ms),
            e@ == old(self)@.content_key_effects(key@, now_ms),
    {
        if !self.open {
            return SelectEffects::none();
        }
        let mut e;
        if text_eq(key, "ArrowDown") {
            e = self.highlight_next();
            e.prevent_default = true;
        } else if text_eq(key, "ArrowUp") {
            e = self.highlight_prev();
            e.prevent_default = true;
        } else if text_eq(key, "Home") {
            e = self.highlight_first();
            e.prevent_default = true;
        } else if text_eq(key, "End") {
            e = self.highlight_last();
            e.prevent_default = true;
        } else if text_eq(key, "Enter") || text_eq(key, " ") {
            e = match clone_opt(&self.highlighted_value) {
                Some(c) => self.select_item(c.as_str()),
                None => SelectEffects::none(),
            };
            e.prevent_default = true;
        } else if text_eq(key, "Escape") {
            e = self.close_dropdown();
            e.prevent_default = true;
        } else if text_eq(key, "Tab") {
            e = self.close_dropdown_without_restore();
        } else {
            e = match typing_char_of(key) {
                Some(c) => self.handle_typeahead(c, now_ms),
                None => SelectEffects::none(),
            };
        }
        e
    }

    /// Escape pressed in the content, after its handler ran; `handler_prevented` tells whether
    /// the handler prevented the default action.
    pub fn handle_content_escape(&mut self, handler_prevented: bool) -> (e: SelectEffects)
        ensures
            final(self)@ == old(self)@.after_content_escape(handler_prevented),
            e@ == old(self)@.content_escape_effects(handler_prevented),
    {
        if handler_prevented {
            self.escape_prevented = true;
            return SelectEffects::none();
        }
        self.close_dropdown()
    }

    /// A document event while the dropdown is watched for dismissal, after the matching handler
    /// (escape, or pointer-down outside) ran; `handler_prevented` tells whether it prevented
    /// the default action.
    pub fn handle_dismiss_event(&mut self, event: &DocumentDismissEvent, handler_prevented: bool) -> (e:
        SelectEffects)
        ensures
            final(self)@ == old(self)@.after_dismiss(
                dismiss_kind(old(self)@.select.relationships, *event),
                handler_prevented,
            ),
            e@ == old(self)@.dismiss_effects(
                dismiss_kind(old(self)@.select.relationships, *event),
                handler_prevented,
            ),
    {
        match event {
            DocumentDismissEvent::Escape => {
                if handler_prevented {
                    return SelectEffects::none();
                }
                if self.escape_prevented {
                    self.escape_prevented = false;
                    return SelectEffects::none();
                }
                self.close_dropdown()
            },
            DocumentDismissEvent::PointerDown { path_ids } => {
                if path_inside(&self.select.relationships, path_ids) || handler_prevented {
                    return SelectEffects::none();
                }
                self.close_dropdown_without_restore()
            },
            DocumentDismissEvent::FocusIn { path_ids } => {
                if path_inside(&self.select.relationships, path_ids) {
                    return SelectEffects::none();
                }
                self.close_dropdown_without_restore()
            },
        }
    }

    /// The select with the runtime's chosen values and open state.
    fn current_select(&self) -> (s: Select)
        ensures
            s@ == self@.current(),
    {
        Select {
            relationships: self.select.relationships.clone(),
            mode: self.select.mode,
            value: clone_opt(&self.value),
            default_value: clone_opt(&self.default_value),
            values: clone_values(&self.values),
            default_values: clone_values(&self.default_values),
            open: self.open,
            disabled: self.select.disabled,
            required: self.select.required,
            name: clone_opt(&self.select.name),
            form: clone_opt(&self.select.form),
            autocomplete: clone_opt(&self.select.autocomplete),
            portal_host: self.select.portal_host.clone(),
            items: clone_items(&self.select.items),
            loop_selection: self.select.loop_selection,
        }
    }

    pub fn root_attributes(&self) -> (a: SelectRootAttributes)
        ensures
            a.id@ == self@.select.relationships.root_id,
            a.data_state == self@.current().data_state(),
            a.disabled == self@.select.disabled,
    {
        self.current_select().root_attributes()
    }

    /// The trigger, by the runtime's open state and choice.
    pub fn trigger_attributes(&self) -> (a: SelectTriggerAttributes)
        ensures
            a.id@ == self@.select.relationships.trigger_id,
            a.role@ == "combobox"@,
            a.aria_haspopup@ == "listbox"@,
            a.aria_expanded@ == (if self@.open {
                "true"@
            } else {
                "false"@
            }),
            a.aria_controls@ == self@.select.relationships.content_id,
            opt_str_view(a.aria_disabled) == (if self@.select.disabled {
                Some("true"@)
            } else {
                None
            }),
            opt_str_view(a.aria_required) == (if self@.select.required {
                Some("true"@)
            } else {
                None
            }),
            a.data_state == self@.current().data_state(),
            a.data_placeholder == self@.current().is_placeholder(),
            a.disabled == self@.select.disabled,
            a.tabindex == (if self@.select.disabled {
                -1i32
            } else {
                0i32
            }),
    {
        self.current_select().trigger_attributes()
    }

    /// The content, placed on the runtime's side and alignment.
    pub fn content_attributes(&self, activedescendant: Option<String>) -> (a:
        SelectContentAttributes)
        ensures
            a.id@ == self@.select.relationships.content_id,
            a.role@ == "listbox"@,
            a.tabindex == -1,
            a.aria_activedescendant == activedescendant,
            a.data_state == self@.current().data_state(),
            a.data_side == self@.side,
            a.data_align == self@.align,
            a.reference_hidden == self@.reference_hidden,
    {
        self.content_attributes_with_side_and_align(activedescendant, self.side, self.align)
    }

    pub fn content_attributes_with_side_and_align(
        &self,
        activedescendant: Option<String>,
        side: PlacementSide,
        align: PlacementAlign,
    ) -> (a: SelectContentAttributes)
        ensures
            a.id@ == self@.select.relationships.content_id,
            a.role@ == "listbox"@,
            a.tabindex == -1,
            a.aria_activedescendant == activedescendant,
            a.data_state == self@.current().data_state(),
            a.data_side == side,
            a.data_align == align,
            a.reference_hidden == self@.reference_hidden,
    {
        let mut a = self.current_select().content_attributes_with_side_and_align(
            activedescendant,
            side,
            align,
        );
        a.reference_hidden = self.reference_hidden;
        a
    }

    /// An option, selected by the runtime's choice.
    pub fn item_attributes(&self, item_val: &str, is_highlighted: bool, disabled: bool) -> (a:
        SelectItemAttributes)
        ensures
            a.id@ == self@.select.relationships.spec_item_id(item_val@),
            a.role@ == "option"@,
            a.aria_selected@ == (if self@.spec_is_selected(item_val@) {
                "true"@
            } else {
                "false"@
            }),
            opt_str_view(a.aria_disabled) == (if self@.select.disabled || disabled {
                Some("true"@)
            } else {
                None
            }),
            a.data_state@ == (if self@.spec_is_selected(item_val@) {
                "checked"@
            } else {
                "unchecked"@
            }),
            a.is_highlighted == is_highlighted,
            a.disabled == (self@.select.disabled || disabled),
            a.value@ == item_val@,
            a.label@ == item_val@,
    {
        self.current_select().item_attributes(item_val, is_highlighted, disabled)
    }

    pub fn preferred_side(&self) -> (s: PlacementSide)
        ensures
            s == self@.preferred_side,
    {
        self.preferred_side
    }

    pub fn side(&self) -> (s: PlacementSide)
        ensures
            s == self@.side,
    {
        self.side
    }

    /// A new preferred side also becomes the side; the same preference changes nothing.
    pub fn set_side(&mut self, side: PlacementSide)
        ensures
            old(self)@.preferred_side == side ==> final(self)@ == old(self)@,
            old(self)@.preferred_side != side ==> final(self)@ == (SelectRuntimeView {
                preferred_side: side,
                side,
                ..old(self)@
            }),
    {
        if self.preferred_side != side {
            self.preferred_side = side;
            self.side = side;
        }
    }

    pub fn preferred_align(&self) -> (a: PlacementAlign)
        ensures
            a == self@.preferred_align,
    {
        self.preferred_align
    }

    pub fn align(&self) -> (a: PlacementAlign)
        ensures
            a == self@.align,
    {
        self.align
    }

    /// A new preferred alignment also becomes the alignment; the same preference changes
    /// nothing.
    pub fn set_align(&mut self, align: PlacementAlign)
        ensures
            old(self)@.preferred_align == align ==> final(self)@ == old(self)@,
            old(self)@.preferred_align != align ==> final(self)@ == (SelectRuntimeView {
                preferred_align: align,
                align,
                ..old(self)@
            }),
    {
        if self.preferred_align != align {
            self.preferred_align = align;
            self.align = align;
        }
    }

    pub fn avoid_collisions(&self) -> (b: bool)
        ensures
            b == self@.avoid_collisions,
    {
        self.avoid_collisions
    }

    pub fn set_avoid_collisions(&mut self, avoid: bool)
        ensures
            final(self)@ == (SelectRuntimeView { avoid_collisions: avoid, ..old(self)@ }),
    {
        self.avoid_collisions = avoid;
    }

    pub fn hide_when_detached(&self) -> (b: bool)
        ensures
            b == self@.hide_when_detached,
    {
        self.hide_when_detached
    }

    pub fn set_hide_when_detached(&mut self, hide: bool)
        ensures
            final(self)@ == (SelectRuntimeView { hide_when_detached: hide, ..old(self)@ }),
    {
        self.hide_when_detached = hide;
    }

    pub fn collision_boundary(&self) -> (b: Option<String>)
        ensures
            opt_text_view(b) == self@.collision_boundary,
    {
        clone_opt(&self.collision_boundary)
    }

    pub fn set_collision_boundary(&mut self, boundary: Option<String>)
        ensures
            final(self)@ == (SelectRuntimeView {
                collision_boundary: opt_text_view(boundary),
                ..old(self)@
            }),
    {
        self.collision_boundary = boundary;
    }

    pub fn sticky(&self) -> (s: Option<String>)
        ensures
            opt_text_view(s) == self@.sticky,
    {
        clone_opt(&self.sticky)
    }

    pub fn set_sticky(&mut self, sticky: Option<String>)
        ensures
            final(self)@ == (SelectRuntimeView { sticky: opt_text_view(sticky), ..old(self)@ }),
    {
        self.sticky = sticky;
    }

    pub fn is_reference_hidden(&self) -> (b: bool)
        ensures
            b == self@.reference_hidden,
    {
        self.reference_hidden
    }

    pub fn set_reference_hidden(&mut self, hidden: bool)
        ensures
            final(self)@ == (SelectRuntimeView { reference_hidden: hidden, ..old(self)@ }),
    {
        self.reference_hidden = hidden;
    }

    pub fn is_escape_prevented(&self) -> (b: bool)
        ensures
            b == self@.escape_prevented,
    {
        self.escape_prevented
    }

    pub fn set_escape_prevented(&mut self, val: bool)
        ensures
            final(self)@ == (SelectRuntimeView { escape_prevented: val, ..old(self)@ }),
    {
        self.escape_prevented = val;
    }

    pub fn custom_anchor(&self) -> (a: Option<String>)
        ensures
            opt_text_view(a) == self@.custom_anchor,
    {
        clone_opt(&self.custom_anchor)
    }

    pub fn set_custom_anchor(&mut self, anchor: Option<String>)
        ensures
            final(self)@ == (SelectRuntimeView {
                custom_anchor: opt_text_view(anchor),
                ..old(self)@
            }),
    {
        self.custom_anchor = anchor;
    }

    pub fn prevent_scroll(&self) -> (b: bool)
        ensures
            b == self@.prevent_scroll,
    {
        self.prevent_scroll
    }

    pub fn set_prevent_scroll(&mut self, prevent: bool)
        ensures
            final(self)@ == (SelectRuntimeView { prevent_scroll: prevent, ..old(self)@ }),
    {
        self.prevent_scroll = prevent;
    }

    pub fn prevent_overflow_text_selection(&self) -> (b: bool)
        ensures
            b == self@.prevent_overflow_text_selection,
    {
        self.prevent_overflow_text_selection
    }

    pub fn set_prevent_overflow_text_selection(&mut self, prevent: bool)
        ensures
            final(self)@ == (SelectRuntimeView {
                prevent_overflow_text_selection: prevent,
                ..old(self)@
            }),
    {
        self.prevent_overflow_text_selection = prevent;
    }

    pub fn force_mount(&self) -> (b: bool)
        ensures
            b == self@.force_mount,
    {
        self.force_mount
    }

    pub fn set_force_mount(&mut self, force: bool)
        ensures
            final(self)@ == (SelectRuntimeView { force_mount: force, ..old(self)@ }),
    {
        self.force_mount = force;
    }

    /// Takes a measured placement: the computed side and alignment when collisions are avoided,
    /// else the preferred ones; the reference counts as hidden as measured, except that sticky
    /// "always" content never hides.
    pub fn apply_floating_position(
        &mut self,
        computed_side: PlacementSide,
        computed_align: PlacementAlign,
        computed_reference_hidden: bool,
    )
        ensures
            final(self)@ == (SelectRuntimeView {
                side: if old(self)@.avoid_collisions {
                    computed_side
                } else {
                    old(self)@.preferred_side
                },
                align: if old(self)@.avoid_collisions {
                    computed_align
                } else {
                    old(self)@.preferred_align
                },
                reference_hidden: old(self)@.sticky != Some("always"@)
                    && computed_reference_hidden,
                ..old(self)@
            }),
    {
        if self.avoid_collisions {
            self.side = computed_side;
            self.align = computed_align;
        } else {
            self.side = self.preferred_side;
            self.align = self.preferred_align;
        }
        let sticky_always = match &self.sticky {
            Some(s) => text_eq(s.as_str(), "always"),
            None => false,
        };
        self.reference_hidden = !sticky_always && computed_reference_hidden;
    }

    /// Brings back both the default value and the default values, and tells both change
    /// handlers.
    pub fn reset_to_defaults(&mut self) -> (e: SelectEffects)
        ensures
            final(self)@ == (SelectRuntimeView {
                value: old(self)@.default_value,
                values: old(self)@.default_values,
                ..old(self)@
            }),
            e@ == (SelectEffectsView {
                value_change: Some(old(self)@.default_value),
                values_change: Some(old(self)@.default_values),
                ..no_effects()
            }),
    {
        self.value = clone_opt(&self.default_value);
        self.values = clone_values(&self.default_values);
        let mut e = SelectEffects::none();
        e.value_change = Some(clone_opt(&self.default_value));
        e.values_change = Some(clone_values(&self.default_values));
        e
    }

    pub fn toggle(&mut self) -> (e: SelectEffects)
        ensures
            old(self)@.open ==> final(self)@ == old(self)@.closed() && e@ == old(self)@.close_effects(true),
            !old(self)@.open && !old(self)@.select.disabled ==> final(self)@ == old(self)@.opened()
                && e@ == old(self)@.open_effects(),
            !old(self)@.open && old(self)@.select.disabled ==> final(self)@ == old(self)@ && e@
                == no_effects(),
    {
        self.toggle_open()
    }

    /// Keeps the presence of the content in step with the open state.
    pub fn sync_presence(&mut self) -> (u: PresenceControllerUpdate)
        requires
            old(self)@.wf(),
        ensures
            final(self)@ == (SelectRuntimeView { presence: final(self)@.presence, ..old(self)@ }),
            final(self)@.wf(),
            u.state == final(self)@.presence.content.state,
            old(self)@.open ==> final(self)@.presence.content.state == PresenceState::Present,
            !old(self)@.open && old(self)@.presence.content.state != PresenceState::Present
                ==> final(self)@.presence == old(self)@.presence,
    {
        let open = self.open;
        self.presence_lane.sync(open)
    }

    /// Ends a close cycle of the content once its exit finished.
    pub fn complete_presence_close_cycle(&mut self, cycle_id: PresenceCloseCycleId) -> (done: bool)
        requires
            old(self)@.wf(),
        ensures
            final(self)@ == (SelectRuntimeView { presence: final(self)@.presence, ..old(self)@ }),
            final(self)@.wf(),
            done == (old(self)@.presence.content.state == PresenceState::Suspended
                && old(self)@.presence.content.pending_cycle == Some(cycle_id)),
            done ==> final(self)@.presence.content.state == PresenceState::Absent,
            !done ==> final(self)@.presence == old(self)@.presence,
    {
        self.presence_lane.complete_close_cycle(cycle_id)
    }
}

/// In single mode with deselecting allowed, choosing a non-empty value that is not chosen
/// chooses it, and choosing it again leaves nothing chosen.
pub proof fn lemma_choose_twice_deselects(rt: SelectRuntimeView, val: Seq<char>)
    requires
        rt.select.mode == (SelectMode::Single { allow_deselect: true }),
        !rt.select.disabled,
        val.len() > 0,
        rt.value != Some(val),
    ensures
        rt.after_select_item(val).value == Some(val),
        rt.after_select_item(val).after_select_item(val).value is None,
        rt.after_select_item(val).after_select_item(val).values.len() == 0,
{
    let once = rt.after_select_item(val);
    assert(once.value == Some(val));
    assert(once.select == rt.select);
}

/// In single mode a choice keeps the values in step with the value: one value, or none.
pub proof fn lemma_single_choice_keeps_values_in_step(rt: SelectRuntimeView, val: Seq<char>)
    requires
        rt.select.mode is Single,
        !rt.select.disabled,
    ensures
        rt.after_select_item(val).values == single_values(rt.after_select_item(val).value),
{
    if val.len() == 0 {
        assert(single_values(None) =~= Seq::<Seq<char>>::empty());
    }
}

/// In multiple mode, toggling a value that is not chosen and then toggling it again gives the
/// values back.
pub proof fn lemma_toggle_twice_restores(values: Seq<Seq<char>>, val: Seq<char>)
    requires
        !values.contains(val),
    ensures
        toggled(toggled(values, val), val) == values,
{
    lemma_first_index_bounds(values, val);
    if first_index(values, val) >= 0 {
        assert(values.contains(values[first_index(values, val)]));
    }
    let once = values.push(val);
    lemma_first_index_bounds(once, val);
    assert(once[values.len() as int] == val);
    let i = first_index(once, val);
    if i >= 0 && i < values.len() {
        assert(once[i] == values[i]);
        assert(values.contains(values[i]));
    }
    assert(i == values.len());
    assert(once.remove(i) =~= values);
}

/// The highlight that opening, the arrows, home and end set is always an enabled option.
pub proof fn lemma_highlight_moves_to_enabled_options(rt: SelectRuntimeView)
    ensures
        rt.opened().highlighted matches Some(h) ==> enabled_item_values(rt.items).contains(h),
        enabled_item_values(rt.items).len() > 0 ==> {
            &&& enabled_item_values(rt.items).contains(rt.after_highlight_next().highlighted->0)
            &&& enabled_item_values(rt.items).contains(rt.after_highlight_prev().highlighted->0)
            &&& enabled_item_values(rt.items).contains(rt.after_highlight_first().highlighted->0)
            &&& enabled_item_values(rt.items).contains(rt.after_highlight_last().highlighted->0)
        },
{
    let en = enabled_item_values(rt.items);
    if en.len() > 0 {
        assert(en.contains(en[0]));
        assert(en.contains(en[en.len() - 1]));
        let ci = match rt.highlighted {
            Some(v) => first_index(en, v),
            None => -1,
        };
        if rt.highlighted is Some {
            lemma_first_index_bounds(en, rt.highlighted->0);
        }
        if 0 <= ci && ci + 1 < en.len() {
            assert(en.contains(en[ci + 1]));
        }
        if 0 <= ci {
            assert(en.contains(en[ci]));
        }
        if 0 < ci {
            assert(en.contains(en[ci - 1]));
        }
    }
}

/// A closed dropdown highlights nothing, and closing again changes nothing.
pub proof fn lemma_close_is_idempotent(rt: SelectRuntimeView, restore_focus: bool)
    ensures
        !rt.after_close().open,
        rt.open ==> rt.after_close().highlighted is None,
        rt.after_close().after_close() == rt.after_close(),
        rt.after_close().after_close_effects(restore_focus) == no_effects(),
{
}

/// On a closed, enabled select, ArrowDown, ArrowUp, space and Enter on the trigger all open the
/// dropdown: the runtime is open, the open handlers are told `true`, the dismiss monitor
/// starts, the key's default action is prevented, and the initial option is highlighted.
pub proof fn lemma_trigger_keys_open_the_dropdown(rt: SelectRuntimeView, key: Seq<char>, now_ms: u64)
    requires
        !rt.select.disabled,
        !rt.open,
        key == "ArrowDown"@ || key == "ArrowUp"@ || key == " "@ || key == "Enter"@,
    ensures
        rt.after_trigger_key(key, now_ms).open,
        rt.after_trigger_key(key, now_ms).highlighted == initial_highlight(
            rt.items,
            rt.focus_value(),
        ),
        rt.after_trigger_key(key, now_ms).value == rt.value,
        rt.after_trigger_key(key, now_ms).values == rt.values,
        rt.trigger_key_effects(key, now_ms).open_change == Some(true),
        rt.trigger_key_effects(key, now_ms).prevent_default,
        rt.trigger_key_effects(key, now_ms).start_dismiss_monitor,
        rt.trigger_key_effects(key, now_ms).value_change is None,
{
}

/// An option the open typeahead can land on: enabled, with a lowercased text that starts with
/// the prefix.
pub open spec fn text_hit(item: SelectItemData, prefix: Seq<char>) -> bool {
    !item.disabled && has_prefix(lowercase_of(item.text@), prefix)
}

/// An option typing on the closed trigger can choose: enabled, with a lowercased text or value
/// that starts with the prefix.
pub open spec fn text_or_value_hit(item: SelectItemData, prefix: Seq<char>) -> bool {
    !item.disabled && (has_prefix(lowercase_of(item.text@), prefix) || has_prefix(
        lowercase_of(item.value@),
        prefix,
    ))
}

/// The open typeahead picks the earliest option it can land on: the option it picks can be
/// landed on and no option before it can; it picks none only when no option can be.
pub proof fn lemma_typeahead_picks_the_first_hit(items: Seq<SelectItemData>, prefix: Seq<char>)
    ensures
        typeahead_match(items, prefix) matches Some(v) ==> exists|i: int|
            0 <= i < items.len() && #[trigger] items[i].value@ == v && text_hit(items[i], prefix)
                && forall|j: int| 0 <= j < i ==> !text_hit(#[trigger] items[j], prefix),
        typeahead_match(items, prefix) is None ==> forall|j: int|
            0 <= j < items.len() ==> !text_hit(#[trigger] items[j], prefix),
    decreases items.len(),
{
    if items.len() > 0 {
        let rest = items.drop_first();
        lemma_typeahead_picks_the_first_hit(rest, prefix);
        if text_hit(items[0], prefix) {
            assert(items[0].value@ == items[0].value@);
        } else {
            match typeahead_match(rest, prefix) {
                Some(v) => {
                    let i = choose|i: int|
                        0 <= i < rest.len() && #[trigger] rest[i].value@ == v && text_hit(
                            rest[i],
                            prefix,
                        ) && forall|j: int| 0 <= j < i ==> !text_hit(#[trigger] rest[j], prefix);
                    assert(items[i + 1] == rest[i]);
                    assert forall|j: int| 0 <= j < i + 1 implies !text_hit(
                        #[trigger] items[j],
                        prefix,
                    ) by {
                        if j > 0 {
                            assert(items[j] == rest[j - 1]);
                        }
                    }
                    assert(items[i + 1].value@ == v);
                },
                None => {
                    assert forall|j: int| 0 <= j < items.len() implies !text_hit(
                        #[trigger] items[j],
                        prefix,
                    ) by {
                        if j > 0 {
                            assert(items[j] == rest[j - 1]);
                        }
                    }
                },
            }
        }
    }
}

/// Typing on the closed trigger picks the earliest option whose text or value fits: the option
/// it picks fits and no option before it does; it picks none only when none fits.
pub proof fn lemma_closed_typeahead_picks_the_first_hit(items: Seq<SelectItemData>, prefix: Seq<char>)
    ensures
        closed_typeahead_match(items, prefix) matches Some(v) ==> exists|i: int|
            0 <= i < items.len() && #[trigger] items[i].value@ == v && text_or_value_hit(
                items[i],
                prefix,
            ) && forall|j: int| 0 <= j < i ==> !text_or_value_hit(#[trigger] items[j], prefix),
        closed_typeahead_match(items, prefix) is None ==> forall|j: int|
            0 <= j < items.len() ==> !text_or_value_hit(#[trigger] items[j], prefix),
    decreases items.len(),
{
    if items.len() > 0 {
        let rest = items.drop_first();
        lemma_closed_typeahead_picks_the_first_hit(rest, prefix);
        if text_or_value_hit(items[0], prefix) {
            assert(items[0].value@ == items[0].value@);
        } else {
            match closed_typeahead_match(rest, prefix) {
                Some(v) => {
                    let i = choose|i: int|
                        0 <= i < rest.len() && #[trigger] rest[i].value@ == v && text_or_value_hit(
                            rest[i],
                            prefix,
                        ) && forall|j: int|
                            0 <= j < i ==> !text_or_value_hit(#[trigger] rest[j], prefix);
                    assert(items[i + 1] == rest[i]);
                    assert forall|j: int| 0 <= j < i + 1 implies !text_or_value_hit(
                        #[trigger] items[j],
                        prefix,
                    ) by {
                        if j > 0 {
                            assert(items[j] == rest[j - 1]);
                        }
                    }
                    assert(items[i + 1].value@ == v);
                },
                None => {
                    assert forall|j: int| 0 <= j < items.len() implies !text_or_value_hit(
                        #[trigger] items[j],
                        prefix,
                    ) by {
                        if j > 0 {
                            assert(items[j] == rest[j - 1]);
                        }
                    }
                },
            }
        }
    }
}

/// Typing `ch` in the open dropdown highlights the earliest option that is enabled and whose
/// lowercased text starts with the lowercased buffer; when there is none the highlight stays.
pub proof fn lemma_open_typeahead_highlights_the_first_hit(rt: SelectRuntimeView, ch: char, now_ms: u64)
    ensures
        ({
            let prefix = lowercase_of(next_buffer(rt.typeahead, rt.last_key_ms, now_ms, ch));
            let after = rt.after_typeahead(ch, now_ms);
            &&& after.typeahead == next_buffer(rt.typeahead, rt.last_key_ms, now_ms, ch)
            &&& (exists|i: int| 0 <= i < rt.items.len() && text_hit(#[trigger] rt.items[i], prefix))
                ==> exists|i: int|
                0 <= i < rt.items.len() && text_hit(#[trigger] rt.items[i], prefix) && (forall|
                    j: int,
                | 0 <= j < i ==> !text_hit(#[trigger] rt.items[j], prefix)) && after.highlighted
                    == Some(rt.items[i].value@)
            &&& (forall|i: int| 0 <= i < rt.items.len() ==> !text_hit(#[trigger] rt.items[i], prefix))
                ==> after.highlighted == rt.highlighted
        }),
{
    let prefix = lowercase_of(next_buffer(rt.typeahead, rt.last_key_ms, now_ms, ch));
    lemma_typeahead_picks_the_first_hit(rt.items, prefix);
}

/// What an event reports of its path, for pointer-downs and focus moves.
pub open spec fn event_path(event: DocumentDismissEvent) -> Option<Seq<Seq<char>>> {
    match event {
        DocumentDismissEvent::PointerDown { path_ids } => Some(texts_view(path_ids@)),
        DocumentDismissEvent::FocusIn { path_ids } => Some(texts_view(path_ids@)),
        DocumentDismissEvent::Escape => None,
    }
}

/// A pointer-down or focus move whose path passes through the trigger or the content, at any
/// position, leaves the select as it is and asks for nothing; one whose path touches neither
/// closes an open select without returning focus, unless a pointer-down's handler prevented
/// it.
pub proof fn lemma_dismissal_looks_at_the_whole_path(
    rt: SelectRuntimeView,
    event: DocumentDismissEvent,
    handler_prevented: bool,
)
    requires
        event_path(event) is Some,
    ensures
        ({
            let path = event_path(event)->0;
            let rel = rt.select.relationships;
            let kind = dismiss_kind(rel, event);
            &&& (exists|k: int|
                0 <= k < path.len() && (#[trigger] path[k] == rel.trigger_id || path[k]
                    == rel.content_id)) ==> rt.after_dismiss(kind, handler_prevented) == rt
                && rt.dismiss_effects(kind, handler_prevented) == no_effects()
            &&& (forall|k: int|
                0 <= k < path.len() ==> #[trigger] path[k] != rel.trigger_id && path[k]
                    != rel.content_id) && rt.open && !(event is PointerDown && handler_prevented)
                ==> !rt.after_dismiss(kind, handler_prevented).open && rt.dismiss_effects(
                kind,
                handler_prevented,
            ).close_focus == SelectCloseFocus::NotifyOnly && rt.dismiss_effects(
                kind,
                handler_prevented,
            ).open_change == Some(false)
        }),
{
}

} // verus!
