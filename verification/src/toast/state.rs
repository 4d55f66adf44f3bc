use vstd::prelude::*;
use super::types::{ToastConfig, ToastId, ToastInstant, ToastItem, ToastPhase};

verus! {

/// Which interactions are holding the toaster: they decide pausing and expanding.
#[derive(Clone, Copy, Debug, PartialEq, Eq, Structural)]
pub struct ToastInteractionState {
    pub page_hidden: bool,
    pub hovered: bool,
    pub focused: bool,
    pub swiping: bool,
}

impl Default for ToastInteractionState {
    /// No interaction active.
    fn default() -> (s: Self)
        ensures
            !s.page_hidden && !s.hovered && !s.focused && !s.swiping,
    {
        ToastInteractionState { page_hidden: false, hovered: false, focused: false, swiping: false }
    }
}

impl ToastInteractionState {
    /// Countdowns pause while the page is hidden or the toaster is hovered, focused or swiped.
    pub open spec fn spec_should_pause(self) -> bool {
        self.page_hidden || self.hovered || self.focused || self.swiping
    }

    /// The stack expands while hovered, focused or swiped, but not merely because the page is
    /// hidden.
    pub open spec fn spec_should_expand(self) -> bool {
        self.hovered || self.focused || self.swiping
    }

    pub fn should_pause(&self) -> (b: bool)
        ensures
            b == self.spec_should_pause(),
    {
        self.page_hidden || self.hovered || self.focused || self.swiping
    }

    pub fn should_expand(&self) -> (b: bool)
        ensures
            b == self.spec_should_expand(),
    {
        self.hovered || self.focused || self.swiping
    }
}

/// Whenever the stack is expanded, its countdowns are paused.
pub proof fn lemma_expand_implies_pause(state: ToastInteractionState)
    ensures
        state.spec_should_expand() ==> state.spec_should_pause(),
{
}

/// `k` is the first position of a toast with `id`.
pub open spec fn is_first_with_id(toasts: Seq<ToastItem>, id: ToastId, k: int) -> bool {
    &&& 0 <= k < toasts.len()
    &&& toasts[k].id == id
    &&& forall|j: int| 0 <= j < k ==> #[trigger] toasts[j].id != id
}

pub open spec fn has_id(toasts: Seq<ToastItem>, id: ToastId) -> bool {
    exists|k: int| 0 <= k < toasts.len() && #[trigger] toasts[k].id == id
}

pub open spec fn first_with_id(toasts: Seq<ToastItem>, id: ToastId) -> int {
    choose|k: int| is_first_with_id(toasts, id, k)
}

/// `k` is the first position of an active toast with `id`.
pub open spec fn is_first_active_with_id(toasts: Seq<ToastItem>, id: ToastId, k: int) -> bool {
    &&& 0 <= k < toasts.len()
    &&& toasts[k].id == id
    &&& toasts[k].phase == ToastPhase::Active
    &&& forall|j: int|
        0 <= j < k ==> !(#[trigger] toasts[j].id == id && toasts[j].phase == ToastPhase::Active)
}

pub open spec fn has_active_id(toasts: Seq<ToastItem>, id: ToastId) -> bool {
    exists|k: int|
        0 <= k < toasts.len() && #[trigger] toasts[k].id == id && toasts[k].phase
            == ToastPhase::Active
}

pub open spec fn first_active_with_id(toasts: Seq<ToastItem>, id: ToastId) -> int {
    choose|k: int| is_first_active_with_id(toasts, id, k)
}

/// The id a new item is matched against: its option id when set, else its own.
pub open spec fn lookup_id(item: ToastItem) -> ToastId {
    match item.options.id {
        Some(id) => id,
        None => item.id,
    }
}

/// The existing record `existing` after `item` is added again at `now`: it takes the new
/// content, becomes active again and restarts its countdown.
pub open spec fn refreshed(existing: ToastItem, item: ToastItem, now: ToastInstant, paused: bool) -> ToastItem {
    ToastItem {
        id: existing.id,
        toast_type: item.toast_type,
        title: item.title,
        description: item.description,
        phase: ToastPhase::Active,
        duration: item.duration,
        remaining_duration: item.duration,
        created_at: now,
        last_started_at: now,
        paused_at: if paused { Some(now) } else { None },
        options: item.options,
    }
}

/// The id an added item ends up with: the matched record's id when one is queued, else the
/// item's own id, or the next free number when that is zero.
pub open spec fn assigned_id(toasts: Seq<ToastItem>, item: ToastItem, next_id: u64) -> ToastId {
    if has_id(toasts, lookup_id(item)) {
        lookup_id(item)
    } else if item.id.0 == 0 {
        ToastId((next_id + 1) as u64)
    } else {
        item.id
    }
}

/// The counter of ids after an item is added.
pub open spec fn next_id_after(toasts: Seq<ToastItem>, item: ToastItem, next_id: u64) -> u64 {
    if !has_id(toasts, lookup_id(item)) && item.id.0 == 0 {
        (next_id + 1) as u64
    } else {
        next_id
    }
}

/// The queue after `item` is added at `now`: the matched record refreshed in place, or the
/// item, under its assigned id and started now, put in front.
pub open spec fn added_toasts(
    toasts: Seq<ToastItem>,
    item: ToastItem,
    now: ToastInstant,
    paused: bool,
    next_id: u64,
) -> Seq<ToastItem> {
    if has_id(toasts, lookup_id(item)) {
        let k = first_with_id(toasts, lookup_id(item));
        toasts.update(k, refreshed(toasts[k], item, now, paused))
    } else {
        seq![
            ToastItem {
                id: assigned_id(toasts, item, next_id),
                last_started_at: now,
                paused_at: if paused {
                    Some(now)
                } else {
                    item.paused_at
                },
                ..item
            },
        ] + toasts
    }
}

/// A toast after all countdowns pause at `now`: an active running toast loses the time it ran.
pub open spec fn paused_item(t: ToastItem, now: ToastInstant) -> ToastItem {
    if t.phase == ToastPhase::Active && t.paused_at is None {
        let elapsed = now.spec_duration_since(t.last_started_at);
        ToastItem {
            remaining_duration: if t.remaining_duration >= elapsed {
                (t.remaining_duration - elapsed) as u64
            } else {
                0
            },
            paused_at: Some(now),
            ..t
        }
    } else {
        t
    }
}

/// A toast after all countdowns resume at `now`.
pub open spec fn resumed_item(t: ToastItem, now: ToastInstant) -> ToastItem {
    if t.phase == ToastPhase::Active {
        ToastItem { last_started_at: now, paused_at: None, ..t }
    } else {
        t
    }
}

/// A toast after every active toast is dismissed.
pub open spec fn dismissed_item(t: ToastItem) -> ToastItem {
    if t.phase == ToastPhase::Active {
        ToastItem { phase: ToastPhase::Dismissing, ..t }
    } else {
        t
    }
}

/// The ids of the active toasts, in queue order.
pub open spec fn active_ids(toasts: Seq<ToastItem>) -> Seq<ToastId>
    decreases toasts.len(),
{
    if toasts.len() == 0 {
        Seq::empty()
    } else {
        let rest = active_ids(toasts.drop_last());
        if toasts.last().phase == ToastPhase::Active {
            rest.push(toasts.last().id)
        } else {
            rest
        }
    }
}

/// The queue of toasts, newest first, with the pause and expand state of the toaster.
#[derive(Clone)]
pub struct ToastStore {
    pub toasts: Vec<ToastItem>,
    pub config: ToastConfig,
    pub paused: bool,
    pub expanded: bool,
    pub interaction_state: ToastInteractionState,
    pub next_id: u64,
}

impl Default for ToastStore {
    fn default() -> (s: Self)
        ensures
            s.toasts@.len() == 0,
            s.config.duration == 4000,
            s.config.visible_toasts == 3,
            !s.paused && !s.expanded && s.next_id == 0,
    {
        Self::new()
    }
}

impl ToastStore {
    pub fn new() -> (s: Self)
        ensures
            s.toasts@.len() == 0,
            s.config.duration == 4000,
            s.config.visible_toasts == 3,
            !s.paused && !s.expanded && s.next_id == 0,
            s.interaction_state == (ToastInteractionState {
                page_hidden: false,
                hovered: false,
                focused: false,
                swiping: false,
            }),
    {
        Self::with_config(ToastConfig::default())
    }

    pub fn with_config(config: ToastConfig) -> (s: Self)
        ensures
            s.toasts@.len() == 0,
            s.config == config,
            !s.paused && !s.expanded && s.next_id == 0,
            s.interaction_state == (ToastInteractionState {
                page_hidden: false,
                hovered: false,
                focused: false,
                swiping: false,
            }),
    {
        ToastStore {
            toasts: Vec::new(),
            config,
            paused: false,
            expanded: false,
            interaction_state: ToastInteractionState::default(),
            next_id: 0,
        }
    }

    /// The position of the first toast with `id`.
    pub fn position_of(&self, id: ToastId) -> (r: Option<usize>)
        ensures
            match r {
                Some(k) => is_first_with_id(self.toasts@, id, k as int),
                None => !has_id(self.toasts@, id),
            },
    {
        let mut i: usize = 0;
        while i < self.toasts.len()
            invariant
                0 <= i <= self.toasts@.len(),
                forall|j: int| 0 <= j < i ==> #[trigger] self.toasts@[j].id != id,
            decreases self.toasts@.len() - i,
        {
            if self.toasts[i].id == id {
                return Some(i);
            }
            i = i + 1;
        }
        None
    }

    fn position_of_active(&self, id: ToastId) -> (r: Option<usize>)
        ensures
            match r {
                Some(k) => is_first_active_with_id(self.toasts@, id, k as int),
                None => !has_active_id(self.toasts@, id),
            },
    {
        let mut i: usize = 0;
        while i < self.toasts.len()
            invariant
                0 <= i <= self.toasts@.len(),
                forall|j: int|
                    0 <= j < i ==> !(#[trigger] self.toasts@[j].id == id && self.toasts@[j].phase
                        == ToastPhase::Active),
            decreases self.toasts@.len() - i,
        {
            if self.toasts[i].id == id && self.toasts[i].phase == ToastPhase::Active {
                return Some(i);
            }
            i = i + 1;
        }
        None
    }

    /// Adds a toast at the front of the queue, or, when a toast with the item's lookup id is
    /// queued, refreshes that record in place without adding a second one. An item whose id is
    /// zero receives the next free number.
    pub fn add_toast(&mut self, item: ToastItem, now: ToastInstant) -> (assigned: ToastId)
        requires
            !has_id(old(self).toasts@, lookup_id(item)) && item.id.0 == 0 ==> old(self).next_id
                < u64::MAX,
        ensures
            final(self).config == old(self).config,
            final(self).paused == old(self).paused,
            final(self).expanded == old(self).expanded,
            final(self).interaction_state == old(self).interaction_state,
            final(self).toasts@ == added_toasts(
                old(self).toasts@,
                item,
                now,
                old(self).paused,
                old(self).next_id,
            ),
            assigned == assigned_id(old(self).toasts@, item, old(self).next_id),
            final(self).next_id == next_id_after(old(self).toasts@, item, old(self).next_id),
            has_id(old(self).toasts@, lookup_id(item)) ==> {
                let k = first_with_id(old(self).toasts@, lookup_id(item));
                &&& is_first_with_id(old(self).toasts@, lookup_id(item), k)
                &&& final(self).toasts@ == old(self).toasts@.update(
                    k,
                    refreshed(old(self).toasts@[k], item, now, old(self).paused),
                )
                &&& assigned == lookup_id(item)
                &&& final(self).next_id == old(self).next_id
            },
            !has_id(old(self).toasts@, lookup_id(item)) ==> {
                let id = if item.id.0 == 0 {
                    ToastId((old(self).next_id + 1) as u64)
                } else {
                    item.id
                };
                &&& assigned == id
                &&& final(self).next_id == (if item.id.0 == 0 {
                    (old(self).next_id + 1) as u64
                } else {
                    old(self).next_id
                })
                &&& final(self).toasts@ == seq![
                    ToastItem {
                        id,
                        last_started_at: now,
                        paused_at: if old(self).paused {
                            Some(now)
                        } else {
                            item.paused_at
                        },
                        ..item
                    },
                ] + old(self).toasts@
            },
    {
        let lookup = match item.options.id {
            Some(id) => id,
            None => item.id,
        };
        match self.position_of(lookup) {
            Some(k) => {
                let existing_id = self.toasts[k].id;
                let refreshed_item = ToastItem {
                    id: existing_id,
                    toast_type: item.toast_type,
                    title: item.title,
                    description: item.description,
                    phase: ToastPhase::Active,
                    duration: item.duration,
                    remaining_duration: item.duration,
                    created_at: now,
                    last_started_at: now,
                    paused_at: if self.paused {
                        Some(now)
                    } else {
                        None
                    },
                    options: item.options,
                };
                self.toasts.set(k, refreshed_item);
                proof {
                    let p = |j: int| is_first_with_id(old(self).toasts@, lookup, j);
                    assert(p(k as int));
                    let c = first_with_id(old(self).toasts@, lookup);
                    assert(p(c));
                    if c < k {
                        assert(old(self).toasts@[c].id != lookup);
                    }
                    if k < c {
                        assert(old(self).toasts@[k as int].id != lookup);
                    }
                }
                existing_id
            },
            None => {
                let mut item = item;
                if item.id.0 == 0 {
                    self.next_id = self.next_id + 1;
                    item.id = ToastId(self.next_id);
                }
                item.last_started_at = now;
                if self.paused {
                    item.paused_at = Some(now);
                }
                let assigned = item.id;
                self.toasts.insert(0, item);
                proof {
                    assert(final(self).toasts@ =~= seq![item] + old(self).toasts@);
                }
                assigned
            },
        }
    }

    /// Marks the first active toast with `id` as dismissing; it stays queued for its exit
    /// animation. Returns whether one was found: its dismiss handler is then due.
    pub fn dismiss_toast(&mut self, id: ToastId) -> (found: bool)
        ensures
            found == has_active_id(old(self).toasts@, id),
            found ==> {
                let k = first_active_with_id(old(self).toasts@, id);
                &&& is_first_active_with_id(old(self).toasts@, id, k)
                &&& final(self).toasts@ == old(self).toasts@.update(
                    k,
                    ToastItem { phase: ToastPhase::Dismissing, ..old(self).toasts@[k] },
                )
            },
            !found ==> final(self).toasts@ == old(self).toasts@,
            final(self).config == old(self).config,
            final(self).paused == old(self).paused,
            final(self).expanded == old(self).expanded,
            final(self).interaction_state == old(self).interaction_state,
            final(self).next_id == old(self).next_id,
    {
        match self.position_of_active(id) {
            Some(k) => {
                let mut item = self.toasts[k].clone();
                item.phase = ToastPhase::Dismissing;
                self.toasts.set(k, item);
                proof {
                    let p = |j: int| is_first_active_with_id(old(self).toasts@, id, j);
                    assert(p(k as int));
                    let c = first_active_with_id(old(self).toasts@, id);
                    assert(p(c));
                    if c < k {
                        assert(!(old(self).toasts@[c].id == id && old(self).toasts@[c].phase
                            == ToastPhase::Active));
                    }
                    if k < c {
                        assert(!(old(self).toasts@[k as int].id == id
                            && old(self).toasts@[k as int].phase == ToastPhase::Active));
                    }
                }
                true
            },
            None => false,
        }
    }

    /// Evicts the first toast with `id` and hands it back.
    pub fn remove_toast(&mut self, id: ToastId) -> (removed: Option<ToastItem>)
        ensures
            removed is Some == has_id(old(self).toasts@, id),
            removed is Some ==> {
                let k = first_with_id(old(self).toasts@, id);
                &&& is_first_with_id(old(self).toasts@, id, k)
                &&& removed == Some(old(self).toasts@[k])
                &&& final(self).toasts@ == old(self).toasts@.remove(k)
            },
            removed is None ==> final(self).toasts@ == old(self).toasts@,
            final(self).config == old(self).config,
            final(self).paused == old(self).paused,
            final(self).expanded == old(self).expanded,
            final(self).interaction_state == old(self).interaction_state,
            final(self).next_id == old(self).next_id,
    {
        match self.position_of(id) {
            Some(k) => {
                let item = self.toasts.remove(k);
                proof {
                    let p = |j: int| is_first_with_id(old(self).toasts@, id, j);
                    assert(p(k as int));
                    let c = first_with_id(old(self).toasts@, id);
                    assert(p(c));
                    if c < k {
                        assert(old(self).toasts@[c].id != id);
                    }
                    if k < c {
                        assert(old(self).toasts@[k as int].id != id);
                    }
                }
                Some(item)
            },
            None => None,
        }
    }

    /// Moves every active toast to dismissing and returns their ids, in queue order: their
    /// dismiss handlers are then due.
    pub fn dismiss_all(&mut self) -> (dismissed: Vec<ToastId>)
        ensures
            final(self).toasts@ == old(self).toasts@.map_values(|t: ToastItem| dismissed_item(t)),
            dismissed@ == active_ids(old(self).toasts@),
            final(self).config == old(self).config,
            final(self).paused == old(self).paused,
            final(self).expanded == old(self).expanded,
            final(self).interaction_state == old(self).interaction_state,
            final(self).next_id == old(self).next_id,
    {
        let ghost start = self.toasts@;
        let mut dismissed: Vec<ToastId> = Vec::new();
        let mut i: usize = 0;
        while i < self.toasts.len()
            invariant
                0 <= i <= self.toasts@.len(),
                self.toasts@.len() == start.len(),
                forall|j: int| 0 <= j < i ==> #[trigger] self.toasts@[j] == dismissed_item(start[j]),
                forall|j: int| i <= j < start.len() ==> #[trigger] self.toasts@[j] == start[j],
                dismissed@ == active_ids(start.take(i as int)),
                self.config == old(self).config,
                self.paused == old(self).paused,
                self.expanded == old(self).expanded,
                self.interaction_state == old(self).interaction_state,
                self.next_id == old(self).next_id,
            decreases start.len() - i,
        {
            assert(start.take(i + 1).drop_last() =~= start.take(i as int));
            if self.toasts[i].phase == ToastPhase::Active {
                let mut item = self.toasts[i].clone();
                item.phase = ToastPhase::Dismissing;
                dismissed.push(item.id);
                self.toasts.set(i, item);
            }
            i = i + 1;
        }
        assert(self.toasts@ =~= start.map_values(|t: ToastItem| dismissed_item(t)));
        assert(start.take(start.len() as int) =~= start);
        dismissed
    }

    /// Pauses every running countdown at `now`, recording the time it ran; does nothing when
    /// already paused.
    pub fn pause_all(&mut self, now: ToastInstant)
        ensures
            old(self).paused ==> final(self).toasts@ == old(self).toasts@,
            !old(self).paused ==> final(self).toasts@ == old(self).toasts@.map_values(
                |t: ToastItem| paused_item(t, now),
            ),
            final(self).paused,
            final(self).config == old(self).config,
            final(self).expanded == old(self).expanded,
            final(self).interaction_state == old(self).interaction_state,
            final(self).next_id == old(self).next_id,
    {
        if self.paused {
            return;
        }
        self.paused = true;
        let ghost start = self.toasts@;
        let mut i: usize = 0;
        while i < self.toasts.len()
            invariant
                0 <= i <= self.toasts@.len(),
                self.toasts@.len() == start.len(),
                forall|j: int| 0 <= j < i ==> #[trigger] self.toasts@[j] == paused_item(start[j], now),
                forall|j: int| i <= j < start.len() ==> #[trigger] self.toasts@[j] == start[j],
                self.paused,
                self.config == old(self).config,
                self.expanded == old(self).expanded,
                self.interaction_state == old(self).interaction_state,
                self.next_id == old(self).next_id,
            decreases start.len() - i,
        {
            if self.toasts[i].phase == ToastPhase::Active && self.toasts[i].paused_at.is_none() {
                let mut item = self.toasts[i].clone();
                let elapsed = now.saturating_duration_since(item.last_started_at);
                item.remaining_duration = item.remaining_duration.saturating_sub(elapsed);
                item.paused_at = Some(now);
                self.toasts.set(i, item);
            }
            i = i + 1;
        }
        assert(self.toasts@ =~= start.map_values(|t: ToastItem| paused_item(t, now)));
    }

    /// Restarts every active countdown at `now` with the time it had left; does nothing when
    /// not paused.
    pub fn resume_all(&mut self, now: ToastInstant)
        ensures
            !old(self).paused ==> final(self).toasts@ == old(self).toasts@,
            old(self).paused ==> final(self).toasts@ == old(self).toasts@.map_values(
                |t: ToastItem| resumed_item(t, now),
            ),
            !final(self).paused,
            final(self).config == old(self).config,
            final(self).expanded == old(self).expanded,
            final(self).interaction_state == old(self).interaction_state,
            final(self).next_id == old(self).next_id,
    {
        if !self.paused {
            return;
        }
        self.paused = false;
        let ghost start = self.toasts@;
        let mut i: usize = 0;
        while i < self.toasts.len()
            invariant
                0 <= i <= self.toasts@.len(),
                self.toasts@.len() == start.len(),
                forall|j: int| 0 <= j < i ==> #[trigger] self.toasts@[j] == resumed_item(start[j], now),
                forall|j: int| i <= j < start.len() ==> #[trigger] self.toasts@[j] == start[j],
                !self.paused,
                self.config == old(self).config,
                self.expanded == old(self).expanded,
                self.interaction_state == old(self).interaction_state,
                self.next_id == old(self).next_id,
            decreases start.len() - i,
        {
            if self.toasts[i].phase == ToastPhase::Active {
                let mut item = self.toasts[i].clone();
                item.last_started_at = now;
                item.paused_at = None;
                self.toasts.set(i, item);
            }
            i = i + 1;
        }
        assert(self.toasts@ =~= start.map_values(|t: ToastItem| resumed_item(t, now)));
    }

    /// The toasts after the interactions are brought to bear at `now`.
    pub open spec fn spec_synced_toasts(self, now: ToastInstant) -> Seq<ToastItem> {
        if self.interaction_state.spec_should_pause() {
            if self.paused {
                self.toasts@
            } else {
                self.toasts@.map_values(|t: ToastItem| paused_item(t, now))
            }
        } else {
            if self.paused {
                self.toasts@.map_values(|t: ToastItem| resumed_item(t, now))
            } else {
                self.toasts@
            }
        }
    }

    /// Expands the stack and pauses or resumes countdowns as the interactions ask.
    pub fn sync_interaction_state(&mut self, now: ToastInstant)
        ensures
            final(self).expanded == old(self).interaction_state.spec_should_expand(),
            final(self).paused == old(self).interaction_state.spec_should_pause(),
            final(self).toasts@ == old(self).spec_synced_toasts(now),
            final(self).interaction_state == old(self).interaction_state,
            final(self).config == old(self).config,
            final(self).next_id == old(self).next_id,
    {
        let should_pause = self.interaction_state.should_pause();
        let should_expand = self.interaction_state.should_expand();
        self.expanded = should_expand;
        if should_pause {
            self.pause_all(now);
        } else {
            self.resume_all(now);
        }
    }

    pub fn set_page_hidden(&mut self, hidden: bool, now: ToastInstant)
        ensures
            final(self).interaction_state == (ToastInteractionState {
                page_hidden: hidden,
                ..old(self).interaction_state
            }),
            final(self).expanded == final(self).interaction_state.spec_should_expand(),
            final(self).paused == final(self).interaction_state.spec_should_pause(),
            final(self).toasts@ == (ToastStore {
                interaction_state: final(self).interaction_state,
                ..*old(self)
            }).spec_synced_toasts(now),
            final(self).config == old(self).config,
            final(self).next_id == old(self).next_id,
    {
        self.interaction_state.page_hidden = hidden;
        self.sync_interaction_state(now);
    }

    pub fn set_hovered(&mut self, hovered: bool, now: ToastInstant)
        ensures
            final(self).interaction_state == (ToastInteractionState {
                hovered,
                ..old(self).interaction_state
            }),
            final(self).expanded == final(self).interaction_state.spec_should_expand(),
            final(self).paused == final(self).interaction_state.spec_should_pause(),
            final(self).toasts@ == (ToastStore {
                interaction_state: final(self).interaction_state,
                ..*old(self)
            }).spec_synced_toasts(now),
            final(self).config == old(self).config,
            final(self).next_id == old(self).next_id,
    {
        self.interaction_state.hovered = hovered;
        self.sync_interaction_state(now);
    }

    pub fn set_focused(&mut self, focused: bool, now: ToastInstant)
        ensures
            final(self).interaction_state == (ToastInteractionState {
                focused,
                ..old(self).interaction_state
            }),
            final(self).expanded == final(self).interaction_state.spec_should_expand(),
            final(self).paused == final(self).interaction_state.spec_should_pause(),
            final(self).toasts@ == (ToastStore {
                interaction_state: final(self).interaction_state,
                ..*old(self)
            }).spec_synced_toasts(now),
            final(self).config == old(self).config,
            final(self).next_id == old(self).next_id,
    {
        self.interaction_state.focused = focused;
        self.sync_interaction_state(now);
    }

    pub fn set_swiping(&mut self, swiping: bool, now: ToastInstant)
        ensures
            final(self).interaction_state == (ToastInteractionState {
                swiping,
                ..old(self).interaction_state
            }),
            final(self).expanded == final(self).interaction_state.spec_should_expand(),
            final(self).paused == final(self).interaction_state.spec_should_pause(),
            final(self).toasts@ == (ToastStore {
                interaction_state: final(self).interaction_state,
                ..*old(self)
            }).spec_synced_toasts(now),
            final(self).config == old(self).config,
            final(self).next_id == old(self).next_id,
    {
        self.interaction_state.swiping = swiping;
        self.sync_interaction_state(now);
    }

    /// Every queued toast with whether it is shown: the first `visible_toasts` are; none is
    /// dropped.
    pub fn visible_items(&self) -> (items: Vec<(&ToastItem, bool)>)
        ensures
            items@.len() == self.toasts@.len(),
            forall|i: int|
                0 <= i < items@.len() ==> *(#[trigger] items@[i]).0 == self.toasts@[i] && items@[i].1
                    == (i < self.config.visible_toasts),
    {
        let mut items: Vec<(&ToastItem, bool)> = Vec::new();
        let mut i: usize = 0;
        while i < self.toasts.len()
            invariant
                0 <= i <= self.toasts@.len(),
                items@.len() == i,
                forall|j: int|
                    0 <= j < i ==> *(#[trigger] items@[j]).0 == self.toasts@[j] && items@[j].1 == (j
                        < self.config.visible_toasts),
            decreases self.toasts@.len() - i,
        {
            items.push((&self.toasts[i], i < self.config.visible_toasts));
            i = i + 1;
        }
        items
    }
}

} // verus!
