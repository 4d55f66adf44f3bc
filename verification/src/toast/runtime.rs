use vstd::prelude::*;
use super::{
    browser::ToastEventPayload,
    state::{
        ToastInteractionState, has_active_id, first_active_with_id,
        added_toasts, assigned_id, dismissed_item, first_with_id, has_id, is_first_with_id,
        lookup_id, next_id_after, paused_item, resumed_item, ToastStore,
    },
    types::{
        clone_opt, ToastId, ToastInstant, ToastItem, ToastOptions, ToastPhase, ToastPosition,
        ToastType,
    },
};

verus! {

/// Milliseconds a dismissed toast stays queued for its exit animation before it is removed.
pub const TIME_BEFORE_UNMOUNT_MS: u64 = 200;

/// Milliseconds between two countdown ticks of a toast.
pub const TICK_MS: u64 = 50;

/// The id a dispatched toast is looked up by: the option id, else none (zero).
pub open spec fn hint_id(options: ToastOptions) -> ToastId {
    match options.id {
        Some(id) => id,
        None => ToastId(0),
    }
}

/// The item that dispatching a toast of `toast_type` with `title` and `options` at `now`
/// queues: its duration is the option's, else the toaster's, and it starts paused when the
/// toaster is paused.
pub open spec fn dispatched_item(
    toast_type: ToastType,
    title: String,
    options: ToastOptions,
    now: ToastInstant,
    default_duration: u64,
    paused: bool,
) -> ToastItem {
    let duration = match options.duration {
        Some(d) => d,
        None => default_duration,
    };
    ToastItem {
        id: hint_id(options),
        toast_type,
        title,
        description: options.description,
        phase: ToastPhase::Active,
        duration,
        remaining_duration: duration,
        created_at: now,
        last_started_at: now,
        paused_at: if paused {
            Some(now)
        } else {
            None
        },
        options,
    }
}

/// What one countdown tick did.
#[derive(Clone, Copy, Debug, PartialEq, Eq, Structural)]
pub enum ToastTick {
    /// The toast is gone or no longer active: the countdown ends.
    Stop,
    /// The countdown goes on.
    Continue,
    /// The countdown ran out and the toast was dismissed: its auto-close handler is due and
    /// its removal after the exit delay.
    Expired,
}

/// A running toast after a tick at `now`: the time since it last started is taken off what
/// remains, and it starts again from `now`.
pub open spec fn ticked_item(t: ToastItem, now: ToastInstant) -> ToastItem {
    let elapsed = now.spec_duration_since(t.last_started_at);
    ToastItem {
        remaining_duration: if t.remaining_duration >= elapsed {
            (t.remaining_duration - elapsed) as u64
        } else {
            0
        },
        last_started_at: now,
        ..t
    }
}

/// A toast after its promise settled at `now`: success or error with the new title, active
/// again with its whole duration ahead and not paused.
pub open spec fn settled_item(t: ToastItem, succeeded: bool, title: String, now: ToastInstant) -> ToastItem {
    ToastItem {
        toast_type: if succeeded {
            ToastType::Success
        } else {
            ToastType::Error
        },
        title,
        phase: ToastPhase::Active,
        remaining_duration: t.duration,
        last_started_at: now,
        paused_at: None,
        ..t
    }
}

/// How the toaster reacts to a browser event.
#[derive(Clone, Copy, Debug, PartialEq, Eq, Structural)]
pub enum ToastEventReaction {
    /// The event was taken into account.
    Handled,
    /// The toast with this id was dismissed by a swipe; its removal is due after the exit
    /// delay.
    RemoveAfterDelay(ToastId),
    /// The monitor stopped: no more events come.
    Stop,
}

/// The interactions after `event`, when it changes them: page visibility (only when the
/// toaster pauses on hidden pages), hover, focus and swiping.
pub open spec fn event_interaction(
    state: ToastInteractionState,
    event: ToastEventPayload,
    pause_when_page_is_hidden: bool,
) -> Option<ToastInteractionState> {
    match event {
        ToastEventPayload::Visibility { visible } => if pause_when_page_is_hidden {
            Some(ToastInteractionState { page_hidden: !visible, ..state })
        } else {
            None
        },
        ToastEventPayload::Hover { hovered } => Some(ToastInteractionState { hovered, ..state }),
        ToastEventPayload::Focus { focused } => Some(ToastInteractionState { focused, ..state }),
        ToastEventPayload::SwipeActive { swiping } => Some(
            ToastInteractionState { swiping, ..state },
        ),
        _ => None,
    }
}

impl ToastStore {
    /// Takes a browser event into account at `now`: interaction changes expand the stack and
    /// pause or resume the countdowns, a swipe past the threshold dismisses its toast, the
    /// hotkey is left to the page, and the stop of the monitor ends the event stream.
    pub fn handle_browser_event(&mut self, event: &ToastEventPayload, now: ToastInstant) -> (r:
        ToastEventReaction)
        ensures
            final(self).config == old(self).config,
            final(self).next_id == old(self).next_id,
            event_interaction(
                old(self).interaction_state,
                *event,
                old(self).config.pause_when_page_is_hidden,
            ) matches Some(st) ==> {
                &&& r == ToastEventReaction::Handled
                &&& final(self).interaction_state == st
                &&& final(self).expanded == st.spec_should_expand()
                &&& final(self).paused == st.spec_should_pause()
                &&& final(self).toasts@ == (ToastStore {
                    interaction_state: st,
                    ..*old(self)
                }).spec_synced_toasts(now)
            },
            event_interaction(
                old(self).interaction_state,
                *event,
                old(self).config.pause_when_page_is_hidden,
            ) is None ==> final(self).interaction_state == old(self).interaction_state
                && final(self).expanded == old(self).expanded && final(self).paused == old(self).paused,
            *event matches ToastEventPayload::SwipeDismiss { id } ==> {
                &&& r == (if has_active_id(old(self).toasts@, ToastId(id)) {
                    ToastEventReaction::RemoveAfterDelay(ToastId(id))
                } else {
                    ToastEventReaction::Handled
                })
                &&& has_active_id(old(self).toasts@, ToastId(id)) ==> final(self).toasts@ == old(self).toasts@.update(
                    first_active_with_id(old(self).toasts@, ToastId(id)),
                    ToastItem {
                        phase: ToastPhase::Dismissing,
                        ..old(self).toasts@[first_active_with_id(old(self).toasts@, ToastId(id))]
                    },
                )
                &&& !has_active_id(old(self).toasts@, ToastId(id)) ==> final(self).toasts@ == old(self).toasts@
            },
            *event is Stopped ==> r == ToastEventReaction::Stop && final(self).toasts@ == old(self).toasts@,
            *event is Hotkey ==> r == ToastEventReaction::Handled && final(self).toasts@ == old(self).toasts@,
            *event matches ToastEventPayload::Visibility { .. } && !old(self).config.pause_when_page_is_hidden ==> r == ToastEventReaction::Handled
                && final(self).toasts@ == old(self).toasts@,
    {
        match event {
            ToastEventPayload::Visibility { visible } => {
                if self.config.pause_when_page_is_hidden {
                    self.set_page_hidden(!*visible, now);
                }
                ToastEventReaction::Handled
            },
            ToastEventPayload::Hover { hovered } => {
                self.set_hovered(*hovered, now);
                ToastEventReaction::Handled
            },
            ToastEventPayload::Focus { focused } => {
                self.set_focused(*focused, now);
                ToastEventReaction::Handled
            },
            ToastEventPayload::SwipeActive { swiping } => {
                self.set_swiping(*swiping, now);
                ToastEventReaction::Handled
            },
            ToastEventPayload::SwipeDismiss { id } => {
                if self.dismiss_toast(ToastId(*id)) {
                    ToastEventReaction::RemoveAfterDelay(ToastId(*id))
                } else {
                    ToastEventReaction::Handled
                }
            },
            ToastEventPayload::Hotkey { .. } => ToastEventReaction::Handled,
            ToastEventPayload::Stopped => ToastEventReaction::Stop,
        }
    }

    /// Queues a toast of `toast_type` at `now` and returns its id. A toast whose option id is
    /// already queued refreshes that record instead. Every type but loading counts down.
    pub fn dispatch(
        &mut self,
        toast_type: ToastType,
        title: String,
        options: Option<ToastOptions>,
        now: ToastInstant,
    ) -> (id: ToastId)
        requires
            ({
                let o = match options {
                    Some(o) => o,
                    None => ToastOptions::spec_none(),
                };
                !has_id(old(self).toasts@, hint_id(o)) && hint_id(o).0 == 0 ==> old(self).next_id
                    < u64::MAX
            }),
        ensures
            ({
                let o = match options {
                    Some(o) => o,
                    None => ToastOptions::spec_none(),
                };
                let item = dispatched_item(
                    toast_type,
                    title,
                    o,
                    now,
                    old(self).config.duration,
                    old(self).paused,
                );
                &&& final(self).toasts@ == added_toasts(
                    old(self).toasts@,
                    item,
                    now,
                    old(self).paused,
                    old(self).next_id,
                )
                &&& id == assigned_id(old(self).toasts@, item, old(self).next_id)
                &&& final(self).next_id == next_id_after(old(self).toasts@, item, old(self).next_id)
            }),
            final(self).config == old(self).config,
            final(self).paused == old(self).paused,
            final(self).expanded == old(self).expanded,
            final(self).interaction_state == old(self).interaction_state,
    {
        let options = match options {
            Some(o) => o,
            None => ToastOptions::none(),
        };
        let duration = match options.duration {
            Some(d) => d,
            None => self.config.duration,
        };
        let id_hint = match options.id {
            Some(id) => id,
            None => ToastId(0),
        };
        let item = ToastItem {
            id: id_hint,
            toast_type,
            title,
            description: clone_opt(&options.description),
            phase: ToastPhase::Active,
            duration,
            remaining_duration: duration,
            created_at: now,
            last_started_at: now,
            paused_at: if self.paused {
                Some(now)
            } else {
                None
            },
            options,
        };
        self.add_toast(item, now)
    }

    /// Whether a toast of `toast_type` counts down on its own: all but loading toasts do.
    pub fn counts_down(toast_type: ToastType) -> (b: bool)
        ensures
            b == (toast_type != ToastType::Loading),
    {
        toast_type != ToastType::Loading
    }

    /// Dismisses the toast with `id`, or every active toast when `id` is `None`; answers the
    /// ids whose removal is due once the exit delay has passed.
    pub fn dismiss_request(&mut self, id: Option<ToastId>) -> (due: Vec<ToastId>)
        ensures
            final(self).config == old(self).config,
            final(self).paused == old(self).paused,
            final(self).expanded == old(self).expanded,
            final(self).interaction_state == old(self).interaction_state,
            final(self).next_id == old(self).next_id,
            id matches Some(target) ==> {
                &&& due@ == (if super::state::has_active_id(old(self).toasts@, target) {
                    seq![target]
                } else {
                    Seq::empty()
                })
                &&& super::state::has_active_id(old(self).toasts@, target) ==> final(self).toasts@ == old(self).toasts@.update(
                    super::state::first_active_with_id(old(self).toasts@, target),
                    ToastItem {
                        phase: ToastPhase::Dismissing,
                        ..old(self).toasts@[super::state::first_active_with_id(
                            old(self).toasts@,
                            target,
                        )]
                    },
                )
                &&& !super::state::has_active_id(old(self).toasts@, target) ==> final(self).toasts@ == old(self).toasts@
            },
            id is None ==> {
                &&& due@ == super::state::active_ids(old(self).toasts@)
                &&& final(self).toasts@ == old(self).toasts@.map_values(
                    |t: ToastItem| super::state::dismissed_item(t),
                )
            },
    {
        match id {
            Some(target) => {
                if self.dismiss_toast(target) {
                    let due = vec![target];
                    assert(due@ =~= seq![target]);
                    due
                } else {
                    let due: Vec<ToastId> = Vec::new();
                    assert(due@ =~= Seq::<ToastId>::empty());
                    due
                }
            },
            None => self.dismiss_all(),
        }
    }

    /// One countdown tick of the toast with `id` at `now`. A toast that is missing or no longer
    /// active stops its countdown; while the toaster is paused nothing changes; otherwise the
    /// elapsed time is taken off what remains, and a toast with nothing left is dismissed.
    pub fn tick(&mut self, id: ToastId, now: ToastInstant) -> (r: ToastTick)
        ensures
            final(self).config == old(self).config,
            final(self).paused == old(self).paused,
            final(self).expanded == old(self).expanded,
            final(self).interaction_state == old(self).interaction_state,
            final(self).next_id == old(self).next_id,
            !has_id(old(self).toasts@, id) ==> r == ToastTick::Stop && final(self).toasts@ == old(self).toasts@,
            has_id(old(self).toasts@, id) ==> {
                let k = first_with_id(old(self).toasts@, id);
                let t = old(self).toasts@[k];
                let u = ticked_item(t, now);
                &&& is_first_with_id(old(self).toasts@, id, k)
                &&& t.phase != ToastPhase::Active ==> r == ToastTick::Stop && final(self).toasts@
                    == old(self).toasts@
                &&& t.phase == ToastPhase::Active && old(self).paused ==> r == ToastTick::Continue
                    && final(self).toasts@ == old(self).toasts@
                &&& t.phase == ToastPhase::Active && !old(self).paused && u.remaining_duration > 0
                    ==> r == ToastTick::Continue && final(self).toasts@ == old(self).toasts@.update(
                    k,
                    u,
                )
                &&& t.phase == ToastPhase::Active && !old(self).paused && u.remaining_duration == 0
                    ==> r == ToastTick::Expired && final(self).toasts@ == old(self).toasts@.update(
                    k,
                    ToastItem { phase: ToastPhase::Dismissing, ..u },
                )
            },
    {
        let k = match self.position_of(id) {
            Some(k) => k,
            None => return ToastTick::Stop,
        };
        proof {
            let p = |j: int| is_first_with_id(old(self).toasts@, id, j);
            assert(p(k as int));
            let c = first_with_id(old(self).toasts@, id);
            assert(p(c));
            if c < k {
                assert(old(self).toasts@[c].id != id);
            }
            if k < c {
                assert(old(self).toasts@[k as int].id != id);
            }
        }
        if self.toasts[k].phase != ToastPhase::Active {
            return ToastTick::Stop;
        }
        if self.paused {
            return ToastTick::Continue;
        }
        let mut item = self.toasts[k].clone();
        let elapsed = now.saturating_duration_since(item.last_started_at);
        item.remaining_duration = item.remaining_duration.saturating_sub(elapsed);
        item.last_started_at = now;
        if item.remaining_duration == 0 {
            item.phase = ToastPhase::Dismissing;
            self.toasts.set(k, item);
            ToastTick::Expired
        } else {
            self.toasts.set(k, item);
            ToastTick::Continue
        }
    }

    /// The loading toast with `id` learns the outcome of its promise at `now`: it becomes a
    /// success or an error with `title` and counts down afresh. Answers whether it was queued.
    pub fn settle_promise(&mut self, id: ToastId, succeeded: bool, title: String, now: ToastInstant) -> (found:
        bool)
        ensures
            found == has_id(old(self).toasts@, id),
            final(self).config == old(self).config,
            final(self).paused == old(self).paused,
            final(self).expanded == old(self).expanded,
            final(self).interaction_state == old(self).interaction_state,
            final(self).next_id == old(self).next_id,
            !found ==> final(self).toasts@ == old(self).toasts@,
            found ==> {
                let k = first_with_id(old(self).toasts@, id);
                &&& is_first_with_id(old(self).toasts@, id, k)
                &&& final(self).toasts@ == old(self).toasts@.update(
                    k,
                    settled_item(old(self).toasts@[k], succeeded, title, now),
                )
            },
    {
        let k = match self.position_of(id) {
            Some(k) => k,
            None => return false,
        };
        proof {
            let p = |j: int| is_first_with_id(old(self).toasts@, id, j);
            assert(p(k as int));
            let c = first_with_id(old(self).toasts@, id);
            assert(p(c));
            if c < k {
                assert(old(self).toasts@[c].id != id);
            }
            if k < c {
                assert(old(self).toasts@[k as int].id != id);
            }
        }
        let mut item = self.toasts[k].clone();
        item.toast_type = if succeeded {
            ToastType::Success
        } else {
            ToastType::Error
        };
        item.title = title;
        item.phase = ToastPhase::Active;
        item.remaining_duration = item.duration;
        item.last_started_at = now;
        item.paused_at = None;
        self.toasts.set(k, item);
        true
    }

    /// An action button of the toast `toast_id` was clicked and its handler ran: the toast is
    /// dismissed unless the handler prevented it. Answers the removals due after the exit delay.
    pub fn action_clicked(&mut self, toast_id: Option<ToastId>, event: &super::types::ToastActionEvent) -> (due:
        Vec<ToastId>)
        ensures
            final(self).config == old(self).config,
            final(self).paused == old(self).paused,
            final(self).next_id == old(self).next_id,
            toast_id is None || event.default_prevented ==> due@.len() == 0 && final(self).toasts@
                == old(self).toasts@,
            toast_id matches Some(id) ==> (!event.default_prevented ==> {
                &&& due@ == (if has_active_id(old(self).toasts@, id) {
                    seq![id]
                } else {
                    Seq::empty()
                })
                &&& has_active_id(old(self).toasts@, id) ==> final(self).toasts@ == old(self).toasts@.update(
                    first_active_with_id(old(self).toasts@, id),
                    ToastItem {
                        phase: ToastPhase::Dismissing,
                        ..old(self).toasts@[first_active_with_id(old(self).toasts@, id)]
                    },
                )
                &&& !has_active_id(old(self).toasts@, id) ==> final(self).toasts@ == old(self).toasts@
            }),
    {
        match toast_id {
            Some(id) => {
                if event.is_default_prevented() {
                    Vec::new()
                } else {
                    self.dismiss_request(Some(id))
                }
            },
            None => Vec::new(),
        }
    }

    /// Sets where new toasts are shown by default.
    pub fn set_position(&mut self, position: ToastPosition)
        ensures
            final(self).config == (super::types::ToastConfig { position, ..old(self).config }),
            final(self).toasts@ == old(self).toasts@,
            final(self).paused == old(self).paused,
            final(self).expanded == old(self).expanded,
            final(self).interaction_state == old(self).interaction_state,
            final(self).next_id == old(self).next_id,
    {
        self.config.position = position;
    }
}

/// A queued id has a first position.
pub proof fn lemma_first_with_id_exists(toasts: Seq<ToastItem>, id: ToastId)
    requires
        has_id(toasts, id),
    ensures
        is_first_with_id(toasts, id, first_with_id(toasts, id)),
    decreases toasts.len(),
{
    let init = toasts.drop_last();
    if has_id(init, id) {
        lemma_first_with_id_exists(init, id);
        let k = first_with_id(init, id);
        assert forall|j: int| 0 <= j < init.len() implies #[trigger] init[j] == toasts[j] by {}
        assert(toasts[k].id == id);
        assert forall|j: int| 0 <= j < k implies #[trigger] toasts[j].id != id by {
            assert(init[j] == toasts[j]);
        }
        assert(is_first_with_id(toasts, id, k));
    } else {
        let k = toasts.len() - 1;
        assert forall|j: int| 0 <= j < k implies #[trigger] toasts[j].id != id by {
            assert(init[j] == toasts[j]);
        }
        assert(is_first_with_id(toasts, id, k));
    }
}

/// Adding never makes a second record: a toast whose lookup id is queued refreshes that
/// record in place, active again, with the queue's length and every other record kept; any
/// other toast goes in front of the queue under its assigned id.
pub proof fn lemma_add_refreshes_or_prepends(
    toasts: Seq<ToastItem>,
    item: ToastItem,
    now: ToastInstant,
    paused: bool,
    next_id: u64,
)
    ensures
        has_id(toasts, lookup_id(item)) ==> {
            let k = first_with_id(toasts, lookup_id(item));
            let r = added_toasts(toasts, item, now, paused, next_id);
            &&& 0 <= k < toasts.len()
            &&& r.len() == toasts.len()
            &&& r[k].id == toasts[k].id
            &&& r[k].phase == ToastPhase::Active
            &&& forall|j: int| 0 <= j < toasts.len() && j != k ==> #[trigger] r[j] == toasts[j]
        },
        !has_id(toasts, lookup_id(item)) ==> {
            let r = added_toasts(toasts, item, now, paused, next_id);
            &&& r.len() == toasts.len() + 1
            &&& r[0].id == assigned_id(toasts, item, next_id)
            &&& r.subrange(1, r.len() as int) == toasts
        },
{
    if has_id(toasts, lookup_id(item)) {
        lemma_first_with_id_exists(toasts, lookup_id(item));
    } else {
        let r = added_toasts(toasts, item, now, paused, next_id);
        assert(r.subrange(1, r.len() as int) =~= toasts);
    }
}

/// Adding a toast again under a queued id restarts that record's countdown in full: it keeps
/// its id and place, takes the new type, title, description, duration and options, has the
/// whole new duration ahead, starts at `now` (paused there when the toaster is paused) and is
/// active again.
pub proof fn lemma_refresh_restarts_the_countdown(
    toasts: Seq<ToastItem>,
    item: ToastItem,
    now: ToastInstant,
    paused: bool,
    next_id: u64,
)
    requires
        has_id(toasts, lookup_id(item)),
    ensures
        ({
            let k = first_with_id(toasts, lookup_id(item));
            let r = added_toasts(toasts, item, now, paused, next_id)[k];
            &&& 0 <= k < toasts.len()
            &&& toasts[k].id == lookup_id(item)
            &&& r.id == toasts[k].id
            &&& r.toast_type == item.toast_type
            &&& r.title == item.title
            &&& r.description == item.description
            &&& r.options == item.options
            &&& r.duration == item.duration
            &&& r.remaining_duration == item.duration
            &&& r.created_at == now
            &&& r.last_started_at == now
            &&& r.paused_at == (if paused {
                Some(now)
            } else {
                None
            })
            &&& r.phase == ToastPhase::Active
        }),
{
    lemma_first_with_id_exists(toasts, lookup_id(item));
}

/// Pausing never adds time to a countdown, and resuming right after gives back a running
/// toast with the time it had left, started again at the resume.
pub proof fn lemma_pause_then_resume(t: ToastItem, pause_at: ToastInstant, resume_at: ToastInstant)
    ensures
        paused_item(t, pause_at).remaining_duration <= t.remaining_duration,
        t.phase == ToastPhase::Active && t.paused_at is None ==> resumed_item(
            paused_item(t, pause_at),
            resume_at,
        ) == (ToastItem {
            remaining_duration: paused_item(t, pause_at).remaining_duration,
            last_started_at: resume_at,
            paused_at: None,
            ..t
        }),
        t.phase != ToastPhase::Active ==> resumed_item(paused_item(t, pause_at), resume_at) == t,
{
}

/// A tick never adds time, and it expires the countdown exactly when the time since the last
/// start has used up what remained.
pub proof fn lemma_tick_expires_when_due(t: ToastItem, now: ToastInstant)
    ensures
        ticked_item(t, now).remaining_duration <= t.remaining_duration,
        ticked_item(t, now).remaining_duration == 0 <==> (t.remaining_duration == 0 || (now.millis
            >= t.last_started_at.millis && now.millis - t.last_started_at.millis
            >= t.remaining_duration)),
{
}

/// Dismissing everything leaves no toast active, and keeps every toast queued.
pub proof fn lemma_dismiss_all_leaves_none_active(toasts: Seq<ToastItem>)
    ensures
        toasts.map_values(|t: ToastItem| dismissed_item(t)).len() == toasts.len(),
        forall|j: int|
            0 <= j < toasts.len() ==> toasts.map_values(|t: ToastItem| dismissed_item(t))[j].phase
                != ToastPhase::Active && #[trigger] toasts[j].id == toasts.map_values(
                |t: ToastItem| dismissed_item(t),
            )[j].id,
{
}

} // verus!
