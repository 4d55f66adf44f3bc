use vstd::prelude::*;
use crate::foundation::{
    overlay::{
        DismissLayerView, PlacementAlign, PlacementSide, DocumentDismissEvent, Presence, PresenceCloseCycleId, PresenceController,
        PresenceControllerUpdate, PresenceState,
    },
    shared::{contains_text, opt_text_view, text_eq, texts_view},
    state::DataState,
};
use super::{
    attrs::{
        PopoverAnchorAttributes, PopoverArrowAttributes, PopoverCloseAttributes,
        PopoverContentAttributes, PopoverPortalAttributes, PopoverRootAttributes,
        PopoverTriggerAttributes,
    },
    relationships::PopoverRelationships,
    state::{restore_target_for, Popover, PopoverLifecycle, PopoverView},
    types::{
        OpenFocusPolicyView, PopoverCloseFocusPolicy, PopoverOpenFocusPolicy,
        PopoverStateRequest,
    },
};

verus! {

/// The mount state of the popover content, which stays rendered until its close cycle ends.
#[derive(Clone, Copy, Debug, PartialEq, Eq)]
pub struct PopoverContentPresenceLane {
    pub content: PresenceController,
}

impl PopoverContentPresenceLane {
    pub open spec fn wf(self) -> bool {
        self.content.wf()
    }

    pub open spec fn spec_should_render_content(self) -> bool {
        self.content.spec_should_render()
    }

    pub fn new(presence: &Presence) -> (lane: Self)
        ensures
            lane.wf(),
            lane.content.state == (if presence.desired_present {
                PresenceState::Present
            } else {
                PresenceState::Absent
            }),
            lane.content.retain_mount == presence.retain_mount,
            lane.content.pending_cycle is None,
    {
        PopoverContentPresenceLane {
            content: PresenceController::new(presence.desired_present()).with_retained_mount(
                presence.retain_mount(),
            ),
        }
    }

    pub fn sync(&mut self, desired_present: bool) -> (u: PresenceControllerUpdate)
        requires
            old(self).wf(),
        ensures
            final(self).wf(),
            u.state == final(self).content.state,
            u.should_render == final(self).spec_should_render_content(),
            desired_present ==> final(self).content.state == PresenceState::Present
                && u.invalidated_close_cycle == old(self).content.pending_cycle,
            !desired_present && old(self).content.state == PresenceState::Present
                && old(self).content.retain_mount ==> final(self).content.state
                == PresenceState::Suspended && u.started_close_cycle
                == final(self).content.pending_cycle && u.started_close_cycle is Some,
            !desired_present && old(self).content.state == PresenceState::Present
                && !old(self).content.retain_mount ==> final(self).content.state
                == PresenceState::Absent,
            !desired_present && old(self).content.state != PresenceState::Present ==> *final(self)
                == *old(self) && u.started_close_cycle is None,
    {
        self.content.sync(desired_present)
    }

    /// The portal renders exactly while the content does.
    pub fn should_render_portal(&self) -> (b: bool)
        ensures
            b == self.spec_should_render_content(),
    {
        self.should_render_content()
    }

    pub fn should_render_content(&self) -> (b: bool)
        ensures
            b == self.spec_should_render_content(),
    {
        self.content.should_render()
    }

    /// Placement is tracked while the popover is wanted open and its content is rendered.
    pub fn should_track_live_placement(&self, desired_present: bool) -> (b: bool)
        ensures
            b == (desired_present && self.spec_should_render_content()),
    {
        desired_present && self.should_render_content()
    }

    /// Positioning is cleared once the popover is closed and its content is gone.
    pub fn should_clear_positioning(&self, desired_present: bool) -> (b: bool)
        ensures
            b == (!desired_present && !self.spec_should_render_content()),
    {
        !desired_present && !self.should_render_content()
    }

    pub fn complete_close_cycle(&mut self, cycle_id: PresenceCloseCycleId) -> (done: bool)
        requires
            old(self).wf(),
        ensures
            final(self).wf(),
            done == (old(self).content.state == PresenceState::Suspended
                && old(self).content.pending_cycle == Some(cycle_id)),
            done ==> final(self).content.state == PresenceState::Absent,
            !done ==> *final(self) == *old(self),
    {
        self.content.complete_close_cycle(cycle_id)
    }
}

/// A path id belongs to the popover: its content, trigger, anchor, focus guards or a
/// registered branch.
pub open spec fn id_is_inside(popover: PopoverView, id: Seq<char>) -> bool {
    ||| id == popover.relationships.content_id
    ||| id == popover.relationships.trigger_id
    ||| id == popover.relationships.anchor_id
    ||| id == popover.lifecycle.focus_guard_before
    ||| id == popover.lifecycle.focus_guard_after
    ||| popover.lifecycle.dismiss_layer.branches.contains(id)
}

/// Some id on the path belongs to the popover.
pub open spec fn path_is_inside(popover: PopoverView, path: Seq<Seq<char>>) -> bool {
    exists|i: int| 0 <= i < path.len() && id_is_inside(popover, #[trigger] path[i])
}

/// The layer stack the popover dismisses against: its content alone.
pub open spec fn dismiss_stack(popover: PopoverView) -> Seq<Seq<char>> {
    seq![popover.relationships.content_id]
}

fn id_is_inside_exec(popover: &Popover, id: &str) -> (b: bool)
    ensures
        b == id_is_inside(popover@, id@),
{
    let relationships = popover.relationships();
    let focus_guards = popover.lifecycle().focus_guards();
    let dismiss_layer = popover.lifecycle().dismiss_layer();
    text_eq(id, relationships.content_id()) || text_eq(id, relationships.trigger_id()) || text_eq(
        id,
        relationships.anchor_id(),
    ) || text_eq(id, focus_guards.before().as_str()) || text_eq(id, focus_guards.after().as_str())
        || contains_text(dismiss_layer.branches(), id)
}

/// Whether any id on the event path belongs to the popover.
pub fn popover_document_path_is_inside(popover: &Popover, path_ids: &[String]) -> (b: bool)
    ensures
        b == path_is_inside(popover@, texts_view(path_ids@)),
{
    let ghost path = texts_view(path_ids@);
    let mut i: usize = 0;
    while i < path_ids.len()
        invariant
            0 <= i <= path_ids@.len(),
            path == texts_view(path_ids@),
            forall|j: int| 0 <= j < i ==> !id_is_inside(popover@, #[trigger] path[j]),
        decreases path_ids@.len() - i,
    {
        if id_is_inside_exec(popover, path_ids[i].as_str()) {
            assert(id_is_inside(popover@, path[i as int]));
            return true;
        }
        i = i + 1;
    }
    false
}

/// Whether no id on the event path belongs to the popover.
pub fn popover_document_path_is_outside(popover: &Popover, path_ids: &[String]) -> (b: bool)
    ensures
        b == !path_is_inside(popover@, texts_view(path_ids@)),
{
    !popover_document_path_is_inside(popover, path_ids)
}

pub fn popover_dismiss_stack(popover: &Popover) -> (stack: Vec<String>)
    ensures
        texts_view(stack@) == dismiss_stack(popover@),
{
    let stack = vec![popover.relationships().content_id().to_owned()];
    assert(texts_view(stack@) =~= dismiss_stack(popover@));
    stack
}

/// Whether a document interaction closes the popover.
pub open spec fn spec_dismisses_on(popover: PopoverView, event: DocumentDismissEvent) -> bool {
    let layer = popover.lifecycle.dismiss_layer;
    let stack = dismiss_stack(popover);
    match event {
        DocumentDismissEvent::PointerDown { path_ids } => !path_is_inside(
            popover,
            texts_view(path_ids@),
        ) && layer.pointer_down_outside_dismiss && layer.is_top_of(stack),
        DocumentDismissEvent::FocusIn { path_ids } => !path_is_inside(
            popover,
            texts_view(path_ids@),
        ) && layer.focus_outside_dismiss && layer.is_top_of(stack),
        DocumentDismissEvent::Escape => layer.is_top_of(stack),
    }
}

/// A pointer-down or focus move whose path leaves the popover, or an escape press, closes the
/// popover when its dismiss layer allows it and is the topmost layer.
pub fn should_dismiss_popover_from_document_event(
    popover: &Popover,
    event: &DocumentDismissEvent,
) -> (b: bool)
    ensures
        b == spec_dismisses_on(popover@, *event),
{
    let dismiss_stack = popover_dismiss_stack(popover);
    match event {
        DocumentDismissEvent::PointerDown { path_ids } => {
            popover_document_path_is_outside(popover, path_ids.as_slice())
                && popover.lifecycle().dismiss_layer().should_dismiss_outside_pointer(
                None,
                dismiss_stack.as_slice(),
            )
        },
        DocumentDismissEvent::FocusIn { path_ids } => {
            popover_document_path_is_outside(popover, path_ids.as_slice())
                && popover.lifecycle().dismiss_layer().should_dismiss_outside_focus(
                None,
                dismiss_stack.as_slice(),
            )
        },
        DocumentDismissEvent::Escape => popover.lifecycle().dismiss_layer().should_dismiss_escape(
            dismiss_stack.as_slice(),
        ),
    }
}

fn opt_str_to_string(target: Option<&str>) -> (r: Option<String>)
    ensures
        match target {
            Some(t) => r matches Some(s) && s@ == t@,
            None => r is None,
        },
{
    match target {
        Some(t) => Some(t.to_owned()),
        None => None,
    }
}

/// The view of an optional target id.
pub open spec fn opt_str_view(target: Option<&str>) -> Option<Seq<char>> {
    match target {
        Some(t) => Some(t@),
        None => None,
    }
}

/// Escape closes the popover when its layer is the topmost one.
pub fn popover_dismisses_escape(popover: &Popover) -> (b: bool)
    ensures
        b == popover@.lifecycle.dismiss_layer.is_top_of(dismiss_stack(popover@)),
{
    let stack = popover_dismiss_stack(popover);
    popover.lifecycle().dismiss_layer().should_dismiss_escape(stack.as_slice())
}

/// A pointer-down at `target` closes the popover when the layer dismisses on outside pointers,
/// is the topmost one, and `target` is neither the content nor one of its branches.
pub fn popover_dismisses_outside_pointer(popover: &Popover, target: Option<&str>) -> (b: bool)
    ensures
        b == ({
            let layer = popover@.lifecycle.dismiss_layer;
            layer.pointer_down_outside_dismiss && layer.is_top_of(dismiss_stack(popover@))
                && layer.is_outside(opt_str_view(target))
        }),
{
    let target = opt_str_to_string(target);
    let stack = popover_dismiss_stack(popover);
    popover.lifecycle().dismiss_layer().should_dismiss_outside_pointer(
        target.as_ref(),
        stack.as_slice(),
    )
}

/// Focus moving to `target` closes the popover when the layer dismisses on outside focus, is
/// the topmost one, and `target` is neither the content nor one of its branches.
pub fn popover_dismisses_outside_focus(popover: &Popover, target: Option<&str>) -> (b: bool)
    ensures
        b == ({
            let layer = popover@.lifecycle.dismiss_layer;
            layer.focus_outside_dismiss && layer.is_top_of(dismiss_stack(popover@))
                && layer.is_outside(opt_str_view(target))
        }),
{
    let target = opt_str_to_string(target);
    let stack = popover_dismiss_stack(popover);
    popover.lifecycle().dismiss_layer().should_dismiss_outside_focus(
        target.as_ref(),
        stack.as_slice(),
    )
}

/// The open state a request leads to, and whether the owner must be told of it: only when
/// the state changes.
pub fn popover_request_state(popover: &Popover, request: PopoverStateRequest) -> (r: (bool, bool))
    ensures
        r.0 == request.spec_next_open(popover@.open),
        r.1 == (r.0 != popover@.open),
{
    let next_open = request.next_open(popover.is_open());
    (next_open, next_open != popover.is_open())
}

/// The runtime flags that survive between two syncs of a popover.
#[derive(Clone, Copy, Debug, PartialEq, Eq)]
pub struct PopoverSyncState {
    pub last_open: bool,
    pub pending_open_focus: bool,
    pub scroll_lock_held: bool,
}

/// What a sync of the popover runtime must do, and the flags it leaves.
#[derive(Clone, Copy, Debug, PartialEq, Eq)]
pub struct PopoverSyncPlan {
    /// Start moving focus into the content.
    pub schedule_open_focus: bool,
    /// Take the page scroll lock.
    pub acquire_scroll_lock: bool,
    /// Give the scroll lock back, after the delay when one is given.
    pub release_scroll_lock: Option<Option<u64>>,
    /// Move focus back as the close-focus policy says.
    pub restore_close_focus: bool,
    pub next: PopoverSyncState,
}

/// The scroll lock is held while a modal popover with an enabled lock policy is open.
pub open spec fn should_hold_scroll_lock(popover: PopoverView) -> bool {
    popover.open && popover.lifecycle.modal && popover.lifecycle.scroll_lock_policy.spec_enabled()
}

/// Decides the effects of one sync of the popover runtime from the popover and the flags the
/// previous sync left.
pub fn plan_popover_sync(popover: &Popover, state: PopoverSyncState) -> (plan: PopoverSyncPlan)
    ensures
        plan.schedule_open_focus == (popover@.open && !state.last_open
            && !state.pending_open_focus),
        plan.acquire_scroll_lock == (should_hold_scroll_lock(popover@) && !state.scroll_lock_held),
        plan.release_scroll_lock == (if !should_hold_scroll_lock(popover@) && state.scroll_lock_held {
            Some(
                if state.last_open && !popover@.open {
                    popover@.lifecycle.scroll_lock_policy.spec_restore_delay()
                } else {
                    None
                },
            )
        } else {
            None
        }),
        plan.restore_close_focus == (!popover@.open && state.last_open),
        plan.next.last_open == popover@.open,
        plan.next.scroll_lock_held == should_hold_scroll_lock(popover@),
        plan.next.pending_open_focus == (popover@.open && (state.pending_open_focus
            || !state.last_open)),
{
    let is_open = popover.is_open();
    let was_open = state.last_open;
    let should_hold = is_open && popover.lifecycle().is_modal()
        && popover.lifecycle().scroll_lock_policy().is_enabled();
    let mut pending_open_focus = state.pending_open_focus;
    let mut schedule_open_focus = false;
    if is_open && !was_open && !pending_open_focus {
        pending_open_focus = true;
        schedule_open_focus = true;
    }
    let mut acquire = false;
    let mut release = None;
    let mut held = state.scroll_lock_held;
    if should_hold && !held {
        acquire = true;
        held = true;
    } else if !should_hold && held {
        let restore_delay = if was_open && !is_open {
            popover.lifecycle().scroll_lock_policy().restore_delay()
        } else {
            None
        };
        release = Some(restore_delay);
        held = false;
    }
    let mut restore = false;
    if !is_open {
        if was_open {
            restore = true;
        }
        pending_open_focus = false;
    }
    PopoverSyncPlan {
        schedule_open_focus,
        acquire_scroll_lock: acquire,
        release_scroll_lock: release,
        restore_close_focus: restore,
        next: PopoverSyncState { last_open: is_open, pending_open_focus, scroll_lock_held: held },
    }
}

/// One attempt at moving focus into an opened popover.
#[derive(Clone, Debug, PartialEq, Eq)]
pub enum PopoverOpenFocusStep {
    /// Nothing is left to do.
    Done,
    /// The content is not mounted yet: try again on a later frame.
    Wait,
    /// Focus the first focusable element of the content; that ends the attempt.
    FocusFirst,
    /// Focus the registered target with this id; the attempt ends once it holds focus.
    FocusTarget(String),
}

/// What opening asks of focus: nothing when autofocus is off or the policy suppresses it; the
/// first focusable element once the content is mounted; else the policy's target.
pub fn popover_open_focus_step(popover: &Popover, content_mounted: bool) -> (step:
    PopoverOpenFocusStep)
    ensures
        !popover@.lifecycle.focus_scope.autofocus_enabled ==> step == PopoverOpenFocusStep::Done,
        popover@.lifecycle.focus_scope.autofocus_enabled ==> match popover@.lifecycle.open_focus_policy {
            OpenFocusPolicyView::FirstFocusable => step == if content_mounted {
                PopoverOpenFocusStep::FocusFirst
            } else {
                PopoverOpenFocusStep::Wait
            },
            OpenFocusPolicyView::Target(t) => step matches PopoverOpenFocusStep::FocusTarget(id)
                && id@ == t,
            OpenFocusPolicyView::Suppress => step == PopoverOpenFocusStep::Done,
        },
{
    let lifecycle = popover.lifecycle();
    if !lifecycle.focus_scope().autofocus_enabled() {
        return PopoverOpenFocusStep::Done;
    }
    match lifecycle.open_focus_policy() {
        PopoverOpenFocusPolicy::FirstFocusable => {
            if content_mounted {
                PopoverOpenFocusStep::FocusFirst
            } else {
                PopoverOpenFocusStep::Wait
            }
        },
        PopoverOpenFocusPolicy::Target(t) => PopoverOpenFocusStep::FocusTarget(t.clone()),
        PopoverOpenFocusPolicy::Suppress => PopoverOpenFocusStep::Done,
    }
}

/// Where focus returns when the popover closes: the trigger, the policy's target, or nowhere.
pub fn popover_close_focus_target(popover: &Popover) -> (target: Option<String>)
    ensures
        opt_text_view(target) == restore_target_for(
            popover@.lifecycle.close_focus_policy,
            popover@.relationships.trigger_id,
        ),
{
    match popover.lifecycle().close_focus_policy() {
        PopoverCloseFocusPolicy::Trigger => Some(popover.relationships().trigger_id().to_owned()),
        PopoverCloseFocusPolicy::Target(t) => Some(t.clone()),
        PopoverCloseFocusPolicy::NoFocus => None,
    }
}

/// The model of the popover runtime.
pub struct PopoverRuntimeView {
    pub popover: PopoverView,
    pub presence: PopoverContentPresenceLane,
    pub sync: PopoverSyncState,
    pub placement: Option<(PlacementSide, PlacementAlign)>,
    pub content_mounted: bool,
}

impl PopoverRuntimeView {
    pub open spec fn wf(self) -> bool {
        self.presence.wf()
    }

    /// The side the content is shown on: the measured one, else the preferred one.
    pub open spec fn shown_side(self) -> PlacementSide {
        match self.placement {
            Some(p) => p.0,
            None => self.popover.lifecycle.floating.side,
        }
    }

    pub open spec fn shown_align(self) -> PlacementAlign {
        match self.placement {
            Some(p) => p.1,
            None => self.popover.lifecycle.floating.align,
        }
    }
}

/// The live state of a popover: the popover its owner passes in, the presence of its content,
/// the flags kept between syncs, the measured placement and whether the content is mounted.
#[derive(Debug)]
pub struct PopoverRuntime {
    pub(crate) popover: Popover,
    pub(crate) presence_lane: PopoverContentPresenceLane,
    pub(crate) sync_state: PopoverSyncState,
    pub(crate) placement: Option<(PlacementSide, PlacementAlign)>,
    pub(crate) content_mounted: bool,
}

impl View for PopoverRuntime {
    type V = PopoverRuntimeView;

    open(crate) spec fn view(&self) -> PopoverRuntimeView {
        PopoverRuntimeView {
            popover: self.popover@,
            presence: self.presence_lane,
            sync: self.sync_state,
            placement: self.placement,
            content_mounted: self.content_mounted,
        }
    }
}

impl PopoverRuntime {
    /// Starts with the content present as the popover asks, focus pending when it starts
    /// open, no scroll lock held, nothing measured and nothing mounted.
    pub fn new(popover: Popover) -> (r: Self)
        ensures
            r@.wf(),
            r@.popover == popover@,
            r@.presence.content.state == (if popover@.lifecycle.presence.desired_present {
                PresenceState::Present
            } else {
                PresenceState::Absent
            }),
            r@.presence.content.retain_mount == popover@.lifecycle.presence.retain_mount,
            r@.sync == (PopoverSyncState {
                last_open: popover@.open,
                pending_open_focus: popover@.open,
                scroll_lock_held: false,
            }),
            r@.placement is None,
            !r@.content_mounted,
    {
        let lane = PopoverContentPresenceLane::new(popover.lifecycle().presence());
        let open = popover.is_open();
        PopoverRuntime {
            popover,
            presence_lane: lane,
            sync_state: PopoverSyncState {
                last_open: open,
                pending_open_focus: open,
                scroll_lock_held: false,
            },
            placement: None,
            content_mounted: false,
        }
    }

    pub fn popover(&self) -> (p: &Popover)
        ensures
            p@ == self@.popover,
    {
        &self.popover
    }

    pub fn is_open(&self) -> (b: bool)
        ensures
            b == self@.popover.open,
    {
        self.popover.is_open()
    }

    pub fn data_state(&self) -> (s: DataState)
        ensures
            s == self@.popover.data_state(),
    {
        self.popover.data_state()
    }

    pub fn relationships(&self) -> (r: &PopoverRelationships)
        ensures
            r@ == self@.popover.relationships,
    {
        self.popover.relationships()
    }

    pub fn lifecycle(&self) -> (l: &PopoverLifecycle)
        ensures
            l@ == self@.popover.lifecycle,
    {
        self.popover.lifecycle()
    }

    pub fn root(&self) -> (a: PopoverRootAttributes)
        ensures
            a@.id == self@.popover.relationships.root_id,
            a@.data_state == self@.popover.data_state(),
    {
        self.popover.root()
    }

    pub fn trigger(&self) -> (a: PopoverTriggerAttributes)
        ensures
            a@.id == self@.popover.relationships.trigger_id,
            a@.aria_controls == self@.popover.relationships.content_id,
            a@.aria_expanded == self@.popover.open,
            a@.data_state == self@.popover.data_state(),
            a@.open_request == PopoverStateRequest::Toggle,
    {
        self.popover.trigger()
    }

    pub fn anchor(&self) -> (a: PopoverAnchorAttributes)
        ensures
            a@.id == self@.popover.relationships.anchor_id,
    {
        self.popover.anchor()
    }

    pub fn portal(&self) -> (a: PopoverPortalAttributes)
        ensures
            a@ == self@.popover.lifecycle.portal_host,
    {
        self.popover.portal()
    }

    pub fn should_render_portal(&self) -> (b: bool)
        ensures
            b == self@.presence.spec_should_render_content(),
    {
        self.presence_lane.should_render_portal()
    }

    pub fn should_render_content(&self) -> (b: bool)
        ensures
            b == self@.presence.spec_should_render_content(),
    {
        self.presence_lane.should_render_content()
    }

    /// The content, on the measured side and alignment once there is a placement.
    pub fn content(&self) -> (a: PopoverContentAttributes)
        ensures
            a@.id == self@.popover.relationships.content_id,
            a@.role == "dialog"@,
            a@.aria_modal == self@.popover.lifecycle.dismiss_layer.modal,
            a@.data_state == self@.popover.data_state(),
            a@.data_side == self@.shown_side().spec_text(),
            a@.data_align == self@.shown_align().spec_text(),
    {
        let mut a = self.popover.content();
        if let Some((side, align)) = self.placement {
            a.data_side = side.as_str();
            a.data_align = align.as_str();
        }
        a
    }

    /// The arrow, on the measured side and alignment once there is a placement.
    pub fn arrow(&self) -> (a: PopoverArrowAttributes)
        ensures
            a@.id == self@.popover.relationships.arrow_id,
            a@.data_state == self@.popover.data_state(),
            a@.data_side == self@.shown_side().spec_text(),
            a@.data_align == self@.shown_align().spec_text(),
    {
        let mut a = self.popover.arrow();
        if let Some((side, align)) = self.placement {
            a.data_side = side.as_str();
            a.data_align = align.as_str();
        }
        a
    }

    pub fn close(&self) -> (a: PopoverCloseAttributes)
        ensures
            a@.id == self@.popover.relationships.close_id,
            a@.data_state == self@.popover.data_state(),
            a@.close_request == PopoverStateRequest::Close,
    {
        self.popover.close()
    }

    /// The measured placement, when there is one.
    pub fn placement(&self) -> (p: Option<(PlacementSide, PlacementAlign)>)
        ensures
            p == self@.placement,
    {
        self.placement
    }

    /// Records a measured placement.
    pub fn set_placement(&mut self, side: PlacementSide, align: PlacementAlign)
        ensures
            final(self)@ == (PopoverRuntimeView { placement: Some((side, align)), ..old(self)@ }),
    {
        self.placement = Some((side, align));
    }

    /// The open state `request` leads to; the owner's open-change handler is due with it when
    /// it differs from the current state (the second item).
    pub fn request_state(&self, request: PopoverStateRequest) -> (r: (bool, bool))
        ensures
            r.0 == request.spec_next_open(self@.popover.open),
            r.1 == (r.0 != self@.popover.open),
    {
        popover_request_state(&self.popover, request)
    }

    pub fn open(&self) -> (r: (bool, bool))
        ensures
            r.0 == PopoverStateRequest::Open.spec_next_open(self@.popover.open),
            r.1 == (r.0 != self@.popover.open),
    {
        self.request_state(PopoverStateRequest::Open)
    }

    pub fn close_now(&self) -> (r: (bool, bool))
        ensures
            r.0 == PopoverStateRequest::Close.spec_next_open(self@.popover.open),
            r.1 == (r.0 != self@.popover.open),
    {
        self.request_state(PopoverStateRequest::Close)
    }

    pub fn toggle(&self) -> (r: (bool, bool))
        ensures
            r.0 == PopoverStateRequest::Toggle.spec_next_open(self@.popover.open),
            r.1 == (r.0 != self@.popover.open),
    {
        self.request_state(PopoverStateRequest::Toggle)
    }

    /// Whether escape dismisses the popover; the owner then closes it (`close_now`).
    pub fn dismiss_escape(&self) -> (b: bool)
        ensures
            b == self@.popover.lifecycle.dismiss_layer.is_top_of(dismiss_stack(self@.popover)),
    {
        popover_dismisses_escape(&self.popover)
    }

    /// Whether a pointer-down at `target` dismisses the popover.
    pub fn dismiss_outside_pointer(&self, target: Option<&str>) -> (b: bool)
        ensures
            b == ({
                let layer = self@.popover.lifecycle.dismiss_layer;
                layer.pointer_down_outside_dismiss && layer.is_top_of(dismiss_stack(self@.popover))
                    && layer.is_outside(opt_str_view(target))
            }),
    {
        popover_dismisses_outside_pointer(&self.popover, target)
    }

    /// Whether focus moving to `target` dismisses the popover.
    pub fn dismiss_outside_focus(&self, target: Option<&str>) -> (b: bool)
        ensures
            b == ({
                let layer = self@.popover.lifecycle.dismiss_layer;
                layer.focus_outside_dismiss && layer.is_top_of(dismiss_stack(self@.popover))
                    && layer.is_outside(opt_str_view(target))
            }),
    {
        popover_dismisses_outside_focus(&self.popover, target)
    }

    /// Whether a document event dismisses the popover.
    pub fn dismisses_on(&self, event: &DocumentDismissEvent) -> (b: bool)
        ensures
            b == spec_dismisses_on(self@.popover, *event),
    {
        should_dismiss_popover_from_document_event(&self.popover, event)
    }

    /// Records that the content is mounted.
    pub fn capture_content(&mut self)
        ensures
            final(self)@ == (PopoverRuntimeView { content_mounted: true, ..old(self)@ }),
    {
        self.content_mounted = true;
    }

    /// The next step of moving focus into the content, while that is pending on an open
    /// popover; nothing otherwise.
    pub fn open_focus_step(&self) -> (step: PopoverOpenFocusStep)
        ensures
            !(self@.popover.open && self@.sync.pending_open_focus) ==> step
                == PopoverOpenFocusStep::Done,
            self@.popover.open && self@.sync.pending_open_focus ==> {
                &&& !self@.popover.lifecycle.focus_scope.autofocus_enabled ==> step
                    == PopoverOpenFocusStep::Done
                &&& self@.popover.lifecycle.focus_scope.autofocus_enabled ==> match self@.popover.lifecycle.open_focus_policy {
                    OpenFocusPolicyView::FirstFocusable => step == if self@.content_mounted {
                        PopoverOpenFocusStep::FocusFirst
                    } else {
                        PopoverOpenFocusStep::Wait
                    },
                    OpenFocusPolicyView::Target(t) => step matches PopoverOpenFocusStep::FocusTarget(
                        id,
                    ) && id@ == t,
                    OpenFocusPolicyView::Suppress => step == PopoverOpenFocusStep::Done,
                }
            },
    {
        if !(self.popover.is_open() && self.sync_state.pending_open_focus) {
            return PopoverOpenFocusStep::Done;
        }
        popover_open_focus_step(&self.popover, self.content_mounted)
    }

    /// Records that moving focus into the content is done.
    pub fn finish_open_focus(&mut self)
        ensures
            final(self)@ == (PopoverRuntimeView {
                sync: PopoverSyncState { pending_open_focus: false, ..old(self)@.sync },
                ..old(self)@
            }),
    {
        self.sync_state.pending_open_focus = false;
    }

    /// Takes the popover its owner now passes in and brings the runtime in step with it: the
    /// content presence follows the open state, and the plan says what to do about focus and
    /// the scroll lock. A closed popover whose content is gone forgets its placement and
    /// mount.
    pub fn sync(&mut self, popover: Popover) -> (r: (PresenceControllerUpdate, PopoverSyncPlan))
        requires
            old(self)@.wf(),
        ensures
            final(self)@.wf(),
            final(self)@.popover == popover@,
            r.0.state == final(self)@.presence.content.state,
            popover@.open ==> final(self)@.presence.content.state == PresenceState::Present,
            r.1.schedule_open_focus == (popover@.open && !old(self)@.sync.last_open
                && !old(self)@.sync.pending_open_focus),
            r.1.restore_close_focus == (!popover@.open && old(self)@.sync.last_open),
            r.1.acquire_scroll_lock == (should_hold_scroll_lock(popover@)
                && !old(self)@.sync.scroll_lock_held),
            r.1.release_scroll_lock == (if !should_hold_scroll_lock(popover@)
                && old(self)@.sync.scroll_lock_held {
                Some(
                    if old(self)@.sync.last_open && !popover@.open {
                        popover@.lifecycle.scroll_lock_policy.spec_restore_delay()
                    } else {
                        None
                    },
                )
            } else {
                None
            }),
            final(self)@.sync == r.1.next,
            r.1.next.last_open == popover@.open,
            r.1.next.scroll_lock_held == should_hold_scroll_lock(popover@),
            r.1.next.pending_open_focus == (popover@.open && (old(self)@.sync.pending_open_focus
                || !old(self)@.sync.last_open)),
            !popover@.open && !final(self)@.presence.spec_should_render_content() ==> final(self)@.placement is None && !final(self)@.content_mounted,
            popover@.open || final(self)@.presence.spec_should_render_content() ==> final(self)@.placement == old(self)@.placement && final(self)@.content_mounted == old(self)@.content_mounted,
    {
        let open = popover.is_open();
        let update = self.presence_lane.sync(open);
        let plan = plan_popover_sync(&popover, self.sync_state);
        self.sync_state = plan.next;
        self.popover = popover;
        if self.presence_lane.should_clear_positioning(open) {
            self.placement = None;
            self.content_mounted = false;
        }
        (update, plan)
    }

    /// Ends a close cycle of the content once its exit finished; the content's placement and
    /// mount are then forgotten.
    pub fn complete_presence_close_cycle(&mut self, cycle_id: PresenceCloseCycleId) -> (done: bool)
        requires
            old(self)@.wf(),
        ensures
            final(self)@.wf(),
            done == (old(self)@.presence.content.state == PresenceState::Suspended
                && old(self)@.presence.content.pending_cycle == Some(cycle_id)),
            done ==> final(self)@.presence.content.state == PresenceState::Absent
                && final(self)@.placement is None && !final(self)@.content_mounted,
            !done ==> final(self)@ == old(self)@,
            final(self)@.popover == old(self)@.popover,
            final(self)@.sync == old(self)@.sync,
    {
        let done = self.presence_lane.complete_close_cycle(cycle_id);
        if done {
            self.placement = None;
            self.content_mounted = false;
        }
        done
    }
}

/// The inline style text ` name: value;` repeated for each entry.
pub open spec fn css_text(entries: Seq<(Seq<char>, Seq<char>)>) -> Seq<char>
    decreases entries.len(),
{
    if entries.len() == 0 {
        Seq::empty()
    } else {
        let last = entries.last();
        css_text(entries.drop_last()) + " "@ + last.0 + ": "@ + last.1 + ";"@
    }
}

/// The views of name/value pairs.
pub open spec fn pairs_view(entries: Seq<(String, String)>) -> Seq<(Seq<char>, Seq<char>)> {
    entries.map_values(|e: (String, String)| (e.0@, e.1@))
}

/// Serializes CSS custom properties into inline style text.
pub fn serialize_css_custom_properties(entries: &[(String, String)]) -> (style: String)
    ensures
        style@ == css_text(pairs_view(entries@)),
{
    let ghost all = pairs_view(entries@);
    let mut style = String::new();
    let mut i: usize = 0;
    while i < entries.len()
        invariant
            0 <= i <= entries@.len(),
            all == pairs_view(entries@),
            style@ == css_text(all.take(i as int)),
        decreases entries@.len() - i,
    {
        let (name, value) = &entries[i];
        style.append(" ");
        style.append(name.as_str());
        style.append(": ");
        style.append(value.as_str());
        style.append(";");
        proof {
            reveal_strlit(" ");
            reveal_strlit(": ");
            reveal_strlit(";");
            assert(all.take(i + 1).drop_last() =~= all.take(i as int));
        }
        i = i + 1;
    }
    assert(all.take(entries@.len() as int) =~= all);
    style
}

/// A document path is outside exactly when it is not inside.
pub proof fn lemma_outside_is_not_inside(popover: PopoverView, path: Seq<Seq<char>>)
    ensures
        !path_is_inside(popover, path) <==> forall|i: int|
            0 <= i < path.len() ==> !id_is_inside(popover, #[trigger] path[i]),
{
}

/// In a consistent popover, escape always closes it: its dismiss layer is its content, which is
/// the whole dismiss stack.
pub proof fn lemma_escape_always_dismisses(popover: PopoverView)
    requires
        popover.wf(),
    ensures
        popover.lifecycle.dismiss_layer.is_top_of(dismiss_stack(popover)),
{
}

/// Registered branches count as inside the popover.
pub proof fn lemma_branch_is_inside(popover: PopoverView, branch: Seq<char>)
    requires
        popover.lifecycle.dismiss_layer.branches.contains(branch),
    ensures
        path_is_inside(popover, seq![branch]),
{
    assert(id_is_inside(popover, seq![branch][0]));
}

} // verus!
