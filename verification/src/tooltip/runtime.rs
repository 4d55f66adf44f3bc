use vstd::prelude::*;
use crate::foundation::{
    overlay::{PlacementAlign, PlacementSide},
    shared::{opt_text_view, text_eq, texts_view},
    state::DataState,
};
use super::{
    attrs::{
        TooltipArrowAttributes, TooltipContentAttributes, TooltipPortalAttributes,
        TooltipRootAttributes, TooltipTriggerAttributes,
    },
    relationships::TooltipRelationships,
    state::{Tooltip, TooltipLifecycle, TooltipProvider, TooltipProviderView, TooltipView},
    types::TooltipStateRequest,
};

verus! {

/// The token after `t`; it stays at the largest value once reached.
pub open spec fn next_token(t: u64) -> u64 {
    if t == u64::MAX {
        t
    } else {
        (t + 1) as u64
    }
}

fn advance_token(t: u64) -> (r: u64)
    ensures
        r == next_token(t),
{
    t.saturating_add(1)
}

/// A timer the provider asks its runtime to start; when it fires, the runtime reports it back
/// with the same token.
#[derive(Clone, Debug, PartialEq, Eq)]
pub enum TooltipTimer {
    /// After `delay_ms`, report `open_delay_elapsed(token, tooltip_id)`.
    OpenDelay { token: u64, tooltip_id: String, delay_ms: u64 },
    /// After `delay_ms`, report `skip_delay_elapsed(token)`.
    SkipDelay { token: u64, delay_ms: u64 },
}

/// The model of the provider's coordination state.
pub struct TooltipProviderRuntimeView {
    pub active_tooltip_id: Option<Seq<char>>,
    pub pending_open_tooltip_id: Option<Seq<char>>,
    pub open_request_token: u64,
    pub skip_delay_token: u64,
    pub instant_phase: bool,
}

impl TooltipProviderRuntimeView {
    /// The state after `id` opens at once.
    pub open spec fn committed(self, id: Seq<char>) -> TooltipProviderRuntimeView {
        TooltipProviderRuntimeView {
            active_tooltip_id: Some(id),
            pending_open_tooltip_id: None,
            open_request_token: next_token(self.open_request_token),
            skip_delay_token: next_token(self.skip_delay_token),
            instant_phase: true,
        }
    }

    /// A request opens at once when asked to, when there is no delay, while another tooltip
    /// is shown, or within the skip-delay window after one closed.
    pub open spec fn opens_immediately(
        self,
        provider: TooltipProviderView,
        immediate: bool,
    ) -> bool {
        immediate || provider.delay_duration_ms == 0 || self.instant_phase
            || self.active_tooltip_id is Some
    }
}

/// Coordinates the tooltips of one provider: at most one is shown, opening waits for the
/// delay unless another tooltip was just shown, and closing opens a skip-delay window.
#[derive(Debug, PartialEq, Eq)]
pub struct TooltipProviderRuntime {
    pub(crate) active_tooltip_id: Option<String>,
    pub(crate) pending_open_tooltip_id: Option<String>,
    pub(crate) open_request_token: u64,
    pub(crate) skip_delay_token: u64,
    pub(crate) instant_phase: bool,
}

impl View for TooltipProviderRuntime {
    type V = TooltipProviderRuntimeView;

    open(crate) spec fn view(&self) -> TooltipProviderRuntimeView {
        TooltipProviderRuntimeView {
            active_tooltip_id: opt_text_view(self.active_tooltip_id),
            pending_open_tooltip_id: opt_text_view(self.pending_open_tooltip_id),
            open_request_token: self.open_request_token,
            skip_delay_token: self.skip_delay_token,
            instant_phase: self.instant_phase,
        }
    }
}

fn opt_eq(current: &Option<String>, id: &str) -> (b: bool)
    ensures
        b == (opt_text_view(*current) == Some(id@)),
{
    match current {
        Some(c) => text_eq(c.as_str(), id),
        None => false,
    }
}

impl TooltipProviderRuntime {
    pub fn new() -> (m: Self)
        ensures
            m@ == (TooltipProviderRuntimeView {
                active_tooltip_id: None,
                pending_open_tooltip_id: None,
                open_request_token: 0,
                skip_delay_token: 0,
                instant_phase: false,
            }),
    {
        TooltipProviderRuntime {
            active_tooltip_id: None,
            pending_open_tooltip_id: None,
            open_request_token: 0,
            skip_delay_token: 0,
            instant_phase: false,
        }
    }

    pub fn active_tooltip_id(&self) -> (r: Option<String>)
        ensures
            opt_text_view(r) == self@.active_tooltip_id,
    {
        match &self.active_tooltip_id {
            Some(s) => Some(s.clone()),
            None => None,
        }
    }

    pub fn pending_open_tooltip_id(&self) -> (r: Option<String>)
        ensures
            opt_text_view(r) == self@.pending_open_tooltip_id,
    {
        match &self.pending_open_tooltip_id {
            Some(s) => Some(s.clone()),
            None => None,
        }
    }

    pub fn opens_instantly(&self) -> (b: bool)
        ensures
            b == self@.instant_phase,
    {
        self.instant_phase
    }

    fn commit_open(&mut self, tooltip_id: String)
        ensures
            final(self)@ == old(self)@.committed(tooltip_id@),
    {
        self.pending_open_tooltip_id = None;
        self.open_request_token = advance_token(self.open_request_token);
        self.skip_delay_token = advance_token(self.skip_delay_token);
        self.active_tooltip_id = Some(tooltip_id);
        self.instant_phase = true;
    }

    /// Asks for `tooltip_id` to open: it opens at once, or becomes the pending request and a
    /// delay timer is due.
    pub fn request_open(&mut self, provider: &TooltipProvider, tooltip_id: String, immediate: bool) -> (timer:
        Option<TooltipTimer>)
        ensures
            old(self)@.opens_immediately(provider@, immediate) ==> final(self)@
                == old(self)@.committed(tooltip_id@) && timer is None,
            !old(self)@.opens_immediately(provider@, immediate) ==> {
                &&& final(self)@ == (TooltipProviderRuntimeView {
                    pending_open_tooltip_id: Some(tooltip_id@),
                    open_request_token: next_token(old(self)@.open_request_token),
                    ..old(self)@
                })
                &&& timer matches Some(TooltipTimer::OpenDelay { token, tooltip_id: t, delay_ms })
                    && token == next_token(old(self)@.open_request_token) && t@ == tooltip_id@
                    && delay_ms == provider@.delay_duration_ms
            },
    {
        let should_open_immediately = immediate || provider.delay_duration_ms() == 0
            || self.instant_phase || self.active_tooltip_id.is_some();
        if should_open_immediately {
            self.commit_open(tooltip_id);
            return None;
        }
        let token = advance_token(self.open_request_token);
        self.open_request_token = token;
        self.pending_open_tooltip_id = Some(tooltip_id.clone());
        Some(
            TooltipTimer::OpenDelay {
                token,
                tooltip_id,
                delay_ms: provider.delay_duration_ms(),
            },
        )
    }

    /// The open delay of `tooltip_id` ended: it opens if that request is still the current one.
    pub fn open_delay_elapsed(&mut self, token: u64, tooltip_id: &str)
        ensures
            (token == old(self)@.open_request_token && old(self)@.pending_open_tooltip_id == Some(
                tooltip_id@,
            )) ==> final(self)@ == old(self)@.committed(tooltip_id@),
            !(token == old(self)@.open_request_token && old(self)@.pending_open_tooltip_id == Some(
                tooltip_id@,
            )) ==> final(self)@ == old(self)@,
    {
        if token == self.open_request_token && opt_eq(&self.pending_open_tooltip_id, tooltip_id) {
            self.commit_open(tooltip_id.to_owned());
        }
    }

    /// Asks for `tooltip_id` to close: a pending request for it is withdrawn, and if it is the
    /// shown tooltip it is hidden and the skip-delay window starts.
    pub fn request_close(&mut self, provider: &TooltipProvider, tooltip_id: &str) -> (timer: Option<
        TooltipTimer,
    >)
        ensures
            ({
                let was_pending = old(self)@.pending_open_tooltip_id == Some(tooltip_id@);
                let was_active = old(self)@.active_tooltip_id == Some(tooltip_id@);
                let after_pending = if was_pending {
                    TooltipProviderRuntimeView {
                        pending_open_tooltip_id: None,
                        open_request_token: next_token(old(self)@.open_request_token),
                        ..old(self)@
                    }
                } else {
                    old(self)@
                };
                if was_active {
                    let skip = next_token(old(self)@.skip_delay_token);
                    &&& final(self)@ == (TooltipProviderRuntimeView {
                        active_tooltip_id: None,
                        skip_delay_token: skip,
                        instant_phase: if provider@.skip_delay_duration_ms == 0 {
                            false
                        } else {
                            old(self)@.instant_phase
                        },
                        ..after_pending
                    })
                    &&& if provider@.skip_delay_duration_ms == 0 {
                        timer is None
                    } else {
                        timer == Some(
                            TooltipTimer::SkipDelay {
                                token: skip,
                                delay_ms: provider@.skip_delay_duration_ms,
                            },
                        )
                    }
                } else {
                    final(self)@ == after_pending && timer is None
                }
            }),
    {
        let was_active = opt_eq(&self.active_tooltip_id, tooltip_id);
        let was_pending = opt_eq(&self.pending_open_tooltip_id, tooltip_id);
        if was_pending {
            self.pending_open_tooltip_id = None;
            self.open_request_token = advance_token(self.open_request_token);
        }
        if was_active {
            self.active_tooltip_id = None;
            self.skip_delay_token = advance_token(self.skip_delay_token);
            if provider.skip_delay_duration_ms() == 0 {
                self.instant_phase = false;
                return None;
            }
            return Some(
                TooltipTimer::SkipDelay {
                    token: self.skip_delay_token,
                    delay_ms: provider.skip_delay_duration_ms(),
                },
            );
        }
        None
    }

    /// The skip-delay window ended: later requests wait for the delay again, unless a tooltip
    /// was shown in the meantime.
    pub fn skip_delay_elapsed(&mut self, token: u64)
        ensures
            (token == old(self)@.skip_delay_token && old(self)@.active_tooltip_id is None)
                ==> final(self)@ == (TooltipProviderRuntimeView {
                instant_phase: false,
                ..old(self)@
            }),
            !(token == old(self)@.skip_delay_token && old(self)@.active_tooltip_id is None)
                ==> final(self)@ == old(self)@,
    {
        if token == self.skip_delay_token && self.active_tooltip_id.is_none() {
            self.instant_phase = false;
        }
    }
}

/// Whether a tooltip under a provider must report an open change, and to what: it is open
/// exactly while it is the provider's shown tooltip.
pub fn provider_open_change(tooltip: &Tooltip, provider: &TooltipProviderRuntime) -> (r: Option<
    bool,
>)
    ensures
        ({
            let next_open = provider@.active_tooltip_id == Some(tooltip@.relationships.root_id);
            if next_open != tooltip@.open {
                r == Some(next_open)
            } else {
                r is None
            }
        }),
{
    let next_open = opt_eq(&provider.active_tooltip_id, tooltip.relationships().root_id());
    if next_open != tooltip.is_open() {
        Some(next_open)
    } else {
        None
    }
}

/// The open delay of a tooltip: its provider's, or 700 ms without one.
pub fn tooltip_delay_duration_ms(tooltip: &Tooltip) -> (d: u64)
    ensures
        d == match tooltip@.lifecycle.provider {
            Some(p) => p.delay_duration_ms,
            None => 700,
        },
{
    match tooltip.provider() {
        Some(p) => p.delay_duration_ms(),
        None => TooltipProvider::DEFAULT_DELAY_DURATION_MS,
    }
}

/// Whether the content counts as part of the hover target: yes unless the provider says no.
pub fn tooltip_disable_hoverable_content(tooltip: &Tooltip) -> (b: bool)
    ensures
        b == match tooltip@.lifecycle.provider {
            Some(p) => p.disable_hoverable_content,
            None => false,
        },
{
    match tooltip.provider() {
        Some(p) => p.disable_hoverable_content(),
        None => false,
    }
}

/// Whether a click on the trigger closes the tooltip: yes unless the provider says no.
pub fn tooltip_close_on_trigger_click(tooltip: &Tooltip) -> (b: bool)
    ensures
        b == match tooltip@.lifecycle.provider {
            Some(p) => p.close_on_trigger_click,
            None => true,
        },
{
    match tooltip.provider() {
        Some(p) => p.close_on_trigger_click(),
        None => true,
    }
}

/// Whether focus that follows a pointer press is ignored: only when the provider says so.
pub fn tooltip_ignore_non_keyboard_focus(tooltip: &Tooltip) -> (b: bool)
    ensures
        b == match tooltip@.lifecycle.provider {
            Some(p) => p.ignore_non_keyboard_focus,
            None => false,
        },
{
    match tooltip.provider() {
        Some(p) => p.ignore_non_keyboard_focus(),
        None => false,
    }
}

/// What the runtime must do after an interaction with one tooltip.
#[derive(Clone, Copy, Debug, PartialEq, Eq, Structural)]
pub enum TooltipAction {
    Nothing,
    /// Ask to open, at once or after the delay.
    RequestOpen { immediate: bool },
    /// Ask to close.
    RequestClose,
    /// Start the grace timer for moving from trigger to content; report it back with the token.
    ScheduleHoverTransferClose { token: u64 },
}

/// The hover and focus bookkeeping of one tooltip.
#[derive(Clone, Copy, Debug, PartialEq, Eq, Structural)]
pub struct TooltipInteraction {
    pub pointer_down_inside: bool,
    pub trigger_hovered: bool,
    pub content_hovered: bool,
    pub hover_transfer_token: u64,
}

impl TooltipInteraction {
    pub fn new() -> (s: Self)
        ensures
            s == (TooltipInteraction {
                pointer_down_inside: false,
                trigger_hovered: false,
                content_hovered: false,
                hover_transfer_token: 0,
            }),
    {
        TooltipInteraction {
            pointer_down_inside: false,
            trigger_hovered: false,
            content_hovered: false,
            hover_transfer_token: 0,
        }
    }

    /// A close request also cancels any pending hover transfer.
    fn close(&mut self) -> (a: TooltipAction)
        ensures
            *final(self) == (TooltipInteraction {
                hover_transfer_token: next_token(old(self).hover_transfer_token),
                ..*old(self)
            }),
            a == TooltipAction::RequestClose,
    {
        self.hover_transfer_token = advance_token(self.hover_transfer_token);
        TooltipAction::RequestClose
    }

    /// A press on the trigger; the focus that follows comes from the pointer.
    pub fn trigger_pointer_down(&mut self) -> (a: TooltipAction)
        ensures
            *final(self) == (TooltipInteraction { pointer_down_inside: true, ..*old(self) }),
            a == TooltipAction::Nothing,
    {
        self.pointer_down_inside = true;
        TooltipAction::Nothing
    }

    /// Hovering the trigger asks to open after the delay and cancels a pending transfer.
    pub fn trigger_pointer_enter(&mut self) -> (a: TooltipAction)
        ensures
            *final(self) == (TooltipInteraction {
                trigger_hovered: true,
                hover_transfer_token: next_token(old(self).hover_transfer_token),
                ..*old(self)
            }),
            a == (TooltipAction::RequestOpen { immediate: false }),
    {
        self.trigger_hovered = true;
        self.hover_transfer_token = advance_token(self.hover_transfer_token);
        TooltipAction::RequestOpen { immediate: false }
    }

    /// Leaving the trigger closes at once when the content is not hoverable; otherwise the
    /// pointer gets a grace period to reach the content.
    pub fn trigger_pointer_leave(&mut self, disable_hoverable_content: bool) -> (a: TooltipAction)
        ensures
            final(self).trigger_hovered == false,
            final(self).pointer_down_inside == old(self).pointer_down_inside,
            final(self).content_hovered == old(self).content_hovered,
            final(self).hover_transfer_token == next_token(old(self).hover_transfer_token),
            a == (if disable_hoverable_content {
                TooltipAction::RequestClose
            } else {
                TooltipAction::ScheduleHoverTransferClose {
                    token: next_token(old(self).hover_transfer_token),
                }
            }),
    {
        self.trigger_hovered = false;
        if disable_hoverable_content {
            self.close()
        } else {
            self.hover_transfer_token = advance_token(self.hover_transfer_token);
            TooltipAction::ScheduleHoverTransferClose { token: self.hover_transfer_token }
        }
    }

    /// Focus on the trigger opens at once, unless it follows a pointer press and such focus is
    /// ignored.
    pub fn trigger_focus(&mut self, ignore_non_keyboard_focus: bool) -> (a: TooltipAction)
        ensures
            *final(self) == (TooltipInteraction { pointer_down_inside: false, ..*old(self) }),
            a == (if ignore_non_keyboard_focus && old(self).pointer_down_inside {
                TooltipAction::Nothing
            } else {
                TooltipAction::RequestOpen { immediate: true }
            }),
    {
        let opened_from_pointer = self.pointer_down_inside;
        self.pointer_down_inside = false;
        if ignore_non_keyboard_focus && opened_from_pointer {
            return TooltipAction::Nothing;
        }
        TooltipAction::RequestOpen { immediate: true }
    }

    /// Blurring the trigger closes unless the pointer is on trigger or content.
    pub fn trigger_blur(&mut self) -> (a: TooltipAction)
        ensures
            final(self).pointer_down_inside == false,
            final(self).trigger_hovered == old(self).trigger_hovered,
            final(self).content_hovered == old(self).content_hovered,
            !old(self).trigger_hovered && !old(self).content_hovered ==> a
                == TooltipAction::RequestClose && final(self).hover_transfer_token == next_token(
                old(self).hover_transfer_token,
            ),
            old(self).trigger_hovered || old(self).content_hovered ==> a == TooltipAction::Nothing
                && final(self).hover_transfer_token == old(self).hover_transfer_token,
    {
        self.pointer_down_inside = false;
        if !self.trigger_hovered && !self.content_hovered {
            self.close()
        } else {
            TooltipAction::Nothing
        }
    }

    /// A click on the trigger of a shown tooltip closes it when the provider allows.
    pub fn trigger_click(&mut self, close_on_trigger_click: bool, is_open: bool) -> (a:
        TooltipAction)
        ensures
            close_on_trigger_click && is_open ==> a == TooltipAction::RequestClose
                && *final(self) == (TooltipInteraction {
                hover_transfer_token: next_token(old(self).hover_transfer_token),
                ..*old(self)
            }),
            !(close_on_trigger_click && is_open) ==> a == TooltipAction::Nothing && *final(self)
                == *old(self),
    {
        if close_on_trigger_click && is_open {
            self.close()
        } else {
            TooltipAction::Nothing
        }
    }

    /// Reaching hoverable content keeps the tooltip open and cancels the pending transfer.
    pub fn content_pointer_enter(&mut self, disable_hoverable_content: bool) -> (a: TooltipAction)
        ensures
            disable_hoverable_content ==> a == TooltipAction::Nothing && *final(self) == *old(self),
            !disable_hoverable_content ==> a == (TooltipAction::RequestOpen { immediate: true })
                && *final(self) == (TooltipInteraction {
                content_hovered: true,
                hover_transfer_token: next_token(old(self).hover_transfer_token),
                ..*old(self)
            }),
    {
        if disable_hoverable_content {
            return TooltipAction::Nothing;
        }
        self.content_hovered = true;
        self.hover_transfer_token = advance_token(self.hover_transfer_token);
        TooltipAction::RequestOpen { immediate: true }
    }

    /// Leaving the content closes unless the pointer went back to the trigger.
    pub fn content_pointer_leave(&mut self) -> (a: TooltipAction)
        ensures
            final(self).content_hovered == false,
            final(self).trigger_hovered == old(self).trigger_hovered,
            final(self).pointer_down_inside == old(self).pointer_down_inside,
            !old(self).trigger_hovered ==> a == TooltipAction::RequestClose
                && final(self).hover_transfer_token == next_token(old(self).hover_transfer_token),
            old(self).trigger_hovered ==> a == TooltipAction::Nothing
                && final(self).hover_transfer_token == old(self).hover_transfer_token,
    {
        self.content_hovered = false;
        if !self.trigger_hovered {
            self.close()
        } else {
            TooltipAction::Nothing
        }
    }

    /// The grace period ended: close if it is still the latest one and nothing is hovered.
    pub fn hover_transfer_elapsed(&mut self, token: u64) -> (a: TooltipAction)
        ensures
            token == old(self).hover_transfer_token && !old(self).trigger_hovered
                && !old(self).content_hovered ==> a == TooltipAction::RequestClose && *final(self)
                == (TooltipInteraction {
                hover_transfer_token: next_token(old(self).hover_transfer_token),
                ..*old(self)
            }),
            !(token == old(self).hover_transfer_token && !old(self).trigger_hovered
                && !old(self).content_hovered) ==> a == TooltipAction::Nothing && *final(self)
                == *old(self),
    {
        if token == self.hover_transfer_token && !self.trigger_hovered && !self.content_hovered {
            self.close()
        } else {
            TooltipAction::Nothing
        }
    }

    /// Once the tooltip is closed, content hover and the pending pointer press are forgotten.
    pub fn reset_after_close(&mut self)
        ensures
            *final(self) == (TooltipInteraction {
                content_hovered: false,
                pointer_down_inside: false,
                ..*old(self)
            }),
    {
        self.content_hovered = false;
        self.pointer_down_inside = false;
    }
}

/// What an open or close request of a tooltip asks of the host.
#[derive(Clone, Copy, Debug, PartialEq, Eq, Structural)]
pub enum TooltipRequest {
    /// Nothing to do.
    Nothing,
    /// The tooltip has a provider: pass the request on to the provider runtime, with the
    /// tooltip's root id.
    Provider,
    /// Tell the owner the new open state now.
    Notify(bool),
    /// Wait `delay_ms`, then report `open_delay_elapsed(token)`.
    Delay { token: u64, delay_ms: u64 },
}

/// The model of a tooltip runtime.
pub struct TooltipRuntimeView {
    pub tooltip: TooltipView,
    pub interaction: TooltipInteraction,
    pub open_request_token: u64,
    pub placement: Option<(PlacementSide, PlacementAlign)>,
}

impl TooltipRuntimeView {
    /// The side the content is shown on: the measured one, else the preferred one.
    pub open spec fn shown_side(self) -> PlacementSide {
        match self.placement {
            Some(p) => p.0,
            None => self.tooltip.lifecycle.floating.side,
        }
    }

    pub open spec fn shown_align(self) -> PlacementAlign {
        match self.placement {
            Some(p) => p.1,
            None => self.tooltip.lifecycle.floating.align,
        }
    }

    /// The dismissal stack of the tooltip: its content alone.
    pub open spec fn dismiss_stack(self) -> Seq<Seq<char>> {
        seq![self.tooltip.relationships.content_id]
    }
}

/// The live state of one tooltip: the tooltip its owner passes in, the hover and focus
/// bookkeeping, the token of its latest open request and the measured placement.
#[derive(Debug)]
pub struct TooltipRuntime {
    pub(crate) tooltip: Tooltip,
    pub(crate) interaction: TooltipInteraction,
    pub(crate) open_request_token: u64,
    pub(crate) placement: Option<(PlacementSide, PlacementAlign)>,
}

impl View for TooltipRuntime {
    type V = TooltipRuntimeView;

    open(crate) spec fn view(&self) -> TooltipRuntimeView {
        TooltipRuntimeView {
            tooltip: self.tooltip@,
            interaction: self.interaction,
            open_request_token: self.open_request_token,
            placement: self.placement,
        }
    }
}

impl TooltipRuntime {
    pub fn new(tooltip: Tooltip) -> (r: Self)
        ensures
            r@.tooltip == tooltip@,
            r@.interaction == (TooltipInteraction {
                pointer_down_inside: false,
                trigger_hovered: false,
                content_hovered: false,
                hover_transfer_token: 0,
            }),
            r@.open_request_token == 0,
            r@.placement is None,
    {
        TooltipRuntime {
            tooltip,
            interaction: TooltipInteraction::new(),
            open_request_token: 0,
            placement: None,
        }
    }

    pub fn tooltip(&self) -> (t: &Tooltip)
        ensures
            t@ == self@.tooltip,
    {
        &self.tooltip
    }

    /// Takes the tooltip its owner now passes in.
    pub fn set_tooltip(&mut self, tooltip: Tooltip)
        ensures
            final(self)@ == (TooltipRuntimeView { tooltip: tooltip@, ..old(self)@ }),
    {
        self.tooltip = tooltip;
    }

    pub fn is_open(&self) -> (b: bool)
        ensures
            b == self@.tooltip.open,
    {
        self.tooltip.is_open()
    }

    pub fn data_state(&self) -> (s: DataState)
        ensures
            s == self@.tooltip.data_state(),
    {
        self.tooltip.data_state()
    }

    pub fn relationships(&self) -> (r: &TooltipRelationships)
        ensures
            r@ == self@.tooltip.relationships,
    {
        self.tooltip.relationships()
    }

    pub fn lifecycle(&self) -> (l: &TooltipLifecycle)
        ensures
            l@ == self@.tooltip.lifecycle,
    {
        self.tooltip.lifecycle()
    }

    pub fn provider(&self) -> (p: Option<&TooltipProvider>)
        ensures
            match p {
                Some(q) => self@.tooltip.lifecycle.provider == Some(q@),
                None => self@.tooltip.lifecycle.provider is None,
            },
    {
        self.tooltip.provider()
    }

    pub fn root(&self) -> (a: TooltipRootAttributes)
        ensures
            a@.id == self@.tooltip.relationships.root_id,
            a@.data_state == self@.tooltip.data_state(),
    {
        self.tooltip.root()
    }

    pub fn trigger(&self) -> (a: TooltipTriggerAttributes)
        ensures
            a@.id == self@.tooltip.relationships.trigger_id,
            a@.aria_describedby == (if self@.tooltip.open {
                Some(self@.tooltip.relationships.content_id)
            } else {
                None
            }),
            a@.provider_id == (match self@.tooltip.lifecycle.provider {
                Some(p) => Some(p.id),
                None => None,
            }),
            a@.data_state == self@.tooltip.data_state(),
            a@.open_request == TooltipStateRequest::Open,
            a@.close_request == TooltipStateRequest::Close,
    {
        self.tooltip.trigger()
    }

    pub fn portal(&self) -> (a: TooltipPortalAttributes)
        ensures
            a@ == self@.tooltip.lifecycle.portal_host,
    {
        self.tooltip.portal()
    }

    /// The content, on the measured side and alignment once there is a placement.
    pub fn content(&self) -> (a: TooltipContentAttributes)
        ensures
            a@.id == self@.tooltip.relationships.content_id,
            a@.role == "tooltip"@,
            a@.data_state == self@.tooltip.data_state(),
            a@.data_side == self@.shown_side().spec_text(),
            a@.data_align == self@.shown_align().spec_text(),
            a@.autofocus_suppressed == self@.tooltip.lifecycle.content_autofocus_suppressed,
    {
        let mut a = self.tooltip.content();
        if let Some((side, align)) = self.placement {
            a.data_side = side.as_str();
            a.data_align = align.as_str();
        }
        a
    }

    /// The arrow, on the measured side and alignment once there is a placement.
    pub fn arrow(&self) -> (a: TooltipArrowAttributes)
        ensures
            a@.id == self@.tooltip.relationships.arrow_id,
            a@.data_state == self@.tooltip.data_state(),
            a@.data_side == self@.shown_side().spec_text(),
            a@.data_align == self@.shown_align().spec_text(),
    {
        let mut a = self.tooltip.arrow();
        if let Some((side, align)) = self.placement {
            a.data_side = side.as_str();
            a.data_align = align.as_str();
        }
        a
    }

    pub fn placement(&self) -> (p: Option<(PlacementSide, PlacementAlign)>)
        ensures
            p == self@.placement,
    {
        self.placement
    }

    /// Records a measured placement.
    pub fn set_placement(&mut self, side: PlacementSide, align: PlacementAlign)
        ensures
            final(self)@ == (TooltipRuntimeView { placement: Some((side, align)), ..old(self)@ }),
    {
        self.placement = Some((side, align));
    }

    /// Forgets the measured placement.
    pub fn clear_placement(&mut self)
        ensures
            final(self)@ == (TooltipRuntimeView { placement: None, ..old(self)@ }),
    {
        self.placement = None;
    }

    /// Asks to open. Under a provider the provider decides; otherwise the owner is told at once
    /// when asked to, else after the default delay of 700 ms.
    pub fn request_open(&mut self, immediate: bool) -> (r: TooltipRequest)
        ensures
            final(self)@.tooltip == old(self)@.tooltip,
            final(self)@.interaction == old(self)@.interaction,
            final(self)@.placement == old(self)@.placement,
            old(self)@.tooltip.lifecycle.provider is Some ==> r == TooltipRequest::Provider
                && final(self)@.open_request_token == old(self)@.open_request_token,
            old(self)@.tooltip.lifecycle.provider is None ==> {
                &&& final(self)@.open_request_token == next_token(old(self)@.open_request_token)
                &&& r == if immediate {
                    TooltipRequest::Notify(true)
                } else {
                    TooltipRequest::Delay {
                        token: next_token(old(self)@.open_request_token),
                        delay_ms: 700,
                    }
                }
            },
    {
        if self.tooltip.provider().is_some() {
            return TooltipRequest::Provider;
        }
        self.open_request_token = advance_token(self.open_request_token);
        let delay = tooltip_delay_duration_ms(&self.tooltip);
        if immediate || delay == 0 {
            TooltipRequest::Notify(true)
        } else {
            TooltipRequest::Delay { token: self.open_request_token, delay_ms: delay }
        }
    }

    /// A scroll while the tooltip is shown closes it: through the provider when there is one,
    /// else by telling the owner.
    pub fn close_from_scroll(&self) -> (r: TooltipRequest)
        ensures
            self@.tooltip.lifecycle.provider is Some ==> r == TooltipRequest::Provider,
            self@.tooltip.lifecycle.provider is None ==> r == TooltipRequest::Notify(false),
    {
        if self.tooltip.provider().is_some() {
            TooltipRequest::Provider
        } else {
            TooltipRequest::Notify(false)
        }
    }

    /// A closed tooltip forgets its placement; an open one keeps it while it is measured again.
    pub fn sync_positioning(&mut self)
        ensures
            !old(self)@.tooltip.open ==> final(self)@ == (TooltipRuntimeView {
                placement: None,
                ..old(self)@
            }),
            old(self)@.tooltip.open ==> final(self)@ == old(self)@,
    {
        if !self.tooltip.is_open() {
            self.placement = None;
        }
    }

    /// The open delay ended: the owner is told to open when the request is still the latest.
    pub fn open_delay_elapsed(&self, token: u64) -> (notify: bool)
        ensures
            notify == (token == self@.open_request_token),
    {
        token == self.open_request_token
    }

    /// Asks to close, cancelling a pending hover transfer. Under a provider the provider
    /// decides; otherwise a pending open is withdrawn and the owner is told when it is open.
    pub fn request_close(&mut self) -> (r: TooltipRequest)
        ensures
            final(self)@.tooltip == old(self)@.tooltip,
            final(self)@.placement == old(self)@.placement,
            final(self)@.interaction == (TooltipInteraction {
                hover_transfer_token: next_token(old(self)@.interaction.hover_transfer_token),
                ..old(self)@.interaction
            }),
            old(self)@.tooltip.lifecycle.provider is Some ==> r == TooltipRequest::Provider
                && final(self)@.open_request_token == old(self)@.open_request_token,
            old(self)@.tooltip.lifecycle.provider is None ==> {
                &&& final(self)@.open_request_token == next_token(old(self)@.open_request_token)
                &&& r == if old(self)@.tooltip.open {
                    TooltipRequest::Notify(false)
                } else {
                    TooltipRequest::Nothing
                }
            },
    {
        let _ = self.interaction.close();
        if self.tooltip.provider().is_some() {
            return TooltipRequest::Provider;
        }
        self.open_request_token = advance_token(self.open_request_token);
        if self.tooltip.is_open() {
            TooltipRequest::Notify(false)
        } else {
            TooltipRequest::Nothing
        }
    }

    fn dismiss_stack(&self) -> (s: Vec<String>)
        ensures
            texts_view(s@) == self@.dismiss_stack(),
    {
        let s = vec![self.tooltip.relationships().content_id().to_owned()];
        assert(texts_view(s@) =~= self@.dismiss_stack());
        s
    }

    /// Whether escape dismisses the tooltip: when its layer is the topmost one.
    pub fn dismiss_escape(&self) -> (b: bool)
        ensures
            b == self@.tooltip.lifecycle.dismiss_layer.is_top_of(self@.dismiss_stack()),
    {
        let stack = self.dismiss_stack();
        self.tooltip.lifecycle().dismiss_layer().should_dismiss_escape(stack.as_slice())
    }

    /// Whether a pointer-down at `target` dismisses the tooltip.
    pub fn dismiss_outside_pointer(&self, target: Option<&str>) -> (b: bool)
        ensures
            b == ({
                let layer = self@.tooltip.lifecycle.dismiss_layer;
                layer.pointer_down_outside_dismiss && layer.is_top_of(self@.dismiss_stack())
                    && layer.is_outside(crate::popover::runtime::opt_str_view(target))
            }),
    {
        let target = match target {
            Some(t) => Some(t.to_owned()),
            None => None,
        };
        let stack = self.dismiss_stack();
        self.tooltip.lifecycle().dismiss_layer().should_dismiss_outside_pointer(
            target.as_ref(),
            stack.as_slice(),
        )
    }

    /// Whether focus moving to `target` dismisses the tooltip.
    pub fn dismiss_outside_focus(&self, target: Option<&str>) -> (b: bool)
        ensures
            b == ({
                let layer = self@.tooltip.lifecycle.dismiss_layer;
                layer.focus_outside_dismiss && layer.is_top_of(self@.dismiss_stack())
                    && layer.is_outside(crate::popover::runtime::opt_str_view(target))
            }),
    {
        let target = match target {
            Some(t) => Some(t.to_owned()),
            None => None,
        };
        let stack = self.dismiss_stack();
        self.tooltip.lifecycle().dismiss_layer().should_dismiss_outside_focus(
            target.as_ref(),
            stack.as_slice(),
        )
    }

    /// A press on the trigger.
    pub fn trigger_pointer_down(&mut self) -> (a: TooltipAction)
        ensures
            final(self)@ == (TooltipRuntimeView {
                interaction: TooltipInteraction { pointer_down_inside: true, ..old(self)@.interaction },
                ..old(self)@
            }),
            a == TooltipAction::Nothing,
    {
        self.interaction.trigger_pointer_down()
    }

    /// The pointer enters the trigger: open after the delay.
    pub fn trigger_pointer_enter(&mut self) -> (a: TooltipAction)
        ensures
            final(self)@ == (TooltipRuntimeView {
                interaction: TooltipInteraction {
                    trigger_hovered: true,
                    hover_transfer_token: next_token(old(self)@.interaction.hover_transfer_token),
                    ..old(self)@.interaction
                },
                ..old(self)@
            }),
            a == (TooltipAction::RequestOpen { immediate: false }),
    {
        self.interaction.trigger_pointer_enter()
    }

    /// The pointer leaves the trigger: close, or give it time to reach hoverable content.
    pub fn trigger_pointer_leave(&mut self) -> (a: TooltipAction)
        ensures
            final(self)@.tooltip == old(self)@.tooltip,
            final(self)@.open_request_token == old(self)@.open_request_token,
            final(self)@.placement == old(self)@.placement,
            !final(self)@.interaction.trigger_hovered,
            final(self)@.interaction.hover_transfer_token == next_token(
                old(self)@.interaction.hover_transfer_token,
            ),
            a == (if match old(self)@.tooltip.lifecycle.provider {
                Some(p) => p.disable_hoverable_content,
                None => false,
            } {
                TooltipAction::RequestClose
            } else {
                TooltipAction::ScheduleHoverTransferClose {
                    token: next_token(old(self)@.interaction.hover_transfer_token),
                }
            }),
    {
        let disable = tooltip_disable_hoverable_content(&self.tooltip);
        self.interaction.trigger_pointer_leave(disable)
    }

    /// Focus on the trigger opens at once, unless it follows a press and the provider ignores
    /// such focus.
    pub fn trigger_focus(&mut self) -> (a: TooltipAction)
        ensures
            final(self)@ == (TooltipRuntimeView {
                interaction: TooltipInteraction { pointer_down_inside: false, ..old(self)@.interaction },
                ..old(self)@
            }),
            a == (if match old(self)@.tooltip.lifecycle.provider {
                Some(p) => p.ignore_non_keyboard_focus,
                None => false,
            } && old(self)@.interaction.pointer_down_inside {
                TooltipAction::Nothing
            } else {
                TooltipAction::RequestOpen { immediate: true }
            }),
    {
        let ignore = tooltip_ignore_non_keyboard_focus(&self.tooltip);
        self.interaction.trigger_focus(ignore)
    }

    /// Blurring the trigger closes unless trigger or content is hovered.
    pub fn trigger_blur(&mut self) -> (a: TooltipAction)
        ensures
            final(self)@.tooltip == old(self)@.tooltip,
            final(self)@.open_request_token == old(self)@.open_request_token,
            !final(self)@.interaction.pointer_down_inside,
            !old(self)@.interaction.trigger_hovered && !old(self)@.interaction.content_hovered
                ==> a == TooltipAction::RequestClose,
            old(self)@.interaction.trigger_hovered || old(self)@.interaction.content_hovered ==> a
                == TooltipAction::Nothing,
    {
        self.interaction.trigger_blur()
    }

    /// A click on the trigger of a shown tooltip closes it, unless the provider says no.
    pub fn trigger_click(&mut self) -> (a: TooltipAction)
        ensures
            final(self)@.tooltip == old(self)@.tooltip,
            final(self)@.open_request_token == old(self)@.open_request_token,
            a == (if match old(self)@.tooltip.lifecycle.provider {
                Some(p) => p.close_on_trigger_click,
                None => true,
            } && old(self)@.tooltip.open {
                TooltipAction::RequestClose
            } else {
                TooltipAction::Nothing
            }),
    {
        let close_on_click = tooltip_close_on_trigger_click(&self.tooltip);
        let open = self.tooltip.is_open();
        self.interaction.trigger_click(close_on_click, open)
    }

    /// The pointer reaches the content: keep it open, unless the content is not hoverable.
    pub fn content_pointer_enter(&mut self) -> (a: TooltipAction)
        ensures
            final(self)@.tooltip == old(self)@.tooltip,
            final(self)@.open_request_token == old(self)@.open_request_token,
            a == (if match old(self)@.tooltip.lifecycle.provider {
                Some(p) => p.disable_hoverable_content,
                None => false,
            } {
                TooltipAction::Nothing
            } else {
                TooltipAction::RequestOpen { immediate: true }
            }),
    {
        let disable = tooltip_disable_hoverable_content(&self.tooltip);
        self.interaction.content_pointer_enter(disable)
    }

    /// The pointer leaves the content: close unless it went back to the trigger.
    pub fn content_pointer_leave(&mut self) -> (a: TooltipAction)
        ensures
            final(self)@.tooltip == old(self)@.tooltip,
            final(self)@.open_request_token == old(self)@.open_request_token,
            !final(self)@.interaction.content_hovered,
            !old(self)@.interaction.trigger_hovered ==> a == TooltipAction::RequestClose,
            old(self)@.interaction.trigger_hovered ==> a == TooltipAction::Nothing,
    {
        self.interaction.content_pointer_leave()
    }

    /// The grace period for reaching the content ended.
    pub fn hover_transfer_elapsed(&mut self, token: u64) -> (a: TooltipAction)
        ensures
            final(self)@.tooltip == old(self)@.tooltip,
            final(self)@.open_request_token == old(self)@.open_request_token,
            a == (if token == old(self)@.interaction.hover_transfer_token
                && !old(self)@.interaction.trigger_hovered && !old(self)@.interaction.content_hovered {
                TooltipAction::RequestClose
            } else {
                TooltipAction::Nothing
            }),
    {
        self.interaction.hover_transfer_elapsed(token)
    }
}

/// While one tooltip is shown, asking to open another shows it at once in its place.
pub proof fn lemma_provider_handoff(
    machine: TooltipProviderRuntimeView,
    provider: TooltipProviderView,
    id: Seq<char>,
    immediate: bool,
)
    requires
        machine.active_tooltip_id is Some,
    ensures
        machine.opens_immediately(provider, immediate),
        machine.committed(id).active_tooltip_id == Some(id),
{
}

/// Within the skip-delay window, a new request opens at once.
pub proof fn lemma_skip_delay_reopens_instantly(
    machine: TooltipProviderRuntimeView,
    provider: TooltipProviderView,
    immediate: bool,
)
    requires
        machine.instant_phase,
    ensures
        machine.opens_immediately(provider, immediate),
{
}

/// A grace timer started when leaving the trigger is stale once the pointer reaches the
/// content, so it cannot close the tooltip.
pub proof fn lemma_reaching_content_cancels_transfer(start: TooltipInteraction)
    requires
        start.hover_transfer_token < u64::MAX - 1,
    ensures
        ({
            let left = TooltipInteraction {
                trigger_hovered: false,
                hover_transfer_token: next_token(start.hover_transfer_token),
                ..start
            };
            let entered = TooltipInteraction {
                content_hovered: true,
                hover_transfer_token: next_token(left.hover_transfer_token),
                ..left
            };
            entered.hover_transfer_token != next_token(start.hover_transfer_token)
        }),
{
}

} // verus!
