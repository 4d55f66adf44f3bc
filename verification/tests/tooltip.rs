use monoxus::tooltip::runtime::{TooltipRequest, TooltipRuntime};
use monoxus::foundation::overlay::{PlacementAlign, PlacementSide};
use monoxus::foundation::shared::ScopeHandle;
use monoxus::foundation::state::DataState;
use monoxus::tooltip::browser::{TooltipGraceEvent, TooltipGraceEventPayload};
use monoxus::tooltip::runtime::{
    provider_open_change, tooltip_close_on_trigger_click, tooltip_delay_duration_ms,
    tooltip_disable_hoverable_content, tooltip_ignore_non_keyboard_focus, TooltipAction,
    TooltipInteraction, TooltipProviderRuntime, TooltipTimer,
};
use monoxus::tooltip::state::{Tooltip, TooltipProvider};
use monoxus::tooltip::types::{TooltipPart, TooltipStateRequest};

fn provider() -> TooltipProvider {
    TooltipProvider::new(ScopeHandle::root("tips"))
}

#[test]
fn tooltip_attributes() {
    let closed = Tooltip::new(ScopeHandle::root("tip"), false);
    assert_eq!(closed.trigger().aria_describedby(), None);
    assert_eq!(closed.trigger().provider_id(), None);
    assert_eq!(*closed.root().data_state(), DataState::Closed);
    let open = Tooltip::new(ScopeHandle::root("tip"), true).with_provider(provider());
    let trigger = open.trigger();
    assert_eq!(trigger.id(), "tip-trigger");
    assert_eq!(trigger.aria_describedby(), Some("tip-content"));
    assert_eq!(trigger.provider_id(), Some("tips"));
    assert_eq!(trigger.open_request(), TooltipStateRequest::Open);
    assert_eq!(trigger.close_request(), TooltipStateRequest::Close);
    let content = open.content();
    assert_eq!(content.role(), "tooltip");
    assert_eq!(content.data_side(), "top");
    assert!(content.autofocus_suppressed());
    assert_eq!(open.arrow().id(), "tip-arrow");
    assert_eq!(Tooltip::parts()[5], TooltipPart::Provider);
    assert_eq!(TooltipPart::Provider.as_str(), "provider");
    assert_eq!(TooltipStateRequest::Close.data_state(), DataState::Closed);
    let e: TooltipGraceEvent = TooltipGraceEventPayload::GraceLeave;
    assert_eq!(e, TooltipGraceEventPayload::GraceLeave);
}

#[test]
fn provider_settings() {
    let p = provider();
    assert_eq!(p.delay_duration_ms(), 700);
    assert_eq!(p.skip_delay_duration_ms(), 300);
    assert!(p.close_on_trigger_click());
    let t = Tooltip::new(ScopeHandle::root("tip"), false);
    assert_eq!(tooltip_delay_duration_ms(&t), 700);
    assert!(tooltip_close_on_trigger_click(&t));
    assert!(!tooltip_disable_hoverable_content(&t));
    assert!(!tooltip_ignore_non_keyboard_focus(&t));
    let t = t.with_provider(
        p.with_delay_duration_ms(10)
            .with_disable_hoverable_content(true)
            .with_close_on_trigger_click(false)
            .with_ignore_non_keyboard_focus(true),
    );
    assert_eq!(tooltip_delay_duration_ms(&t), 10);
    assert!(tooltip_disable_hoverable_content(&t));
    assert!(!tooltip_close_on_trigger_click(&t));
    assert!(tooltip_ignore_non_keyboard_focus(&t));
}

#[test]
fn provider_delays_then_hands_off_instantly() {
    let p = provider();
    let mut m = TooltipProviderRuntime::new();
    let timer = m.request_open(&p, "a".to_string(), false);
    let token = match timer {
        Some(TooltipTimer::OpenDelay { token, tooltip_id, delay_ms }) => {
            assert_eq!(tooltip_id, "a");
            assert_eq!(delay_ms, 700);
            token
        }
        other => panic!("unexpected {other:?}"),
    };
    assert_eq!(m.pending_open_tooltip_id(), Some("a".to_string()));
    m.open_delay_elapsed(token + 7, "a");
    assert_eq!(m.active_tooltip_id(), None);
    m.open_delay_elapsed(token, "a");
    assert_eq!(m.active_tooltip_id(), Some("a".to_string()));
    assert!(m.opens_instantly());
    assert_eq!(m.request_open(&p, "b".to_string(), false), None);
    assert_eq!(m.active_tooltip_id(), Some("b".to_string()));
}

#[test]
fn provider_skip_delay_window() {
    let p = provider();
    let mut m = TooltipProviderRuntime::new();
    m.request_open(&p, "a".to_string(), true);
    let timer = m.request_close(&p, "a");
    let token = match timer {
        Some(TooltipTimer::SkipDelay { token, delay_ms }) => {
            assert_eq!(delay_ms, 300);
            token
        }
        other => panic!("unexpected {other:?}"),
    };
    assert_eq!(m.active_tooltip_id(), None);
    assert!(m.opens_instantly());
    m.skip_delay_elapsed(token);
    assert!(!m.opens_instantly());
    assert!(m.request_open(&p, "b".to_string(), false).is_some());
    assert_eq!(m.request_close(&p, "b"), None);
    assert_eq!(m.pending_open_tooltip_id(), None);
    let no_skip = provider().with_skip_delay_duration_ms(0);
    m.request_open(&no_skip, "c".to_string(), true);
    assert_eq!(m.request_close(&no_skip, "c"), None);
    assert!(!m.opens_instantly());
}

#[test]
fn provider_drives_open_change() {
    let p = provider();
    let mut m = TooltipProviderRuntime::new();
    let t = Tooltip::new(ScopeHandle::root("tip"), false);
    assert_eq!(provider_open_change(&t, &m), None);
    m.request_open(&p, "tip".to_string(), true);
    assert_eq!(provider_open_change(&t, &m), Some(true));
}

#[test]
fn hover_transfer_to_content_keeps_open() {
    let mut s = TooltipInteraction::new();
    assert_eq!(s.trigger_pointer_enter(), TooltipAction::RequestOpen { immediate: false });
    let token = match s.trigger_pointer_leave(false) {
        TooltipAction::ScheduleHoverTransferClose { token } => token,
        other => panic!("unexpected {other:?}"),
    };
    assert_eq!(s.content_pointer_enter(false), TooltipAction::RequestOpen { immediate: true });
    assert_eq!(s.hover_transfer_elapsed(token), TooltipAction::Nothing);
    assert_eq!(s.content_pointer_leave(), TooltipAction::RequestClose);
}

#[test]
fn hover_transfer_expires() {
    let mut s = TooltipInteraction::new();
    s.trigger_pointer_enter();
    let token = match s.trigger_pointer_leave(false) {
        TooltipAction::ScheduleHoverTransferClose { token } => token,
        other => panic!("unexpected {other:?}"),
    };
    assert_eq!(s.hover_transfer_elapsed(token), TooltipAction::RequestClose);
    let mut s = TooltipInteraction::new();
    s.trigger_pointer_enter();
    assert_eq!(s.trigger_pointer_leave(true), TooltipAction::RequestClose);
}

#[test]
fn focus_and_click_rules() {
    let mut s = TooltipInteraction::new();
    s.trigger_pointer_down();
    assert_eq!(s.trigger_focus(true), TooltipAction::Nothing);
    assert_eq!(s.trigger_focus(true), TooltipAction::RequestOpen { immediate: true });
    assert_eq!(s.trigger_blur(), TooltipAction::RequestClose);
    assert_eq!(s.trigger_click(true, true), TooltipAction::RequestClose);
    assert_eq!(s.trigger_click(true, false), TooltipAction::Nothing);
    assert_eq!(s.content_pointer_enter(true), TooltipAction::Nothing);
    s.trigger_pointer_enter();
    assert_eq!(s.trigger_blur(), TooltipAction::Nothing);
    s.reset_after_close();
    assert!(!s.content_hovered && !s.pointer_down_inside);
}

#[test]
fn standalone_tooltip_runtime_requests() {
    let mut rt = TooltipRuntime::new(Tooltip::new(ScopeHandle::root("tip"), false));
    assert_eq!(rt.trigger_pointer_enter(), TooltipAction::RequestOpen { immediate: false });
    assert_eq!(rt.request_open(false), TooltipRequest::Delay { token: 1, delay_ms: 700 });
    assert!(rt.open_delay_elapsed(1));
    assert_eq!(rt.request_open(true), TooltipRequest::Notify(true));
    assert!(!rt.open_delay_elapsed(1));
    assert_eq!(rt.request_close(), TooltipRequest::Nothing);
    rt.set_tooltip(Tooltip::new(ScopeHandle::root("tip"), true));
    assert_eq!(rt.request_close(), TooltipRequest::Notify(false));
    assert!(rt.dismiss_escape());
    assert!(rt.trigger_click() == TooltipAction::RequestClose);
}

#[test]
fn provided_tooltip_runtime_defers_to_the_provider() {
    let tip = Tooltip::new(ScopeHandle::root("tip"), false)
        .with_provider(provider().with_disable_hoverable_content(true));
    let mut rt = TooltipRuntime::new(tip);
    assert_eq!(rt.request_open(false), TooltipRequest::Provider);
    assert_eq!(rt.request_close(), TooltipRequest::Provider);
    rt.trigger_pointer_enter();
    assert_eq!(rt.trigger_pointer_leave(), TooltipAction::RequestClose);
    assert_eq!(rt.content_pointer_enter(), TooltipAction::Nothing);
    assert_eq!(rt.content().data_side(), "top");
    rt.set_placement(PlacementSide::Bottom, PlacementAlign::End);
    assert_eq!(rt.content().data_side(), "bottom");
    assert_eq!(rt.arrow().data_align(), "end");
}

#[test]
fn scrolling_closes_and_closed_tooltips_forget_placement() {
    let mut rt = TooltipRuntime::new(Tooltip::new(ScopeHandle::root("tip"), true));
    assert_eq!(rt.close_from_scroll(), TooltipRequest::Notify(false));
    rt.set_placement(PlacementSide::Left, PlacementAlign::Start);
    rt.sync_positioning();
    assert!(rt.placement().is_some());
    rt.set_tooltip(Tooltip::new(ScopeHandle::root("tip"), false));
    rt.sync_positioning();
    assert_eq!(rt.placement(), None);
    let provided = TooltipRuntime::new(
        Tooltip::new(ScopeHandle::root("tip"), true).with_provider(provider()),
    );
    assert_eq!(provided.close_from_scroll(), TooltipRequest::Provider);
}
