use monoxus::toast::browser::{ToastBrowserOptions, ToastEventPayload};
use monoxus::toast::runtime::{ToastEventReaction, ToastTick, TIME_BEFORE_UNMOUNT_MS};
use monoxus::toast::types::{ToastActionEvent, ToastConfig, ToastOffset};
use monoxus::toast::attrs::ToastViewportAttrs;
use monoxus::toast::state::ToastStore;
use monoxus::toast::types::{ToastId, ToastInstant, ToastOptions, ToastPhase, ToastPosition, ToastType};

fn at(ms: u64) -> ToastInstant {
    ToastInstant::from_millis(ms)
}

#[test]
fn dispatch_uses_the_default_duration_and_prepends() {
    let mut store = ToastStore::new();
    let a = store.dispatch(ToastType::Success, "Saved".to_string(), None, at(10));
    let mut opts = ToastOptions::default();
    opts.duration = Some(1000);
    opts.description = Some("details".to_string());
    let b = store.dispatch(ToastType::Error, "Failed".to_string(), Some(opts), at(20));
    assert_eq!(a, ToastId(1));
    assert_eq!(b, ToastId(2));
    assert_eq!(store.toasts.len(), 2);
    assert_eq!(store.toasts[0].title, "Failed");
    assert_eq!(store.toasts[0].duration, 1000);
    assert_eq!(store.toasts[0].description, Some("details".to_string()));
    assert_eq!(store.toasts[1].duration, 4000);
    assert_eq!(store.toasts[1].remaining_duration, 4000);
    assert_eq!(store.toasts[1].phase, ToastPhase::Active);
    assert!(ToastStore::counts_down(ToastType::Success));
    assert!(!ToastStore::counts_down(ToastType::Loading));
}

#[test]
fn dispatch_with_a_known_id_refreshes_without_duplicating() {
    let mut store = ToastStore::new();
    let mut opts = ToastOptions::default();
    opts.id = Some(ToastId(7));
    store.dispatch(ToastType::Loading, "Working".to_string(), Some(opts.clone()), at(0));
    store.dispatch(ToastType::Info, "Other".to_string(), None, at(5));
    let again = store.dispatch(ToastType::Success, "Done".to_string(), Some(opts), at(50));
    assert_eq!(again, ToastId(7));
    assert_eq!(store.toasts.len(), 2);
    assert_eq!(store.toasts[1].title, "Done");
    assert_eq!(store.toasts[1].toast_type, ToastType::Success);
}

#[test]
fn paused_toaster_dispatches_paused_toasts() {
    let mut store = ToastStore::new();
    store.pause_all(at(0));
    store.dispatch(ToastType::Default, "x".to_string(), None, at(30));
    assert_eq!(store.toasts[0].paused_at, Some(at(30)));
}

#[test]
fn ticks_count_down_and_expire() {
    let mut store = ToastStore::new();
    let mut opts = ToastOptions::default();
    opts.duration = Some(100);
    let id = store.dispatch(ToastType::Default, "t".to_string(), Some(opts), at(0));
    assert_eq!(store.tick(id, at(60)), ToastTick::Continue);
    assert_eq!(store.toasts[0].remaining_duration, 40);
    assert_eq!(store.toasts[0].last_started_at, at(60));
    store.pause_all(at(70));
    assert_eq!(store.tick(id, at(500)), ToastTick::Continue);
    assert_eq!(store.toasts[0].remaining_duration, 30);
    store.resume_all(at(1000));
    assert_eq!(store.tick(id, at(1030)), ToastTick::Expired);
    assert_eq!(store.toasts[0].phase, ToastPhase::Dismissing);
    assert_eq!(store.tick(id, at(1100)), ToastTick::Stop);
    assert_eq!(store.tick(ToastId(99), at(1100)), ToastTick::Stop);
    assert_eq!(TIME_BEFORE_UNMOUNT_MS, 200);
}

#[test]
fn dismiss_requests_report_the_removals_due() {
    let mut store = ToastStore::new();
    let a = store.dispatch(ToastType::Default, "a".to_string(), None, at(0));
    let b = store.dispatch(ToastType::Default, "b".to_string(), None, at(0));
    assert_eq!(store.dismiss_request(Some(a)), vec![a]);
    assert_eq!(store.dismiss_request(Some(a)), Vec::<ToastId>::new());
    assert_eq!(store.dismiss_request(None), vec![b]);
    assert!(store.toasts.iter().all(|t| t.phase == ToastPhase::Dismissing));
    assert_eq!(store.toasts.len(), 2);
}

#[test]
fn settled_promises_count_down_afresh() {
    let mut store = ToastStore::new();
    let id = store.dispatch(ToastType::Loading, "Uploading".to_string(), None, at(0));
    assert!(store.settle_promise(id, true, "Uploaded".to_string(), at(900)));
    assert_eq!(store.toasts[0].toast_type, ToastType::Success);
    assert_eq!(store.toasts[0].title, "Uploaded");
    assert_eq!(store.toasts[0].remaining_duration, 4000);
    assert_eq!(store.toasts[0].last_started_at, at(900));
    assert!(store.settle_promise(id, false, "Oops".to_string(), at(950)));
    assert_eq!(store.toasts[0].toast_type, ToastType::Error);
    assert!(!store.settle_promise(ToastId(42), true, "x".to_string(), at(0)));
}

#[test]
fn position_can_be_changed() {
    let mut store = ToastStore::new();
    store.set_position(ToastPosition::TopCenter);
    assert_eq!(store.config.position, ToastPosition::TopCenter);
}

#[test]
fn pause_then_resume_keeps_the_time_left() {
    let mut store = ToastStore::new();
    store.dispatch(ToastType::Default, "a".to_string(), None, at(0));
    store.pause_all(at(1500));
    assert!(store.toasts[0].remaining_duration <= 4000);
    store.resume_all(at(9000));
    assert_eq!(store.toasts[0].remaining_duration, 2500);
    assert_eq!(store.toasts[0].last_started_at, at(9000));
    assert_eq!(store.toasts[0].paused_at, None);
}

#[test]
fn browser_events_drive_the_interactions() {
    let mut store = ToastStore::new();
    let id = store.dispatch(ToastType::Default, "a".to_string(), None, at(0));
    assert_eq!(
        store.handle_browser_event(&ToastEventPayload::Hover { hovered: true }, at(100)),
        ToastEventReaction::Handled
    );
    assert!(store.paused && store.expanded);
    assert_eq!(store.toasts[0].remaining_duration, 3900);
    store.handle_browser_event(&ToastEventPayload::Hover { hovered: false }, at(200));
    assert!(!store.paused && !store.expanded);
    store.handle_browser_event(&ToastEventPayload::Visibility { visible: false }, at(300));
    assert!(store.paused && !store.expanded);
    store.handle_browser_event(&ToastEventPayload::Visibility { visible: true }, at(400));
    assert!(!store.paused);
    store.handle_browser_event(&ToastEventPayload::Focus { focused: true }, at(500));
    assert!(store.expanded);
    store.handle_browser_event(&ToastEventPayload::Focus { focused: false }, at(500));
    store.handle_browser_event(&ToastEventPayload::SwipeActive { swiping: true }, at(600));
    assert!(store.paused && store.expanded);
    assert_eq!(
        store.handle_browser_event(&ToastEventPayload::SwipeDismiss { id: id.0 }, at(700)),
        ToastEventReaction::RemoveAfterDelay(id)
    );
    assert_eq!(store.toasts[0].phase, ToastPhase::Dismissing);
    assert_eq!(
        store.handle_browser_event(&ToastEventPayload::SwipeDismiss { id: id.0 }, at(700)),
        ToastEventReaction::Handled
    );
    assert_eq!(
        store.handle_browser_event(&ToastEventPayload::Hotkey { key: "F8".to_string() }, at(0)),
        ToastEventReaction::Handled
    );
    assert_eq!(
        store.handle_browser_event(&ToastEventPayload::Stopped, at(0)),
        ToastEventReaction::Stop
    );
}

#[test]
fn hidden_pages_do_not_pause_when_configured_so() {
    let mut config = ToastConfig::default();
    config.pause_when_page_is_hidden = false;
    let mut store = ToastStore::with_config(config);
    store.handle_browser_event(&ToastEventPayload::Visibility { visible: false }, at(0));
    assert!(!store.paused);
    assert!(!store.interaction_state.page_hidden);
}

#[test]
fn browser_options_come_from_the_config() {
    let mut config = ToastConfig::default();
    config.offset = ToastOffset::new().with_top("10px".to_string());
    let o = ToastBrowserOptions::from_config(&config, "viewport");
    assert_eq!(o.hotkey, "F8");
    assert_eq!(o.viewport_id, "viewport");
    assert_eq!(o.position, "bottom-right");
    assert_eq!(o.offset_top, "10px");
    assert_eq!(o.offset_left, "32px");
    assert_eq!(o.mobile_offset_bottom, "16px");
    assert_eq!(o.swipe_directions, vec!["bottom".to_string(), "right".to_string()]);
}

#[test]
fn action_clicks_dismiss_unless_prevented() {
    let mut store = ToastStore::new();
    let id = store.dispatch(ToastType::Info, "a".to_string(), None, at(0));
    let mut event = ToastActionEvent::new();
    event.prevent_default();
    assert!(event.is_default_prevented());
    assert!(store.action_clicked(Some(id), &event).is_empty());
    assert_eq!(store.toasts[0].phase, ToastPhase::Active);
    assert!(store.action_clicked(None, &ToastActionEvent::new()).is_empty());
    assert_eq!(store.action_clicked(Some(id), &ToastActionEvent::new()), vec![id]);
    assert_eq!(store.toasts[0].phase, ToastPhase::Dismissing);
}

#[test]
fn close_buttons_follow_dismissibility() {
    let mut store = ToastStore::new();
    let mut opts = ToastOptions::default();
    opts.dismissible = Some(false);
    store.dispatch(ToastType::Info, "a".to_string(), Some(opts), at(0));
    store.dispatch(ToastType::Info, "b".to_string(), None, at(0));
    assert!(store.toasts[0].shows_close_button());
    assert!(!store.toasts[1].shows_close_button());
}

#[test]
fn viewport_styles_combine() {
    let config = ToastConfig::default();
    let attrs = ToastViewportAttrs::new(&config, false, "ltr".to_string());
    let own = attrs.style.clone();
    assert_eq!(attrs.combined_style(None), own);
    assert_eq!(attrs.combined_style(Some("color: red")), format!("{} color: red", own));
}
