use monoxus::toast::attrs::{ToastActionAttrs, ToastCloseAttrs, ToastRootAttrs, ToastViewportAttrs};
use monoxus::toast::browser::{ToastBrowserEvent, ToastEventPayload};
use monoxus::toast::state::{ToastInteractionState, ToastStore};
use monoxus::toast::types::{
    SwipeDirection, ToastConfig, ToastDirection, ToastId, ToastInstant, ToastItem, ToastOffset,
    ToastOptions, ToastPhase, ToastPosition, ToastType,
};

fn at(ms: u64) -> ToastInstant {
    ToastInstant::from_millis(ms)
}

fn item(id: u64, title: &str) -> ToastItem {
    ToastItem::new(
        ToastId(id),
        ToastType::Default,
        title.to_string(),
        4000,
        ToastOptions::default(),
        at(0),
    )
}

#[test]
fn interaction_precedence() {
    let mut s = ToastInteractionState::default();
    assert!(!s.should_pause() && !s.should_expand());
    s.page_hidden = true;
    assert!(s.should_pause() && !s.should_expand());
    s.page_hidden = false;
    s.hovered = true;
    assert!(s.should_pause() && s.should_expand());
}

#[test]
fn add_assigns_ids_and_prepends() {
    let mut store = ToastStore::new();
    let a = store.add_toast(item(0, "a"), at(10));
    let b = store.add_toast(item(0, "b"), at(20));
    assert_eq!(a, ToastId(1));
    assert_eq!(b, ToastId(2));
    assert_eq!(store.toasts[0].title, "b");
    assert_eq!(store.toasts[1].title, "a");
    assert_eq!(store.toasts[0].last_started_at, at(20));
    let c = store.add_toast(item(9, "c"), at(30));
    assert_eq!(c, ToastId(9));
    assert_eq!(store.next_id, 2);
}

#[test]
fn add_with_existing_id_updates_in_place() {
    let mut store = ToastStore::new();
    store.add_toast(item(5, "first"), at(0));
    store.add_toast(item(6, "other"), at(0));
    assert!(store.dismiss_toast(ToastId(5)));
    let mut again = item(0, "second");
    again.options.id = Some(ToastId(5));
    let id = store.add_toast(again, at(100));
    assert_eq!(id, ToastId(5));
    assert_eq!(store.toasts.len(), 2);
    assert_eq!(store.toasts[1].title, "second");
    assert_eq!(store.toasts[1].phase, ToastPhase::Active);
    assert_eq!(store.toasts[1].created_at, at(100));
}

#[test]
fn dismiss_then_remove() {
    let mut store = ToastStore::new();
    store.add_toast(item(1, "a"), at(0));
    assert!(store.dismiss_toast(ToastId(1)));
    assert!(!store.dismiss_toast(ToastId(1)));
    assert_eq!(store.toasts[0].phase, ToastPhase::Dismissing);
    assert_eq!(store.toasts[0].phase.as_state_str(), "closed");
    let removed = store.remove_toast(ToastId(1)).unwrap();
    assert_eq!(removed.title, "a");
    assert!(store.toasts.is_empty());
    assert!(store.remove_toast(ToastId(1)).is_none());
}

#[test]
fn dismiss_all_reports_active_ids() {
    let mut store = ToastStore::new();
    store.add_toast(item(1, "a"), at(0));
    store.add_toast(item(2, "b"), at(0));
    store.add_toast(item(3, "c"), at(0));
    store.dismiss_toast(ToastId(2));
    assert_eq!(store.dismiss_all(), vec![ToastId(3), ToastId(1)]);
    assert!(store.toasts.iter().all(|t| t.phase == ToastPhase::Dismissing));
    assert!(store.dismiss_all().is_empty());
}

#[test]
fn pause_and_resume_keep_remaining_time() {
    let mut store = ToastStore::new();
    store.add_toast(item(1, "a"), at(1000));
    store.set_hovered(true, at(2500));
    assert!(store.paused && store.expanded);
    assert_eq!(store.toasts[0].remaining_duration, 2500);
    assert_eq!(store.toasts[0].paused_at, Some(at(2500)));
    store.set_page_hidden(true, at(3000));
    assert_eq!(store.toasts[0].remaining_duration, 2500);
    store.set_hovered(false, at(3500));
    assert!(store.paused && !store.expanded);
    store.set_page_hidden(false, at(4000));
    assert!(!store.paused);
    assert_eq!(store.toasts[0].last_started_at, at(4000));
    assert_eq!(store.toasts[0].paused_at, None);
    store.set_focused(true, at(5000));
    assert_eq!(store.toasts[0].remaining_duration, 1500);
    store.set_focused(false, at(5000));
    store.set_swiping(true, at(9000));
    assert_eq!(store.toasts[0].remaining_duration, 0);
}

#[test]
fn added_while_paused_starts_paused() {
    let mut store = ToastStore::new();
    store.pause_all(at(50));
    store.add_toast(item(0, "a"), at(70));
    assert_eq!(store.toasts[0].paused_at, Some(at(70)));
    store.resume_all(at(90));
    assert_eq!(store.toasts[0].paused_at, None);
}

#[test]
fn visible_items_flag_the_first_ones() {
    let mut store = ToastStore::new();
    for i in 1..=5 {
        store.add_toast(item(i, "t"), at(0));
    }
    let visible: Vec<bool> = store.visible_items().iter().map(|(_, v)| *v).collect();
    assert_eq!(visible, vec![true, true, true, false, false]);
}

#[test]
fn types_publish_their_names() {
    assert_eq!(ToastType::Loading.as_str(), "loading");
    assert_eq!(ToastPosition::TopCenter.as_str(), "top-center");
    assert_eq!(ToastPosition::TopCenter.x_str(), "center");
    assert_eq!(ToastPosition::BottomLeft.y_str(), "bottom");
    assert_eq!(
        ToastPosition::TopRight.default_swipe_directions(),
        vec![SwipeDirection::Top, SwipeDirection::Right]
    );
    assert_eq!(ToastDirection::Rtl.as_str(), "rtl");
    assert_eq!(SwipeDirection::Left.as_str(), "left");
    let mut config = ToastConfig::default();
    assert_eq!(
        config.effective_swipe_directions(),
        vec![SwipeDirection::Bottom, SwipeDirection::Right]
    );
    config.swipe_directions = Some(vec![SwipeDirection::Left]);
    assert_eq!(config.effective_swipe_directions(), vec![SwipeDirection::Left]);
    assert_eq!(ToastInstant::from_millis(5).saturating_duration_since(at(9)), 0);
}

#[test]
fn viewport_attributes() {
    let config = ToastConfig::default();
    let attrs = ToastViewportAttrs::new(&config, true, "ltr".to_string());
    assert_eq!(attrs.role, "region");
    assert_eq!(attrs.aria_label, "Notifications (F8)");
    assert_eq!(attrs.tabindex, "-1");
    assert_eq!(attrs.data_expanded, "true");
    assert_eq!(attrs.data_position, "bottom-right");
    assert_eq!(
        attrs.style,
        "--offset-top: 32px; --offset-right: 32px; --offset-bottom: 32px; --offset-left: 32px; \
         --mobile-offset-top: 16px; --mobile-offset-right: 16px; --mobile-offset-bottom: 16px; \
         --mobile-offset-left: 16px;"
    );
    let mut bare = ToastConfig::default();
    bare.offset = ToastOffset::new().with_left("1px".to_string());
    bare.mobile_offset = ToastOffset::new();
    bare.container_aria_label = "{hotkey} and {hotkey}".to_string();
    let attrs = ToastViewportAttrs::with_position(&bare, false, "rtl".to_string(), ToastPosition::TopLeft);
    assert_eq!(attrs.style, "--offset-left: 1px;");
    assert_eq!(attrs.aria_label, "F8 and F8");
    assert_eq!(attrs.data_x_position, "left");
    assert_eq!(attrs.data_y_position, "top");
}

#[test]
fn root_attributes() {
    let attrs = ToastRootAttrs::new(ToastType::Error, ToastPhase::Active, 0, 3, None);
    assert_eq!(attrs.role, "alert");
    assert_eq!(attrs.aria_live, "assertive");
    assert_eq!(attrs.data_state, "open");
    assert_eq!(attrs.data_front, "true");
    assert_eq!(attrs.data_visible, "true");
    assert_eq!(attrs.data_index, "0");
    assert_eq!(attrs.data_position, "bottom-right");
    let attrs = ToastRootAttrs::with_options(
        ToastType::Success,
        ToastPhase::Dismissing,
        12,
        3,
        Some("t".to_string()),
        true,
    );
    assert_eq!(attrs.role, "status");
    assert_eq!(attrs.aria_live, "polite");
    assert_eq!(attrs.data_state, "closed");
    assert_eq!(attrs.data_visible, "false");
    assert_eq!(attrs.data_index, "12");
    assert_eq!(attrs.data_expanded, "true");
    assert_eq!(attrs.data_testid, Some("t".to_string()));
    assert_eq!(attrs.with_expanded(false).data_expanded, "false");
}

#[test]
fn button_attributes() {
    let action = ToastActionAttrs::new("Undo the change".to_string());
    assert_eq!(action.button_type, "button");
    assert_eq!(action.aria_label, "Undo the change");
    let close = ToastCloseAttrs::new(&ToastConfig::default());
    assert_eq!(close.aria_label, "Close notification");
    assert_eq!(close.data_radix_toast_announce_exclude, "true");
}

#[test]
fn browser_event_alias() {
    let e: ToastBrowserEvent = ToastEventPayload::SwipeDismiss { id: 42 };
    assert_eq!(e, ToastEventPayload::SwipeDismiss { id: 42 });
}
