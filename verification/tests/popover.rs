use monoxus::popover::runtime::PopoverRuntime;
use monoxus::foundation::overlay::{
    DocumentDismissEvent, FloatingLayer, PlacementAlign, PlacementSide, PortalHost, Presence,
    PresenceState,
};
use monoxus::foundation::shared::ScopeHandle;
use monoxus::foundation::state::DataState;
use monoxus::popover::runtime::{
    plan_popover_sync, popover_dismisses_escape, popover_dismisses_outside_focus,
    popover_dismisses_outside_pointer, popover_document_path_is_inside,
    popover_close_focus_target, popover_document_path_is_outside, popover_open_focus_step,
    popover_request_state, serialize_css_custom_properties, PopoverOpenFocusStep,
    should_dismiss_popover_from_document_event, PopoverContentPresenceLane, PopoverSyncState,
};
use monoxus::popover::state::Popover;
use monoxus::popover::types::{
    PopoverCloseFocusPolicy, PopoverOpenFocusPolicy, PopoverOutsideDismissBehavior,
    PopoverOutsideInteractionPolicy, PopoverPart, PopoverScrollLockPolicy, PopoverStateRequest,
};

fn scope() -> ScopeHandle {
    ScopeHandle::root("playground").child("popover-test")
}

#[test]
fn popover_document_path_detection_treats_runtime_surfaces_as_inside() {
    let scope = ScopeHandle::root("playground").child("popover-test");
    let mut popover = Popover::new(scope.clone(), true).with_modal(true);
    let branch_id = scope.qualify("branch");
    let focus_before = popover.lifecycle().focus_guards().before().clone();

    assert!(popover.lifecycle_mut().register_branch(branch_id.clone()));

    assert!(popover_document_path_is_inside(&popover, &[branch_id.clone()]));
    assert!(popover_document_path_is_inside(
        &popover,
        &[popover.relationships().trigger_id().to_owned()]
    ));
    assert!(popover_document_path_is_inside(
        &popover,
        &[popover.relationships().anchor_id().to_owned()]
    ));
    assert!(popover_document_path_is_inside(
        &popover,
        &[popover.relationships().content_id().to_owned()]
    ));
    assert!(popover_document_path_is_inside(&popover, &[focus_before]));
    assert!(popover_document_path_is_outside(
        &popover,
        &[String::from("outside-target")]
    ));
}

#[test]
fn phase_3_7_step_4_popover_presence_lane_retains_content_until_close_completion() {
    let presence = Presence::new(true).with_retained_mount(true);
    let mut lane = PopoverContentPresenceLane::new(&presence);

    let close = lane.sync(false);
    let cycle_id = close.started_close_cycle().unwrap();

    assert_eq!(close.state(), PresenceState::Suspended);
    assert!(lane.should_render_portal());
    assert!(lane.should_render_content());
    assert!(!lane.should_track_live_placement(false));
    assert!(!lane.should_clear_positioning(false));

    assert!(lane.complete_close_cycle(cycle_id));
    assert!(!lane.should_render_portal());
    assert!(!lane.should_render_content());
    assert!(lane.should_clear_positioning(false));
}

#[test]
fn popover_ids_are_qualified_by_scope() {
    let popover = Popover::new(scope(), false);
    let rel = popover.relationships();
    assert_eq!(rel.root_id(), "playground-popover-test");
    assert_eq!(rel.trigger_id(), "playground-popover-test-trigger");
    assert_eq!(rel.anchor_id(), "playground-popover-test-anchor");
    assert_eq!(rel.content_id(), "playground-popover-test-content");
    assert_eq!(rel.arrow_id(), "playground-popover-test-arrow");
    assert_eq!(rel.close_id(), "playground-popover-test-close");
    assert_eq!(
        popover.lifecycle().focus_guards().after(),
        "playground-popover-test-focus-guard-after"
    );
}

#[test]
fn popover_attributes_follow_open_state() {
    let open = Popover::new(scope(), true);
    let trigger = open.trigger();
    assert_eq!(trigger.id(), "playground-popover-test-trigger");
    assert_eq!(trigger.aria_controls(), "playground-popover-test-content");
    assert!(trigger.aria_expanded());
    assert_eq!(*trigger.data_state(), DataState::Open);
    assert_eq!(trigger.open_request(), PopoverStateRequest::Toggle);
    let content = open.content();
    assert_eq!(content.role(), "dialog");
    assert!(!content.aria_modal());
    assert_eq!(content.data_side(), "bottom");
    assert_eq!(content.data_align(), "center");
    assert_eq!(*open.root().data_state(), DataState::Open);
    assert_eq!(open.close().close_request(), PopoverStateRequest::Close);
    assert_eq!(open.arrow().id(), "playground-popover-test-arrow");
    assert_eq!(open.anchor().id(), "playground-popover-test-anchor");
    assert_eq!(*open.portal().host(), PortalHost::Default);

    let closed = Popover::new_modal(scope(), false);
    assert!(!closed.trigger().aria_expanded());
    assert_eq!(*closed.close().data_state(), DataState::Closed);
    assert!(closed.content().aria_modal());
    assert_eq!(closed.data_state().as_str(), "closed");
}

#[test]
fn modal_defaults_and_mode_switch() {
    let popover = Popover::new(scope(), true);
    assert!(!popover.lifecycle().is_modal());
    assert_eq!(
        *popover.lifecycle().outside_interaction_policy(),
        PopoverOutsideInteractionPolicy::non_modal_default()
    );
    assert!(!popover.lifecycle().scroll_lock_policy().is_enabled());

    let modal = popover.with_modal(true);
    assert!(modal.lifecycle().is_modal());
    assert!(modal.lifecycle().focus_scope().trap_focus());
    assert!(modal.lifecycle().focus_scope().loop_focus());
    assert_eq!(
        *modal.lifecycle().outside_interaction_policy(),
        PopoverOutsideInteractionPolicy::modal_default()
    );
    assert!(modal.lifecycle().scroll_lock_policy().is_enabled());
    assert!(!modal.lifecycle().dismiss_layer().dismisses_focus_outside());

    let back = modal.with_modal(false);
    assert_eq!(
        *back.lifecycle().outside_interaction_policy(),
        PopoverOutsideInteractionPolicy::non_modal_default()
    );
    assert!(!back.lifecycle().scroll_lock_policy().is_enabled());
    assert!(back.lifecycle().dismiss_layer().dismisses_focus_outside());
}

#[test]
fn custom_policies_survive_mode_switch() {
    let custom = PopoverOutsideInteractionPolicy::new(
        PopoverOutsideDismissBehavior::Ignore,
        PopoverOutsideDismissBehavior::Ignore,
    );
    let popover = Popover::new(scope(), true)
        .with_outside_interaction_policy(custom)
        .with_scroll_lock_policy(PopoverScrollLockPolicy::enabled().with_restore_delay(Some(5)))
        .with_modal(true);
    assert_eq!(*popover.lifecycle().outside_interaction_policy(), custom);
    assert_eq!(popover.lifecycle().scroll_lock_policy().restore_delay(), Some(5));
    assert!(!popover.lifecycle().dismiss_layer().dismisses_pointer_down_outside());
}

#[test]
fn focus_policies_drive_focus_scope() {
    let mut popover = Popover::new(scope(), true)
        .with_open_focus_policy(PopoverOpenFocusPolicy::Target("field".to_string()))
        .with_close_focus_policy(PopoverCloseFocusPolicy::NoFocus);
    assert_eq!(
        popover.lifecycle().focus_scope().autofocus_target(),
        Some("field".to_string())
    );
    assert_eq!(popover.lifecycle().focus_scope().restore_target(), None);
    popover.lifecycle_mut().set_autofocus_target(None);
    assert_eq!(
        *popover.lifecycle().open_focus_policy(),
        PopoverOpenFocusPolicy::FirstFocusable
    );
    popover
        .lifecycle_mut()
        .capture_restore_target(Some("back".to_string()));
    assert_eq!(
        popover.lifecycle().focus_scope().restore_target(),
        Some("back".to_string())
    );
    let suppressed = popover.with_open_focus_policy(PopoverOpenFocusPolicy::Suppress);
    assert!(!suppressed.lifecycle().focus_scope().autofocus_enabled());
    let trigger = suppressed.with_close_focus_policy(PopoverCloseFocusPolicy::Trigger);
    assert_eq!(
        trigger.lifecycle().focus_scope().restore_target(),
        Some("playground-popover-test-trigger".to_string())
    );
}

#[test]
fn register_branch_twice_is_refused() {
    let mut popover = Popover::new(scope(), true);
    assert!(popover.lifecycle_mut().register_branch("b".to_string()));
    assert!(!popover.lifecycle_mut().register_branch("b".to_string()));
    assert_eq!(popover.lifecycle().dismiss_layer().branches().len(), 1);
    assert_eq!(popover.lifecycle().focus_scope().branches().len(), 1);
}

#[test]
fn document_events_dismiss_by_policy() {
    let popover = Popover::new(scope(), true);
    let outside = DocumentDismissEvent::PointerDown {
        path_ids: vec!["elsewhere".to_string()],
    };
    let inside = DocumentDismissEvent::PointerDown {
        path_ids: vec!["x".to_string(), "playground-popover-test-trigger".to_string()],
    };
    assert!(should_dismiss_popover_from_document_event(&popover, &outside));
    assert!(!should_dismiss_popover_from_document_event(&popover, &inside));
    assert!(should_dismiss_popover_from_document_event(
        &popover,
        &DocumentDismissEvent::Escape
    ));
    assert!(should_dismiss_popover_from_document_event(
        &popover,
        &DocumentDismissEvent::FocusIn {
            path_ids: vec!["elsewhere".to_string()]
        }
    ));
    let modal = Popover::new_modal(scope(), true);
    assert!(!should_dismiss_popover_from_document_event(
        &modal,
        &DocumentDismissEvent::FocusIn {
            path_ids: vec!["elsewhere".to_string()]
        }
    ));
    assert!(popover_dismisses_escape(&modal));
    assert!(popover_dismisses_outside_pointer(&modal, Some("elsewhere")));
    assert!(!popover_dismisses_outside_pointer(
        &modal,
        Some("playground-popover-test-content")
    ));
    assert!(!popover_dismisses_outside_focus(&modal, None));
    assert!(popover_dismisses_outside_focus(&popover, None));
}

#[test]
fn request_state_reports_changes_only() {
    let open = Popover::new(scope(), true);
    assert_eq!(popover_request_state(&open, PopoverStateRequest::Open), (true, false));
    assert_eq!(popover_request_state(&open, PopoverStateRequest::Toggle), (false, true));
    assert_eq!(popover_request_state(&open, PopoverStateRequest::Close), (false, true));
    assert_eq!(PopoverStateRequest::Toggle.data_state(false), DataState::Open);
    assert_eq!(PopoverStateRequest::Close.data_state(true), DataState::Closed);
}

#[test]
fn sync_plan_manages_scroll_lock_and_focus() {
    let modal = Popover::new_modal(scope(), true)
        .with_scroll_lock_policy(PopoverScrollLockPolicy::enabled().with_restore_delay(Some(30)));
    let idle = PopoverSyncState {
        last_open: false,
        pending_open_focus: false,
        scroll_lock_held: false,
    };
    let plan = plan_popover_sync(&modal, idle);
    assert!(plan.schedule_open_focus);
    assert!(plan.acquire_scroll_lock);
    assert_eq!(plan.release_scroll_lock, None);
    assert!(plan.next.scroll_lock_held && plan.next.last_open && plan.next.pending_open_focus);

    let closed = Popover::new_modal(scope(), false)
        .with_scroll_lock_policy(PopoverScrollLockPolicy::enabled().with_restore_delay(Some(30)));
    let plan2 = plan_popover_sync(&closed, plan.next);
    assert!(plan2.restore_close_focus);
    assert_eq!(plan2.release_scroll_lock, Some(Some(30)));
    assert!(!plan2.next.scroll_lock_held && !plan2.next.pending_open_focus);
}

#[test]
fn css_properties_serialize_in_order() {
    let entries = vec![
        ("--a".to_string(), "1px".to_string()),
        ("--b".to_string(), "2px 3px".to_string()),
    ];
    assert_eq!(
        serialize_css_custom_properties(&entries),
        " --a: 1px; --b: 2px 3px;"
    );
    assert_eq!(serialize_css_custom_properties(&[]), "");
}

#[test]
fn parts_and_floating() {
    assert_eq!(Popover::parts().len(), 7);
    assert_eq!(Popover::parts()[5].as_str(), "anchor");
    assert_eq!(PopoverPart::Close.as_str(), "close");
    let popover = Popover::new(scope(), true)
        .with_floating(FloatingLayer::new(PlacementSide::Top).with_align(PlacementAlign::End));
    assert_eq!(popover.content().data_side(), "top");
    assert_eq!(popover.arrow().data_align(), "end");
    assert_eq!(popover.lifecycle().floating().namespace, "popover");
}

#[test]
fn open_focus_steps_follow_the_policy() {
    let popover = Popover::new(scope(), true);
    assert_eq!(popover_open_focus_step(&popover, false), PopoverOpenFocusStep::Wait);
    assert_eq!(popover_open_focus_step(&popover, true), PopoverOpenFocusStep::FocusFirst);
    let targeted = Popover::new(scope(), true)
        .with_open_focus_policy(PopoverOpenFocusPolicy::Target("field".to_string()));
    assert_eq!(
        popover_open_focus_step(&targeted, false),
        PopoverOpenFocusStep::FocusTarget("field".to_string())
    );
    let suppressed =
        Popover::new(scope(), true).with_open_focus_policy(PopoverOpenFocusPolicy::Suppress);
    assert_eq!(popover_open_focus_step(&suppressed, true), PopoverOpenFocusStep::Done);
}

#[test]
fn close_focus_targets_follow_the_policy() {
    let popover = Popover::new(scope(), false);
    assert_eq!(
        popover_close_focus_target(&popover),
        Some("playground-popover-test-trigger".to_string())
    );
    let targeted = Popover::new(scope(), false)
        .with_close_focus_policy(PopoverCloseFocusPolicy::Target("elsewhere".to_string()));
    assert_eq!(popover_close_focus_target(&targeted), Some("elsewhere".to_string()));
    let none = Popover::new(scope(), false).with_close_focus_policy(PopoverCloseFocusPolicy::NoFocus);
    assert_eq!(popover_close_focus_target(&none), None);
}

#[test]
fn popover_runtime_syncs_focus_scroll_lock_and_presence() {
    let mut rt = PopoverRuntime::new(Popover::new(scope(), false).with_modal(true));
    assert!(!rt.should_render_content());
    assert_eq!(rt.open_focus_step(), PopoverOpenFocusStep::Done);
    let (next_open, notify) = rt.toggle();
    assert!(next_open && notify);
    let (u, plan) = rt.sync(Popover::new(scope(), true).with_modal(true));
    assert_eq!(u.state(), PresenceState::Present);
    assert!(plan.schedule_open_focus);
    assert!(plan.acquire_scroll_lock);
    assert!(rt.should_render_portal());
    assert_eq!(rt.open_focus_step(), PopoverOpenFocusStep::Wait);
    rt.capture_content();
    assert_eq!(rt.open_focus_step(), PopoverOpenFocusStep::FocusFirst);
    rt.finish_open_focus();
    assert_eq!(rt.open_focus_step(), PopoverOpenFocusStep::Done);
    rt.set_placement(PlacementSide::Top, PlacementAlign::End);
    assert_eq!(rt.content().data_side(), "top");
    assert_eq!(rt.arrow().data_align(), "end");
    assert!(rt.dismiss_escape());
    assert_eq!(rt.open(), (true, false));
    assert_eq!(rt.close_now(), (false, true));
    let (u, plan) = rt.sync(Popover::new(scope(), false).with_modal(true));
    assert!(plan.restore_close_focus);
    assert!(plan.release_scroll_lock.is_some());
    // The content stays for its exit animation, then goes with its placement.
    assert!(rt.should_render_content());
    assert!(rt.placement().is_some());
    let cycle = u.started_close_cycle().unwrap();
    assert!(rt.complete_presence_close_cycle(cycle));
    assert!(!rt.should_render_content());
    assert_eq!(rt.placement(), None);
}
