use monoxus::foundation::overlay::{DocumentDismissEvent, PlacementAlign, PlacementSide, PresenceState};
use monoxus::foundation::shared::ScopeHandle;
use monoxus::foundation::state::DataState;
use monoxus::select::runtime::{SelectCloseFocus, SelectRuntime};
use monoxus::select::state::Select;
use monoxus::select::trigger::humanize_label;
use monoxus::select::types::{SelectItemData, SelectMode};

fn item(value: &str, text: &str, disabled: bool) -> SelectItemData {
    SelectItemData::new(value.to_string(), text.to_string(), disabled)
}

fn fruit_items() -> Vec<SelectItemData> {
    vec![
        item("apple", "Apple", false),
        item("banana", "Banana", true),
        item("cherry", "Cherry", false),
        item("date", "Date", false),
    ]
}

fn single() -> SelectRuntime {
    SelectRuntime::new(Select::new(ScopeHandle::root("fruit")).with_items(fruit_items()))
}

fn multiple() -> SelectRuntime {
    SelectRuntime::new(
        Select::new(ScopeHandle::root("fruit"))
            .with_multiple(true)
            .with_items(fruit_items()),
    )
}

#[test]
fn starts_from_the_select() {
    let rt = SelectRuntime::new(
        Select::new(ScopeHandle::root("fruit"))
            .with_value(Some("cherry".to_string()))
            .with_open(true),
    );
    assert_eq!(rt.value(), Some("cherry".to_string()));
    assert!(rt.is_open());
    assert_eq!(rt.highlighted_value(), None);
    assert_eq!(rt.side(), PlacementSide::Bottom);
    assert_eq!(rt.align(), PlacementAlign::Start);
    assert!(rt.avoid_collisions());
    assert_eq!(rt.presence_state(), PresenceState::Present);
}

#[test]
fn opening_highlights_the_choice_or_the_first_enabled_option() {
    let mut rt = single();
    let e = rt.open_dropdown();
    assert!(rt.is_open());
    assert_eq!(e.open_change, Some(true));
    assert!(e.start_dismiss_monitor);
    assert_eq!(rt.highlighted_value(), Some("apple".to_string()));
    assert_eq!(e.scroll_into_view, Some("fruit-item-apple".to_string()));

    let mut rt = SelectRuntime::new(
        Select::new(ScopeHandle::root("fruit"))
            .with_items(fruit_items())
            .with_value(Some("date".to_string())),
    );
    rt.open_dropdown();
    assert_eq!(rt.highlighted_value(), Some("date".to_string()));

    // A disabled current choice is not highlighted.
    let mut rt = SelectRuntime::new(
        Select::new(ScopeHandle::root("fruit"))
            .with_items(fruit_items())
            .with_value(Some("banana".to_string())),
    );
    rt.open_dropdown();
    assert_eq!(rt.highlighted_value(), Some("apple".to_string()));
}

#[test]
fn opening_twice_or_when_disabled_does_nothing() {
    let mut rt = single();
    rt.open_dropdown();
    let e = rt.open_dropdown();
    assert_eq!(e.open_change, None);
    let mut rt = SelectRuntime::new(Select::new(ScopeHandle::root("x")).with_disabled(true));
    let e = rt.open_dropdown();
    assert!(!rt.is_open());
    assert_eq!(e.open_change, None);
}

#[test]
fn closing_clears_the_highlight_and_restores_focus() {
    let mut rt = single();
    rt.open_dropdown();
    let e = rt.close_dropdown();
    assert!(!rt.is_open());
    assert_eq!(rt.highlighted_value(), None);
    assert_eq!(e.open_change, Some(false));
    assert_eq!(e.close_focus, SelectCloseFocus::RestoreTrigger);
    assert!(e.stop_monitors);
    rt.open_dropdown();
    let e = rt.close_dropdown_without_restore();
    assert_eq!(e.close_focus, SelectCloseFocus::NotifyOnly);
    let e = rt.close_dropdown();
    assert_eq!(e.open_change, None);
    assert_eq!(e.close_focus, SelectCloseFocus::Unchanged);
}

#[test]
fn toggle_open_flips_the_dropdown() {
    let mut rt = single();
    rt.toggle_open();
    assert!(rt.is_open());
    rt.toggle_open();
    assert!(!rt.is_open());
}

#[test]
fn single_choice_closes_and_reports_both_forms() {
    let mut rt = single();
    rt.open_dropdown();
    let e = rt.select_item("cherry");
    assert_eq!(rt.value(), Some("cherry".to_string()));
    assert_eq!(rt.values(), vec!["cherry".to_string()]);
    assert_eq!(e.value_change, Some(Some("cherry".to_string())));
    assert_eq!(e.values_change, Some(vec!["cherry".to_string()]));
    assert_eq!(e.open_change, Some(false));
    assert!(!rt.is_open());
    assert!(rt.is_selected("cherry"));
    assert!(!rt.is_selected("apple"));
    // Choosing it again keeps it without deselect.
    rt.select_item("cherry");
    assert_eq!(rt.value(), Some("cherry".to_string()));
}

#[test]
fn deselect_clears_a_chosen_value() {
    let mut rt = SelectRuntime::new(
        Select::new(ScopeHandle::root("fruit")).with_allow_deselect(true),
    );
    rt.select_item("apple");
    let e = rt.select_item("apple");
    assert_eq!(rt.value(), None);
    assert!(rt.values().is_empty());
    assert_eq!(e.value_change, Some(None));
    assert_eq!(e.values_change, Some(Vec::new()));
}

#[test]
fn the_empty_value_clears_the_choice() {
    let mut rt = multiple();
    rt.select_item("apple");
    rt.open_dropdown();
    let e = rt.select_item("");
    assert_eq!(rt.value(), None);
    assert!(rt.values().is_empty());
    assert_eq!(e.value_change, Some(None));
    assert_eq!(e.values_change, Some(Vec::new()));
    assert!(!rt.is_open());
    assert!(!rt.is_selected(""));
}

#[test]
fn multiple_choice_toggles_and_stays_open() {
    let mut rt = multiple();
    rt.open_dropdown();
    rt.select_item("cherry");
    let e = rt.toggle_item("apple");
    assert_eq!(rt.values(), vec!["cherry".to_string(), "apple".to_string()]);
    assert_eq!(rt.value(), Some("cherry".to_string()));
    assert_eq!(e.open_change, None);
    assert!(rt.is_open());
    let e = rt.select_item("cherry");
    assert_eq!(rt.values(), vec!["apple".to_string()]);
    assert_eq!(rt.value(), Some("apple".to_string()));
    assert_eq!(e.values_change, Some(vec!["apple".to_string()]));
    assert_eq!(e.value_change, Some(Some("apple".to_string())));
}

#[test]
fn a_disabled_select_ignores_choices() {
    let mut rt = SelectRuntime::new(Select::new(ScopeHandle::root("x")).with_disabled(true));
    let e = rt.select_item("a");
    assert_eq!(rt.value(), None);
    assert_eq!(e.value_change, None);
}

#[test]
fn form_reset_restores_defaults() {
    let mut rt = SelectRuntime::new(
        Select::new(ScopeHandle::root("x"))
            .with_default_value(Some("b".to_string()))
            .with_value(Some("c".to_string())),
    );
    let e = rt.handle_form_reset();
    assert_eq!(rt.value(), Some("b".to_string()));
    assert_eq!(e.value_change, Some(Some("b".to_string())));
    assert_eq!(e.values_change, None);

    let mut rt = SelectRuntime::new(
        Select::new(ScopeHandle::root("x"))
            .with_multiple(true)
            .with_default_values(vec!["a".to_string()])
            .with_values(vec!["b".to_string(), "c".to_string()]),
    );
    let e = rt.handle_form_reset();
    assert_eq!(rt.values(), vec!["a".to_string()]);
    assert_eq!(e.values_change, Some(vec!["a".to_string()]));
    assert_eq!(e.value_change, None);
}

#[test]
fn registering_updates_or_appends() {
    let mut rt = single();
    rt.register_item("banana", "Yellow banana", false);
    assert_eq!(rt.item_label("banana"), Some("Yellow banana".to_string()));
    rt.register_item("elder", "Elderberry", false);
    assert_eq!(rt.item_label("elder"), Some("Elderberry".to_string()));
    assert_eq!(rt.item_label("fig"), None);
    rt.open_dropdown();
    rt.highlight_last();
    assert_eq!(rt.highlighted_value(), Some("elder".to_string()));
}

#[test]
fn arrows_skip_disabled_options_and_clamp_without_loop() {
    let mut rt = single();
    rt.open_dropdown();
    assert_eq!(rt.highlighted_value(), Some("apple".to_string()));
    let e = rt.highlight_next();
    assert_eq!(rt.highlighted_value(), Some("cherry".to_string()));
    assert_eq!(e.scroll_into_view, Some("fruit-item-cherry".to_string()));
    rt.highlight_next();
    rt.highlight_next();
    assert_eq!(rt.highlighted_value(), Some("date".to_string()));
    rt.highlight_first();
    let e = rt.highlight_prev();
    assert_eq!(rt.highlighted_value(), Some("apple".to_string()));
    assert_eq!(e.scroll_into_view, None);
}

#[test]
fn arrows_wrap_with_loop() {
    let mut rt = SelectRuntime::new(
        Select::new(ScopeHandle::root("fruit"))
            .with_items(fruit_items())
            .with_loop(true),
    );
    rt.open_dropdown();
    rt.highlight_prev();
    assert_eq!(rt.highlighted_value(), Some("date".to_string()));
    rt.highlight_next();
    assert_eq!(rt.highlighted_value(), Some("apple".to_string()));
}

#[test]
fn no_enabled_option_means_no_highlight_move() {
    let mut rt = SelectRuntime::new(
        Select::new(ScopeHandle::root("x")).with_items(vec![item("a", "A", true)]),
    );
    rt.open_dropdown();
    assert_eq!(rt.highlighted_value(), None);
    let e = rt.highlight_next();
    assert_eq!(rt.highlighted_value(), None);
    assert_eq!(e.scroll_into_view, None);
}

#[test]
fn typeahead_builds_a_buffer_within_half_a_second() {
    let mut rt = single();
    rt.open_dropdown();
    rt.handle_typeahead('c', 1000);
    assert_eq!(rt.highlighted_value(), Some("cherry".to_string()));
    rt.handle_typeahead('d', 1200);
    // "cd" matches nothing: the highlight stays.
    assert_eq!(rt.highlighted_value(), Some("cherry".to_string()));
    rt.handle_typeahead('D', 1800);
    assert_eq!(rt.highlighted_value(), Some("date".to_string()));
    // Disabled options are skipped.
    rt.handle_typeahead('b', 5000);
    assert_eq!(rt.highlighted_value(), Some("date".to_string()));
}

#[test]
fn trigger_keys_open_or_choose_by_typeahead() {
    let mut rt = single();
    let e = rt.handle_trigger_keydown("ArrowDown", 0);
    assert!(rt.is_open());
    assert!(e.prevent_default);
    let e = rt.handle_trigger_keydown("ArrowDown", 0);
    assert!(!e.prevent_default);

    let mut rt = single();
    let e = rt.handle_trigger_keydown("d", 100);
    assert!(e.prevent_default);
    assert_eq!(rt.value(), Some("date".to_string()));
    assert!(!rt.is_open());
    let e = rt.handle_trigger_keydown("Shift", 100);
    assert!(!e.prevent_default);
    let e = rt.handle_trigger_keydown("!", 100);
    assert!(!e.prevent_default);
}

#[test]
fn closed_typeahead_matches_values_too() {
    let mut rt = SelectRuntime::new(
        Select::new(ScopeHandle::root("x")).with_items(vec![item("kiwi", "Green fruit", false)]),
    );
    rt.handle_closed_typeahead('k', 10);
    assert_eq!(rt.value(), Some("kiwi".to_string()));
}

#[test]
fn content_keys_move_choose_and_close() {
    let mut rt = single();
    rt.open_dropdown();
    let e = rt.handle_content_keydown("ArrowDown", 0);
    assert!(e.prevent_default);
    assert_eq!(rt.highlighted_value(), Some("cherry".to_string()));
    rt.handle_content_keydown("End", 0);
    assert_eq!(rt.highlighted_value(), Some("date".to_string()));
    rt.handle_content_keydown("Home", 0);
    assert_eq!(rt.highlighted_value(), Some("apple".to_string()));
    let e = rt.handle_content_keydown("Enter", 0);
    assert!(e.prevent_default);
    assert_eq!(rt.value(), Some("apple".to_string()));
    assert!(!rt.is_open());

    rt.open_dropdown();
    let e = rt.handle_content_keydown("Tab", 0);
    assert!(!e.prevent_default);
    assert_eq!(e.close_focus, SelectCloseFocus::NotifyOnly);
    assert!(!rt.is_open());

    rt.open_dropdown();
    let e = rt.handle_content_keydown("Escape", 0);
    assert!(e.prevent_default);
    assert_eq!(e.close_focus, SelectCloseFocus::RestoreTrigger);

    let e = rt.handle_content_keydown("ArrowDown", 0);
    assert!(!e.prevent_default);
}

#[test]
fn escape_in_the_content_can_be_prevented() {
    let mut rt = single();
    rt.open_dropdown();
    rt.handle_content_escape(true);
    assert!(rt.is_open());
    assert!(rt.is_escape_prevented());
    // The document escape that follows is swallowed once.
    rt.handle_dismiss_event(&DocumentDismissEvent::Escape, false);
    assert!(rt.is_open());
    assert!(!rt.is_escape_prevented());
    let e = rt.handle_dismiss_event(&DocumentDismissEvent::Escape, false);
    assert!(!rt.is_open());
    assert_eq!(e.close_focus, SelectCloseFocus::RestoreTrigger);
}

#[test]
fn outside_interactions_close_without_restoring_focus() {
    let mut rt = single();
    rt.open_dropdown();
    let inside = DocumentDismissEvent::PointerDown {
        path_ids: vec!["fruit-item-apple".to_string(), "fruit-content".to_string()],
    };
    rt.handle_dismiss_event(&inside, false);
    assert!(rt.is_open());
    let outside = DocumentDismissEvent::PointerDown { path_ids: vec!["elsewhere".to_string()] };
    rt.handle_dismiss_event(&outside, true);
    assert!(rt.is_open());
    let e = rt.handle_dismiss_event(&outside, false);
    assert!(!rt.is_open());
    assert_eq!(e.close_focus, SelectCloseFocus::NotifyOnly);

    rt.open_dropdown();
    let focus = DocumentDismissEvent::FocusIn { path_ids: vec!["fruit-trigger".to_string()] };
    rt.handle_dismiss_event(&focus, false);
    assert!(rt.is_open());
    let focus = DocumentDismissEvent::FocusIn { path_ids: vec![] };
    rt.handle_dismiss_event(&focus, false);
    assert!(!rt.is_open());
}

#[test]
fn attributes_follow_the_runtime() {
    let mut rt = single();
    let t = rt.trigger_attributes();
    assert_eq!(t.id, "fruit-trigger");
    assert_eq!(t.aria_expanded, "false");
    assert!(t.data_placeholder);
    rt.open_dropdown();
    rt.select_item("cherry");
    let t = rt.trigger_attributes();
    assert!(!t.data_placeholder);
    let r = rt.root_attributes();
    assert_eq!(r.id, "fruit");
    assert_eq!(r.data_state, DataState::Closed);
    let i = rt.item_attributes("cherry", true, false);
    assert_eq!(i.aria_selected, "true");
    assert_eq!(i.data_state, "checked");
    assert_eq!(i.id, "fruit-item-cherry");
    let i = rt.item_attributes("apple", false, true);
    assert_eq!(i.aria_selected, "false");
    assert_eq!(i.aria_disabled, Some("true"));
    rt.set_reference_hidden(true);
    let c = rt.content_attributes(Some("fruit-item-apple".to_string()));
    assert_eq!(c.id, "fruit-content");
    assert_eq!(c.role, "listbox");
    assert!(c.reference_hidden);
}

#[test]
fn placement_preferences_and_measurements() {
    let mut rt = single();
    rt.set_side(PlacementSide::Top);
    assert_eq!(rt.side(), PlacementSide::Top);
    assert_eq!(rt.preferred_side(), PlacementSide::Top);
    rt.apply_floating_position(PlacementSide::Bottom, PlacementAlign::End, true);
    assert_eq!(rt.side(), PlacementSide::Bottom);
    assert_eq!(rt.align(), PlacementAlign::End);
    assert!(rt.is_reference_hidden());
    // Setting the same preference again does not undo the measured side.
    rt.set_side(PlacementSide::Top);
    assert_eq!(rt.side(), PlacementSide::Bottom);
    rt.set_avoid_collisions(false);
    rt.set_sticky(Some("always".to_string()));
    rt.apply_floating_position(PlacementSide::Left, PlacementAlign::Center, true);
    assert_eq!(rt.side(), PlacementSide::Top);
    assert_eq!(rt.align(), PlacementAlign::Start);
    assert!(!rt.is_reference_hidden());
}

#[test]
fn presence_follows_the_open_state() {
    let mut rt = single();
    rt.open_dropdown();
    rt.sync_presence();
    assert!(rt.should_render_content());
    rt.close_dropdown();
    let u = rt.sync_presence();
    assert_eq!(rt.presence_state(), PresenceState::Suspended);
    assert!(rt.should_render_portal());
    let cycle = u.started_close_cycle().unwrap();
    assert!(rt.complete_presence_close_cycle(cycle));
    assert!(!rt.should_render_content());
}

#[test]
fn labels_are_humanized() {
    assert_eq!(humanize_label(""), "");
    assert_eq!(humanize_label("dark-mode_on"), "Dark Mode On");
    assert_eq!(humanize_label("--"), "--");
    assert_eq!(humanize_label("a--b"), "A B");
}

#[test]
fn value_text_uses_labels() {
    let mut rt = multiple();
    assert_eq!(rt.value_text(), "");
    rt.select_item("cherry");
    rt.select_item("ice-cream");
    assert_eq!(rt.value_text(), "Cherry, Ice Cream");
    let mut rt = single();
    rt.register_item("apple", "apple", false);
    rt.select_item("apple");
    assert_eq!(rt.value_text(), "Apple");
    let _ = SelectMode::single();
}

#[test]
fn toggling_an_unchosen_value_twice_restores_the_values() {
    let mut rt = SelectRuntime::new(
        Select::new(ScopeHandle::root("x"))
            .with_multiple(true)
            .with_values(vec!["a".to_string()]),
    );
    rt.select_item("b");
    rt.select_item("b");
    assert_eq!(rt.values(), vec!["a".to_string()]);
}

#[test]
fn reset_to_defaults_restores_both_forms() {
    let mut rt = SelectRuntime::new(
        Select::new(ScopeHandle::root("x"))
            .with_default_value(Some("a".to_string()))
            .with_value(Some("b".to_string())),
    );
    rt.select_item("c");
    let e = rt.reset_to_defaults();
    assert_eq!(rt.value(), Some("a".to_string()));
    assert_eq!(e.value_change, Some(Some("a".to_string())));
    assert!(e.values_change.is_some());
    rt.toggle();
    assert!(rt.is_open());
}

#[test]
fn hidden_inputs_submit_the_choice() {
    let mut rt = single();
    assert_eq!(rt.hidden_input_values(), vec!["".to_string()]);
    rt.select_item("apple");
    assert_eq!(rt.hidden_input_values(), vec!["apple".to_string()]);
    let mut rt = multiple();
    assert_eq!(rt.hidden_input_values(), vec!["".to_string()]);
    rt.select_item("apple");
    rt.select_item("date");
    assert_eq!(rt.hidden_input_values(), vec!["apple".to_string(), "date".to_string()]);
}
