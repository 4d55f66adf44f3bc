use monoxus::tabs::runtime::TabsRuntime;
use monoxus::foundation::roving::{Direction, Orientation};
use monoxus::foundation::shared::ScopeHandle;
use monoxus::foundation::state::DataState;
use monoxus::tabs::runtime::{navigate_key, register_trigger, unregister_trigger};
use monoxus::tabs::state::Tabs;
use monoxus::tabs::types::{
    TabsActivationMode, TabsDirection, TabsOrientation, TabsPart, TriggerRegistration,
};

fn tabs() -> Tabs {
    Tabs::new(ScopeHandle::root("demo"), "one".to_string())
}

fn regs(list: &[(&str, bool)]) -> Vec<TriggerRegistration> {
    list.iter()
        .map(|(v, d)| TriggerRegistration {
            value: v.to_string(),
            disabled: *d,
        })
        .collect()
}

#[test]
fn ids_and_attributes() {
    let t = tabs();
    assert_eq!(t.relationships().root_id(), "demo");
    assert_eq!(t.relationships().list_id(), "demo-list");
    assert_eq!(t.relationships().trigger_id("two"), "demo-trigger-two");
    assert_eq!(t.relationships().content_id("two"), "demo-content-two");
    let one = t.trigger("one", false);
    assert!(one.is_selected());
    assert_eq!(one.aria_selected(), "true");
    assert_eq!(one.tabindex(), 0);
    assert_eq!(one.data_state(), DataState::Active);
    assert_eq!(one.data_state_str(), "active");
    assert_eq!(one.aria_controls(), "demo-content-one");
    let two = t.trigger("two", false);
    assert!(!two.is_selected());
    assert_eq!(two.tabindex(), -1);
    assert_eq!(two.data_state_str(), "inactive");
    assert_eq!(t.trigger("one", true).tabindex(), -1);
    let panel = t.content("two");
    assert!(panel.is_hidden());
    assert_eq!(panel.role(), "tabpanel");
    assert_eq!(panel.aria_labelledby(), "demo-trigger-two");
    assert!(!t.content("one").is_hidden());
    assert_eq!(t.list().role(), "tablist");
    assert_eq!(t.list().aria_orientation(), "horizontal");
    assert_eq!(t.root().data_orientation(), "horizontal");
    assert_eq!(Tabs::parts()[1], TabsPart::List);
    assert_eq!(TabsPart::Content.as_str(), "content");
}

#[test]
fn select_tab_reports_change() {
    let mut t = tabs();
    assert!(t.select_tab("two".to_string()));
    assert_eq!(t.active_value(), "two");
    assert_eq!(t.current_tab_stop(), "two");
    assert!(!t.select_tab("two".to_string()));
    t.set_tab_stop("three".to_string());
    assert_eq!(t.current_tab_stop(), "three");
}

#[test]
fn horizontal_navigation_skips_disabled_and_loops() {
    let t = tabs();
    let r = regs(&[("one", false), ("two", true), ("three", false)]);
    assert_eq!(t.resolve_key_navigation(&r, "one", "ArrowRight"), Some("three".to_string()));
    assert_eq!(t.resolve_key_navigation(&r, "three", "ArrowRight"), Some("one".to_string()));
    assert_eq!(t.resolve_key_navigation(&r, "one", "ArrowLeft"), Some("three".to_string()));
    assert_eq!(t.resolve_key_navigation(&r, "three", "Home"), Some("one".to_string()));
    assert_eq!(t.resolve_key_navigation(&r, "one", "PageDown"), Some("three".to_string()));
    assert_eq!(t.resolve_key_navigation(&r, "one", "ArrowDown"), None);
    assert_eq!(t.resolve_key_navigation(&r, "one", "Enter"), None);
    let no_loop = tabs().with_loop_focus(false);
    assert_eq!(no_loop.resolve_key_navigation(&r, "three", "ArrowRight"), None);
    let rtl = tabs().with_direction(TabsDirection::Rtl);
    assert_eq!(rtl.resolve_key_navigation(&r, "one", "ArrowLeft"), Some("three".to_string()));
    let vertical = tabs().with_orientation(TabsOrientation::Vertical);
    assert_eq!(vertical.resolve_key_navigation(&r, "one", "ArrowDown"), Some("three".to_string()));
    assert_eq!(vertical.resolve_key_navigation(&r, "one", "ArrowRight"), None);
    assert_eq!(tabs().with_disabled(true).resolve_key_navigation(&r, "one", "End"), None);
    assert!(Tabs::is_navigation_key("PageUp"));
    assert!(!Tabs::is_navigation_key("Tab"));
}

#[test]
fn navigate_key_selects_in_automatic_mode() {
    let r = regs(&[("one", false), ("two", false)]);
    let mut auto = tabs();
    assert_eq!(navigate_key(&mut auto, &r, "ArrowRight"), Some(("two".to_string(), true)));
    assert_eq!(auto.active_value(), "two");
    let mut manual = tabs().with_activation_mode(TabsActivationMode::Manual);
    assert_eq!(navigate_key(&mut manual, &r, "ArrowRight"), Some(("two".to_string(), false)));
    assert_eq!(manual.active_value(), "one");
    assert_eq!(manual.current_tab_stop(), "two");
    assert_eq!(navigate_key(&mut manual, &r, "x"), None);
}

#[test]
fn registration_updates_in_place() {
    let mut r = Vec::new();
    register_trigger(&mut r, "a", false);
    register_trigger(&mut r, "b", false);
    register_trigger(&mut r, "a", true);
    assert_eq!(r, regs(&[("a", true), ("b", false)]));
    unregister_trigger(&mut r, "a");
    assert_eq!(r, regs(&[("b", false)]));
}

#[test]
fn enum_names_and_conversions() {
    assert_eq!(TabsOrientation::Vertical.as_str(), "vertical");
    assert!(TabsOrientation::Vertical.is_vertical());
    assert!(TabsOrientation::default().is_horizontal());
    assert_eq!(TabsDirection::Rtl.as_str(), "rtl");
    assert!(TabsDirection::Rtl.is_rtl());
    assert!(TabsActivationMode::default().is_automatic());
    assert!(TabsActivationMode::Manual.is_manual());
    assert_eq!(Orientation::from(TabsOrientation::Vertical), Orientation::Vertical);
    assert_eq!(Direction::from(TabsDirection::Rtl), Direction::Rtl);
}

#[test]
fn tabs_runtime_moves_and_selects() {
    let mut rt = TabsRuntime::new(tabs());
    rt.register_trigger("one", false);
    rt.register_trigger("two", true);
    rt.register_trigger("three", false);
    let (target, m) = rt.navigate_arrow("ArrowRight").unwrap();
    assert_eq!(target, "three");
    assert_eq!(m.focus_id, "demo-trigger-three");
    assert!(m.value_changed);
    assert_eq!(rt.active_value(), "three");
    assert_eq!(rt.current_tab_stop(), "three");
    let (first, _) = rt.navigate_boundary(true).unwrap();
    assert_eq!(first, "one");
    assert!(rt.navigate_key("Tab").is_none());
    assert!(!rt.select_tab("one"));
    assert!(rt.select_tab("three"));
    rt.unregister_trigger("three");
    assert_eq!(rt.registered_triggers().len(), 2);
    assert_eq!(rt.trigger("three", false).tabindex(), 0);
    assert_eq!(rt.tabs().active_value(), "three");
}

#[test]
fn manual_tabs_runtime_only_moves_the_tab_stop() {
    let mut rt = TabsRuntime::new(tabs().with_activation_mode(TabsActivationMode::Manual));
    rt.register_trigger("one", false);
    rt.register_trigger("two", false);
    let m = rt.move_tab_stop("two");
    assert!(!m.value_changed);
    assert_eq!(rt.active_value(), "one");
    assert_eq!(rt.current_tab_stop(), "two");
}
