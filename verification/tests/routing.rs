use launch_router::router::deep_link_payload;
use launch_router::router::handle_launch;
use launch_router::router::handle_open_url;
use launch_router::router::handle_second_instance;
use launch_router::window::deliver;
use launch_router::window::WindowSet;

fn set_with_labels(labels: &[&str]) -> WindowSet {
    let mut ws = WindowSet::new();
    for label in labels {
        ws.add_window(String::from(*label));
    }
    ws
}

fn argv(items: &[&str]) -> Vec<String> {
    items.iter().map(|s| String::from(*s)).collect()
}

#[test]
fn launch_with_url_emits_deep_link_to_main() {
    let mut ws = set_with_labels(&["main"]);
    handle_launch(&mut ws, argv(&["app", "myapp://foo"]));
    assert_eq!(ws.windows.len(), 1);
    assert_eq!(ws.windows[0].events.len(), 1);
    assert_eq!(ws.windows[0].events[0].name, "deep-link");
    assert_eq!(ws.windows[0].events[0].payload, "myapp://foo");
}

#[test]
fn second_instance_without_url_emits_nothing() {
    let mut ws = set_with_labels(&["main"]);
    handle_second_instance(&mut ws, argv(&["app"]));
    assert_eq!(ws.windows.len(), 1);
    assert!(ws.windows[0].events.is_empty());
}

#[test]
fn empty_argv_emits_nothing() {
    let mut ws = set_with_labels(&["main"]);
    handle_launch(&mut ws, Vec::new());
    assert!(ws.windows[0].events.is_empty());
    handle_second_instance(&mut ws, Vec::new());
    assert!(ws.windows[0].events.is_empty());
}

#[test]
fn second_instance_with_url_emits_to_main_only() {
    let mut ws = set_with_labels(&["splash", "main", "settings"]);
    handle_second_instance(&mut ws, argv(&["app", "myapp://item/7", "ignored"]));
    assert!(ws.windows[0].events.is_empty());
    assert_eq!(ws.windows[1].events.len(), 1);
    assert_eq!(ws.windows[1].events[0].name, "deep-link");
    assert_eq!(ws.windows[1].events[0].payload, "myapp://item/7");
    assert!(ws.windows[2].events.is_empty());
}

#[test]
fn both_triggers_route_identically() {
    let mut first = set_with_labels(&["other", "main"]);
    let mut second = set_with_labels(&["other", "main"]);
    handle_launch(&mut first, argv(&["app", "myapp://same"]));
    handle_second_instance(&mut second, argv(&["app", "myapp://same"]));
    assert_eq!(first.windows.len(), second.windows.len());
    for (a, b) in first.windows.iter().zip(second.windows.iter()) {
        assert_eq!(a.label, b.label);
        assert_eq!(a.events.len(), b.events.len());
        for (ea, eb) in a.events.iter().zip(b.events.iter()) {
            assert_eq!(ea.name, eb.name);
            assert_eq!(ea.payload, eb.payload);
        }
    }
}

#[test]
fn delivery_without_main_window_is_silently_dropped() {
    let mut empty = WindowSet::new();
    deliver(&mut empty, String::from("myapp://lost"));
    assert!(empty.windows.is_empty());

    let mut others = set_with_labels(&["settings", "about"]);
    deliver(&mut others, String::from("myapp://lost"));
    assert_eq!(others.windows.len(), 2);
    assert!(others.windows[0].events.is_empty());
    assert!(others.windows[1].events.is_empty());
}

#[test]
fn second_instance_with_url_but_no_main_window_changes_nothing() {
    let mut ws = set_with_labels(&["settings"]);
    handle_second_instance(&mut ws, argv(&["app", "myapp://foo"]));
    assert_eq!(ws.windows.len(), 1);
    assert!(ws.windows[0].events.is_empty());
}

#[test]
fn open_url_notification_emits_no_event() {
    let mut ws = set_with_labels(&["main"]);
    let urls = argv(&["myapp://from-os", "myapp://second"]);
    let logged = handle_open_url(&mut ws, urls);
    assert!(ws.windows[0].events.is_empty());
    assert_eq!(logged, argv(&["myapp://from-os", "myapp://second"]));
}

#[test]
fn deep_link_payload_is_second_argument_or_nothing() {
    assert_eq!(deep_link_payload(&Vec::new()), None);
    assert_eq!(deep_link_payload(&argv(&["app"])), None);
    assert_eq!(
        deep_link_payload(&argv(&["app", "myapp://foo"])),
        Some(&String::from("myapp://foo"))
    );
    assert_eq!(
        deep_link_payload(&argv(&["app", "myapp://a", "myapp://b"])),
        Some(&String::from("myapp://a"))
    );
}

#[test]
fn first_of_two_main_windows_receives_the_event() {
    let mut ws = set_with_labels(&["main", "main"]);
    handle_launch(&mut ws, argv(&["app", "myapp://foo"]));
    assert_eq!(ws.windows[0].events.len(), 1);
    assert!(ws.windows[1].events.is_empty());
}

#[test]
fn empty_url_argument_is_delivered_unchanged() {
    let mut ws = set_with_labels(&["main"]);
    handle_launch(&mut ws, argv(&["app", ""]));
    assert_eq!(ws.windows[0].events.len(), 1);
    assert_eq!(ws.windows[0].events[0].payload, "");
}

#[test]
fn repeated_deliveries_append_in_order() {
    let mut ws = set_with_labels(&["main"]);
    deliver(&mut ws, String::from("myapp://first"));
    deliver(&mut ws, String::from("myapp://second"));
    assert_eq!(ws.windows[0].events.len(), 2);
    assert_eq!(ws.windows[0].events[0].payload, "myapp://first");
    assert_eq!(ws.windows[0].events[1].payload, "myapp://second");
}
