use launch_router::router::should_register_scheme;
use launch_router::router::Os;

#[test]
fn linux_registers_only_in_debug_builds() {
    assert!(should_register_scheme(Os::Linux, true));
    assert!(!should_register_scheme(Os::Linux, false));
}

#[test]
fn windows_registers_only_in_debug_builds() {
    assert!(should_register_scheme(Os::Windows, true));
    assert!(!should_register_scheme(Os::Windows, false));
}

#[test]
fn other_systems_never_register() {
    assert!(!should_register_scheme(Os::MacOs, true));
    assert!(!should_register_scheme(Os::MacOs, false));
    assert!(!should_register_scheme(Os::Other, true));
    assert!(!should_register_scheme(Os::Other, false));
}
