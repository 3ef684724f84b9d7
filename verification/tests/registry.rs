use nekops::registry::WindowRegistry;
use nekops::window::{WindowHandle, WindowStatus};

const NORMAL: WindowStatus = WindowStatus { focused: false, minimized: false };
const FOCUSED: WindowStatus = WindowStatus { focused: true, minimized: false };
const MINIMIZED: WindowStatus = WindowStatus { focused: false, minimized: true };

#[test]
fn new_registry_is_empty() {
    let registry = WindowRegistry::new();
    assert_eq!(registry.count(), 0);
    assert!(registry.find("main").is_none());
    assert!(registry.find("").is_none());
}

#[test]
fn opened_window_is_found_with_its_status() {
    let mut registry = WindowRegistry::new();
    assert!(registry.open("main".to_string(), FOCUSED));
    assert_eq!(registry.count(), 1);
    let handle = registry.find("main").expect("main is open");
    assert_eq!(handle.label(), "main");
    assert!(handle.is_focused());
    assert!(!handle.is_minimized());
    assert_eq!(handle, &WindowHandle::new("main".to_string(), true, false));
}

#[test]
fn absent_window_is_not_found() {
    let mut registry = WindowRegistry::new();
    registry.open("main".to_string(), NORMAL);
    assert!(registry.find("mai").is_none());
    assert!(registry.find("main ").is_none());
    assert!(registry.find("Main").is_none());
    assert!(registry.find("settings").is_none());
}

#[test]
fn label_is_unique_among_open_windows() {
    let mut registry = WindowRegistry::new();
    assert!(registry.open("main".to_string(), FOCUSED));
    assert!(!registry.open("main".to_string(), MINIMIZED));
    assert_eq!(registry.count(), 1);
    assert_eq!(registry.find("main").map(|h| h.status), Some(FOCUSED));
}

#[test]
fn count_follows_open_and_close() {
    let mut registry = WindowRegistry::new();
    registry.open("main".to_string(), NORMAL);
    registry.open("settings".to_string(), NORMAL);
    registry.open("about".to_string(), NORMAL);
    assert_eq!(registry.count(), 3);
    assert!(registry.close("settings"));
    assert_eq!(registry.count(), 2);
    assert!(registry.find("settings").is_none());
    assert!(registry.find("main").is_some());
    assert!(registry.find("about").is_some());
    assert!(!registry.close("settings"));
    assert_eq!(registry.count(), 2);
}

#[test]
fn closed_label_can_be_opened_again() {
    let mut registry = WindowRegistry::new();
    registry.open("main".to_string(), MINIMIZED);
    registry.close("main");
    assert!(registry.open("main".to_string(), FOCUSED));
    assert_eq!(registry.find("main").map(|h| h.status), Some(FOCUSED));
}

#[test]
fn set_status_changes_only_the_named_window() {
    let mut registry = WindowRegistry::new();
    registry.open("main".to_string(), FOCUSED);
    registry.open("settings".to_string(), NORMAL);
    assert!(registry.set_status("main", MINIMIZED));
    assert_eq!(registry.find("main").map(|h| h.status), Some(MINIMIZED));
    assert_eq!(registry.find("settings").map(|h| h.status), Some(NORMAL));
    assert_eq!(registry.count(), 2);
}

#[test]
fn set_status_of_absent_window_changes_nothing() {
    let mut registry = WindowRegistry::new();
    registry.open("main".to_string(), FOCUSED);
    assert!(!registry.set_status("settings", MINIMIZED));
    assert_eq!(registry.count(), 1);
    assert_eq!(registry.find("main").map(|h| h.status), Some(FOCUSED));
    assert!(registry.find("settings").is_none());
}

#[test]
fn labels_that_differ_beyond_ascii_are_kept_apart() {
    let mut registry = WindowRegistry::new();
    assert!(registry.open("fen\u{ea}tre".to_string(), NORMAL));
    assert!(registry.open("fen\u{e8}tre".to_string(), FOCUSED));
    assert_eq!(registry.count(), 2);
    assert_eq!(registry.find("fen\u{ea}tre").map(|h| h.status), Some(NORMAL));
    assert_eq!(registry.find("fen\u{e8}tre").map(|h| h.status), Some(FOCUSED));
    assert!(registry.find("fenetre").is_none());
}
