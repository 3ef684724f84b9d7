use nekops::channel::NotificationChannel;
use nekops::commands::greet;
use nekops::config::{
    is_main_window, MAIN_WINDOW_HEIGHT, MAIN_WINDOW_LABEL, MAIN_WINDOW_TITLE, MAIN_WINDOW_WIDTH,
    ROOT_RESOURCE,
};
use nekops::launch::LaunchEvent;
use nekops::process::{exit_code, is_reported, Termination, EXIT_FAILURE, EXIT_SUCCESS};
use nekops::text::same_text;

fn event(tag: &str) -> LaunchEvent {
    LaunchEvent::new(vec!["app".to_string(), tag.to_string()], format!("/home/{}", tag))
}

#[test]
fn greeting_has_the_fixed_format() {
    assert_eq!(greet("World"), "Hello, World! You've been greeted from Rust!");
}

#[test]
fn greeting_accepts_the_empty_name() {
    assert_eq!(greet(""), "Hello, ! You've been greeted from Rust!");
}

#[test]
fn greeting_keeps_the_name_as_it_is() {
    assert_eq!(greet("  J\u{fc}rgen {} "), "Hello,   J\u{fc}rgen {} ! You've been greeted from Rust!");
}

#[test]
fn same_text_compares_whole_strings() {
    assert!(same_text("", ""));
    assert!(same_text("main", "main"));
    assert!(!same_text("main", "mai"));
    assert!(!same_text("mai", "main"));
    assert!(!same_text("main", "maim"));
    assert!(!same_text("main", "Main"));
    assert!(!same_text("", "main"));
    assert!(same_text("fen\u{ea}tre", "fen\u{ea}tre"));
    assert!(!same_text("fen\u{ea}tre", "fen\u{e8}tre"));
}

#[test]
fn only_the_main_label_names_the_main_window() {
    assert!(is_main_window("main"));
    assert!(is_main_window(MAIN_WINDOW_LABEL));
    assert!(!is_main_window("Main"));
    assert!(!is_main_window("main2"));
    assert!(!is_main_window(""));
}

#[test]
fn constants_of_the_main_window() {
    assert_eq!(MAIN_WINDOW_LABEL, "main");
    assert_eq!(MAIN_WINDOW_TITLE, "Nekops");
    assert_eq!(MAIN_WINDOW_WIDTH, 1200);
    assert_eq!(MAIN_WINDOW_HEIGHT, 800);
    assert_eq!(ROOT_RESOURCE, "index.html");
}

#[test]
fn channel_hands_events_out_in_the_order_received() {
    let mut channel = NotificationChannel::new();
    assert_eq!(channel.len(), 0);
    channel.send(event("a"));
    channel.send(event("b"));
    channel.send(event("c"));
    assert_eq!(channel.len(), 3);
    assert_eq!(channel.receive(), Some(event("a")));
    assert_eq!(channel.receive(), Some(event("b")));
    channel.send(event("d"));
    assert_eq!(channel.receive(), Some(event("c")));
    assert_eq!(channel.receive(), Some(event("d")));
    assert_eq!(channel.len(), 0);
}

#[test]
fn channel_hands_each_event_out_once() {
    let mut channel = NotificationChannel::new();
    channel.send(event("a"));
    assert_eq!(channel.receive(), Some(event("a")));
    assert_eq!(channel.receive(), None);
    assert_eq!(channel.receive(), None);
    assert_eq!(channel.len(), 0);
}

#[test]
fn empty_channel_has_nothing_to_receive() {
    let mut channel = NotificationChannel::new();
    assert_eq!(channel.receive(), None);
}

#[test]
fn exit_codes() {
    assert_eq!(EXIT_SUCCESS, 0);
    assert_ne!(EXIT_FAILURE, 0);
    assert_eq!(exit_code(Termination::WindowsClosed), 0);
    assert_eq!(exit_code(Termination::Forwarded { delivered: true }), 0);
    assert_eq!(exit_code(Termination::Forwarded { delivered: false }), 0);
    assert_eq!(exit_code(Termination::Aborted), 1);
}

#[test]
fn failures_are_reported() {
    assert!(!is_reported(Termination::WindowsClosed));
    assert!(!is_reported(Termination::Forwarded { delivered: true }));
    assert!(is_reported(Termination::Forwarded { delivered: false }));
    assert!(is_reported(Termination::Aborted));
}
