//! Whole-flow scenarios: a registered listener fed synthetic events, the
//! handler fed synthetic clipboard outcomes, and the dispatches counted.

use clip_capture::handler::{handle_clipboard_reading, ClipboardOutcome, TriggerOutcome};
use clip_capture::shortcut::{
    default_capture_shortcut, Listener, ShortcutEvent, ShortcutState,
};

/// Feed one trigger through the filter and the handler; collect what would
/// be sent and whether focus would be requested.
fn run_trigger(
    listener: &Listener,
    event: ShortcutEvent,
    clipboard: ClipboardOutcome,
    surface_present: bool,
    sent: &mut Vec<String>,
    focus_requests: &mut usize,
) {
    if !listener.should_trigger(&event) {
        return;
    }
    if let TriggerOutcome::Dispatched { plan } = handle_clipboard_reading(
        clipboard,
        surface_present,
    ) {
        assert_eq!(plan.target, "main");
        assert_eq!(plan.message.event, "clipboard-text-captured");
        sent.push(plan.message.payload);
        if plan.request_focus {
            *focus_requests += 1;
        }
    }
}

#[test]
fn one_press_dispatches_the_snapshot_once_and_focuses_main() {
    let listener = Listener::new(default_capture_shortcut());
    let mut sent: Vec<String> = Vec::new();
    let mut focus_requests: usize = 0;
    let press = ShortcutEvent {
        shortcut: default_capture_shortcut(),
        state: ShortcutState::Pressed,
    };
    run_trigger(
        &listener,
        press,
        ClipboardOutcome::Text("Design Notes 42".to_string()),
        true,
        &mut sent,
        &mut focus_requests,
    );
    assert_eq!(sent, vec!["Design Notes 42".to_string()]);
    assert_eq!(focus_requests, 1);
}

#[test]
fn empty_clipboard_dispatches_nothing_and_never_focuses() {
    let listener = Listener::new(default_capture_shortcut());
    let mut sent: Vec<String> = Vec::new();
    let mut focus_requests: usize = 0;
    let press = ShortcutEvent {
        shortcut: default_capture_shortcut(),
        state: ShortcutState::Pressed,
    };
    run_trigger(
        &listener,
        press,
        ClipboardOutcome::Text("".to_string()),
        true,
        &mut sent,
        &mut focus_requests,
    );
    assert_eq!(sent, Vec::<String>::new());
    assert_eq!(focus_requests, 0);
}

#[test]
fn two_sequential_triggers_dispatch_independently_and_in_order() {
    let listener = Listener::new(default_capture_shortcut());
    let mut sent: Vec<String> = Vec::new();
    let mut focus_requests: usize = 0;
    let press = ShortcutEvent {
        shortcut: default_capture_shortcut(),
        state: ShortcutState::Pressed,
    };
    run_trigger(
        &listener,
        press,
        ClipboardOutcome::Text("first".to_string()),
        true,
        &mut sent,
        &mut focus_requests,
    );
    run_trigger(
        &listener,
        press,
        ClipboardOutcome::Text("second".to_string()),
        true,
        &mut sent,
        &mut focus_requests,
    );
    assert_eq!(sent, vec!["first".to_string(), "second".to_string()]);
    assert_eq!(focus_requests, 2);
}

#[test]
fn release_then_press_dispatches_only_once() {
    let listener = Listener::new(default_capture_shortcut());
    let mut sent: Vec<String> = Vec::new();
    let mut focus_requests: usize = 0;
    let release = ShortcutEvent {
        shortcut: default_capture_shortcut(),
        state: ShortcutState::Released,
    };
    let press = ShortcutEvent {
        shortcut: default_capture_shortcut(),
        state: ShortcutState::Pressed,
    };
    run_trigger(
        &listener,
        release,
        ClipboardOutcome::Text("ignored".to_string()),
        true,
        &mut sent,
        &mut focus_requests,
    );
    run_trigger(
        &listener,
        press,
        ClipboardOutcome::Text("kept".to_string()),
        true,
        &mut sent,
        &mut focus_requests,
    );
    assert_eq!(sent, vec!["kept".to_string()]);
    assert_eq!(focus_requests, 1);
}
