use lexicog::shortcut::dispatch_shortcut;
use lexicog::shortcut::{try_handle_shortcut, HandlerLookup, ShortcutDecision, ShortcutFault};
use lexicog::tray::{close_request_action, menu_action, CloseAction, MenuAction};

#[test]
fn matching_handler_is_invoked() {
    let d = try_handle_shortcut(HandlerLookup::Loaded { hotkey_matches: true });
    assert!(matches!(d, ShortcutDecision::Invoke));
    assert!(d.handled());
}

#[test]
fn other_handler_passes() {
    let d = try_handle_shortcut(HandlerLookup::Loaded { hotkey_matches: false });
    assert!(matches!(d, ShortcutDecision::Pass));
    assert!(!d.handled());
}

#[test]
fn unavailable_handler_is_a_fault() {
    let d = try_handle_shortcut(HandlerLookup::Missing);
    assert!(matches!(d, ShortcutDecision::Fault(ShortcutFault::MissingState)));
    assert!(!d.handled());
    match try_handle_shortcut(HandlerLookup::LockPoisoned("poisoned".to_string())) {
        ShortcutDecision::Fault(ShortcutFault::LockPoisoned(m)) => assert_eq!(m, "poisoned"),
        _ => panic!("expected a fault"),
    }
}

#[test]
fn tray_menu_routing() {
    assert_eq!(menu_action(&"quit".to_string()), MenuAction::Quit);
    assert_eq!(menu_action(&"show".to_string()), MenuAction::ShowMainWindow);
    assert_eq!(menu_action(&"settings".to_string()), MenuAction::Unhandled);
    assert_eq!(menu_action(&"Quit".to_string()), MenuAction::Unhandled);
}

#[test]
fn only_main_window_is_hidden_on_close() {
    assert_eq!(close_request_action(&"main".to_string()), CloseAction::HideInstead);
    assert_eq!(close_request_action(&"popup".to_string()), CloseAction::Allow);
}

#[test]
fn first_owning_handler_is_chosen() {
    let lookups = vec![
        HandlerLookup::Missing,
        HandlerLookup::Loaded { hotkey_matches: false },
        HandlerLookup::Loaded { hotkey_matches: true },
        HandlerLookup::Loaded { hotkey_matches: true },
    ];
    assert_eq!(dispatch_shortcut(&lookups), Some(2));
}

#[test]
fn no_handler_owns_shortcut() {
    let lookups = vec![
        HandlerLookup::LockPoisoned("p".to_string()),
        HandlerLookup::Loaded { hotkey_matches: false },
    ];
    assert_eq!(dispatch_shortcut(&lookups), None);
    assert_eq!(dispatch_shortcut(&Vec::new()), None);
}
