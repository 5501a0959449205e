use keyboard_listener_windows::event::{
    convert, plan_callback, CallbackStep, Event, HookError, HC_ACTION, WM_KEYDOWN, WM_KEYUP,
    WM_SYSKEYDOWN, WM_SYSKEYUP,
};
use keyboard_listener_windows::hook::HookManager;

const WM_CHAR: usize = 0x0102;

#[test]
fn four_message_kinds_are_classified() {
    assert_eq!(convert(WM_KEYDOWN as usize, 65), (Some("A"), true));
    assert_eq!(convert(WM_SYSKEYDOWN as usize, 65), (Some("A"), true));
    assert_eq!(convert(WM_KEYUP as usize, 65), (Some("A"), false));
    assert_eq!(convert(WM_SYSKEYUP as usize, 65), (Some("A"), false));
}

#[test]
fn other_messages_give_no_key() {
    assert_eq!(convert(WM_CHAR, 65), (None, false));
    assert_eq!(convert(0, 65), (None, false));
    assert_eq!(convert(WM_KEYDOWN as usize + (1usize << 32), 65), (None, false));
}

#[test]
fn convert_keeps_the_low_sixteen_bits() {
    assert_eq!(convert(WM_KEYDOWN as usize, 0x1_0041), (Some("A"), true));
    assert_eq!(convert(WM_KEYUP as usize, 9999), (Some("Unknown"), false));
}

#[test]
fn enter_key_down_gives_an_event() {
    let steps = plan_callback(HC_ACTION, WM_KEYDOWN as usize, 13, 1234);
    assert_eq!(
        steps,
        vec![
            CallbackStep::Deliver(Event { timestamp: 1234, is_key_down: true, key: "Enter" }),
            CallbackStep::CallNext,
        ]
    );
}

#[test]
fn press_then_release_gives_two_events_in_order() {
    let mut delivered = Vec::new();
    for (param, time) in [(WM_KEYDOWN as usize, 10u128), (WM_KEYUP as usize, 20u128)] {
        let steps = plan_callback(HC_ACTION, param, 65, time);
        assert_eq!(steps.last(), Some(&CallbackStep::CallNext));
        for step in steps {
            if let CallbackStep::Deliver(e) = step {
                delivered.push(e);
            }
        }
    }
    assert_eq!(delivered.len(), 2);
    assert_eq!(delivered[0], Event { timestamp: 10, is_key_down: true, key: "A" });
    assert_eq!(delivered[1], Event { timestamp: 20, is_key_down: false, key: "A" });
}

#[test]
fn non_action_invocation_only_chains() {
    assert_eq!(plan_callback(3, WM_KEYDOWN as usize, 13, 5), vec![CallbackStep::CallNext]);
    assert_eq!(plan_callback(-1, WM_KEYUP as usize, 13, 5), vec![CallbackStep::CallNext]);
}

#[test]
fn unknown_message_only_chains() {
    assert_eq!(plan_callback(HC_ACTION, WM_CHAR, 13, 5), vec![CallbackStep::CallNext]);
}

#[test]
fn unmapped_key_is_delivered_as_unknown() {
    let steps = plan_callback(HC_ACTION, WM_SYSKEYUP as usize, 9999, 7);
    assert_eq!(
        steps,
        vec![
            CallbackStep::Deliver(Event { timestamp: 7, is_key_down: false, key: "Unknown" }),
            CallbackStep::CallNext,
        ]
    );
}

#[test]
fn stop_before_start_is_a_no_op() {
    let mut m = HookManager::new();
    assert_eq!(m.uninstall(), None);
    assert_eq!(m.uninstall(), None);
    assert_eq!(m.installed_hook(), None);
    assert!(!m.has_handler());
}

#[test]
fn refused_install_reports_the_error_code() {
    let mut m = HookManager::new();
    m.set_handler();
    let r = m.record_install(0, 5);
    assert!(matches!(r, Err(HookError::Key(5))));
    assert_eq!(m.installed_hook(), None);
    assert!(m.has_handler());
}

#[test]
fn install_then_stop() {
    let mut m = HookManager::new();
    m.set_handler();
    assert!(matches!(m.record_install(0x1000, 0), Ok(None)));
    assert_eq!(m.installed_hook(), Some(0x1000));
    assert_eq!(m.uninstall(), Some(0x1000));
    assert_eq!(m.installed_hook(), None);
    assert!(!m.has_handler());
    assert_eq!(m.uninstall(), None);
}

#[test]
fn second_install_hands_back_the_first_handle() {
    let mut m = HookManager::new();
    m.set_handler();
    assert!(matches!(m.record_install(0x1000, 0), Ok(None)));
    assert!(matches!(m.record_install(0x2000, 0), Ok(Some(0x1000))));
    assert_eq!(m.installed_hook(), Some(0x2000));
}
