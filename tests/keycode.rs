use keyboard_listener_windows::keycode::{code_from_key, key_from_code};
use std::collections::HashSet;

#[test]
fn test_reversible() {
    for code in 0..65535 {
        let key = key_from_code(code);
        if let Some(code2) = code_from_key(key) {
            assert_eq!(code, code2)
        } else {
            assert_eq!(key, "Unknown");
        }
    }
}

#[test]
fn letter_a_both_ways() {
    assert_eq!(key_from_code(65), "A");
    assert_eq!(code_from_key("A"), Some(65));
}

#[test]
fn unmapped_code_is_unknown() {
    assert_eq!(key_from_code(9999), "Unknown");
    assert_eq!(code_from_key("Unknown"), None);
}

#[test]
fn largest_code_is_unknown() {
    assert_eq!(key_from_code(u16::MAX), "Unknown");
    assert_eq!(key_from_code(0), "Unknown");
}

#[test]
fn names_outside_the_table_have_no_code() {
    assert_eq!(code_from_key(""), None);
    assert_eq!(code_from_key("a"), None);
    assert_eq!(code_from_key("KeyA"), None);
    assert_eq!(code_from_key("L_Alt "), None);
}

#[test]
fn sample_entries() {
    assert_eq!(key_from_code(0x08), "Backspace");
    assert_eq!(key_from_code(0x0D), "Enter");
    assert_eq!(key_from_code(162), "L_Control");
    assert_eq!(key_from_code(163), "R_Control");
    assert_eq!(key_from_code(123), "F12");
    assert_eq!(key_from_code(48), "Num0");
    assert_eq!(key_from_code(110), "KeyPadDelete");
    assert_eq!(code_from_key("Tab"), Some(0x09));
    assert_eq!(code_from_key("IntlBackslash"), Some(226));
    assert_eq!(code_from_key("Space"), Some(32));
}

#[test]
fn names_and_codes_are_unique() {
    let mut names = HashSet::new();
    let mut count = 0;
    for code in 0..=u16::MAX {
        let key = key_from_code(code);
        if key != "Unknown" {
            count += 1;
            names.insert(key);
            assert_eq!(code_from_key(key), Some(code));
        }
    }
    assert_eq!(count, 102);
    assert_eq!(names.len(), count);
}
