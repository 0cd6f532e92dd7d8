use pointer::events::{
    process_key, process_view_key, tap_verdict, KeyOutcome, TapVerdict, CGE_KEY_DOWN, CGE_KEY_UP,
    CGE_LEFT_MOUSE_DOWN, CGE_TAP_DISABLED_BY_TIMEOUT, CGE_TAP_DISABLED_BY_USER_INPUT,
    NX_COMMAND_MASK, NX_SHIFT_MASK, VK_ANSI_P, VK_DELETE, VK_ESCAPE, VK_KP_ENTER, VK_RETURN,
};

#[test]
fn typing_appends_printable_characters() {
    let mut t = String::from("ab");
    assert!(matches!(process_key(&mut t, 0, "c\u{7f}d\u{1}é"), KeyOutcome::Redisplay));
    assert_eq!(t, "abcdé");
    assert!(matches!(process_key(&mut t, 0, "\u{1b}"), KeyOutcome::Ignore));
    assert_eq!(t, "abcdé");
}

#[test]
fn delete_removes_last_character() {
    let mut t = String::from("hé");
    assert!(matches!(process_key(&mut t, VK_DELETE, ""), KeyOutcome::Redisplay));
    assert_eq!(t, "h");
    process_key(&mut t, VK_DELETE, "");
    assert_eq!(t, "");
    assert!(matches!(process_key(&mut t, VK_DELETE, ""), KeyOutcome::Redisplay));
    assert_eq!(t, "");
}

#[test]
fn typing_then_delete_restores() {
    let mut t = String::from("goal");
    process_key(&mut t, 0, "x");
    process_key(&mut t, VK_DELETE, "");
    assert_eq!(t, "goal");
}

#[test]
fn return_enter_escape() {
    let mut t = String::from("q");
    assert!(matches!(process_key(&mut t, VK_RETURN, "\r"), KeyOutcome::Submit));
    assert!(matches!(process_key(&mut t, VK_KP_ENTER, "\u{3}"), KeyOutcome::Submit));
    assert!(matches!(process_key(&mut t, VK_ESCAPE, "\u{1b}"), KeyOutcome::Dismiss));
    assert_eq!(t, "q");
}

#[test]
fn command_keys_in_the_prompt_view() {
    let mut t = String::from("q");
    assert!(matches!(process_view_key(&mut t, 8, true, "c"), KeyOutcome::Ignore));
    assert_eq!(t, "q");
    assert!(matches!(process_view_key(&mut t, VK_DELETE, true, ""), KeyOutcome::Redisplay));
    assert_eq!(t, "");
    assert!(matches!(process_view_key(&mut t, 8, false, "c"), KeyOutcome::Redisplay));
    assert_eq!(t, "c");
}

#[test]
fn tap_reenables_after_timeout() {
    assert!(matches!(tap_verdict(CGE_TAP_DISABLED_BY_TIMEOUT, 0, 0, 0, false, false, false), TapVerdict::Reenable));
    assert!(matches!(tap_verdict(CGE_TAP_DISABLED_BY_USER_INPUT, 0, 0, 3, false, false, false), TapVerdict::Reenable));
}

#[test]
fn tap_clicks_near_target_advance() {
    assert!(matches!(tap_verdict(CGE_LEFT_MOUSE_DOWN, 0, 0, 4, false, true, true), TapVerdict::AdvanceStep));
    assert!(matches!(tap_verdict(CGE_LEFT_MOUSE_DOWN, 0, 0, 4, false, true, false), TapVerdict::PassThrough));
    assert!(matches!(tap_verdict(CGE_LEFT_MOUSE_DOWN, 0, 0, 4, false, false, true), TapVerdict::PassThrough));
    assert!(matches!(tap_verdict(CGE_LEFT_MOUSE_DOWN, 0, 0, 3, false, true, true), TapVerdict::PassThrough));
}

#[test]
fn tap_toggle_shortcut() {
    let flags = NX_COMMAND_MASK | NX_SHIFT_MASK;
    for state in 0..=5u8 {
        assert!(matches!(tap_verdict(CGE_KEY_DOWN, VK_ANSI_P, flags, state, false, false, false), TapVerdict::Toggle));
    }
    assert!(matches!(tap_verdict(CGE_KEY_DOWN, VK_ANSI_P, NX_COMMAND_MASK, 0, false, false, false), TapVerdict::PassThrough));
}

#[test]
fn tap_forwards_typing_in_input() {
    assert!(matches!(tap_verdict(CGE_KEY_DOWN, 0, 0, 2, false, false, false), TapVerdict::ForwardKey));
    assert!(matches!(tap_verdict(CGE_KEY_UP, 0, 0, 2, false, false, false), TapVerdict::Consume));
    assert!(matches!(tap_verdict(CGE_KEY_DOWN, 0, 0, 2, true, false, false), TapVerdict::PassThrough));
    assert!(matches!(tap_verdict(CGE_KEY_DOWN, 8, NX_COMMAND_MASK, 2, false, false, false), TapVerdict::PassThrough));
    assert!(matches!(tap_verdict(CGE_KEY_DOWN, VK_ESCAPE, 0, 2, false, false, false), TapVerdict::ForwardKey));
}

#[test]
fn tap_escape_hides_when_shown() {
    for state in [1u8, 3, 4, 5] {
        assert!(matches!(tap_verdict(CGE_KEY_DOWN, VK_ESCAPE, 0, state, false, false, false), TapVerdict::Hide));
    }
    assert!(matches!(tap_verdict(CGE_KEY_DOWN, VK_ESCAPE, 0, 0, false, false, false), TapVerdict::PassThrough));
    assert!(matches!(tap_verdict(CGE_KEY_UP, VK_ESCAPE, 0, 3, false, false, false), TapVerdict::PassThrough));
}

#[test]
fn hidden_tap_passes_everything_but_toggle() {
    for ev in [CGE_KEY_DOWN, CGE_KEY_UP, CGE_LEFT_MOUSE_DOWN, 22] {
        for kc in [0u16, VK_ESCAPE, VK_RETURN] {
            let v = tap_verdict(ev, kc, 0, 0, false, true, true);
            assert!(matches!(v, TapVerdict::PassThrough), "{ev} {kc}");
        }
    }
}
