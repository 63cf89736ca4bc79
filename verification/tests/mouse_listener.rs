use typr::mouse_listener::{
    binding_for, btn_code, handle_event, handle_event_at, millis_u64, now_ms, MouseBinding, MouseButton,
    MouseConfig, MouseEventKind, MouseReaction, PTT_DEBOUNCE_MS,
};

fn press(n: u8) -> MouseEventKind {
    MouseEventKind::ButtonPress(MouseButton::Unknown(n))
}

fn release(n: u8) -> MouseEventKind {
    MouseEventKind::ButtonRelease(MouseButton::Unknown(n))
}

#[test]
fn new_config_has_bindings_and_no_hold() {
    let cfg = MouseConfig::new(Some(4), Some(5));
    assert_eq!(cfg.push_to_talk_btn, Some(4));
    assert_eq!(cfg.hands_free_btn, Some(5));
    assert_eq!(cfg.capturing, None);
    assert!(!cfg.is_push_to_talk_held());
}

#[test]
fn only_side_buttons_have_codes() {
    assert_eq!(btn_code(&MouseButton::Left), None);
    assert_eq!(btn_code(&MouseButton::Right), None);
    assert_eq!(btn_code(&MouseButton::Middle), None);
    assert_eq!(btn_code(&MouseButton::Unknown(4)), Some(4));
    assert_eq!(btn_code(&MouseButton::Unknown(255)), Some(255));
}

#[test]
fn primary_buttons_pass_through() {
    let mut cfg = MouseConfig::new(Some(4), Some(5));
    for ev in [
        MouseEventKind::ButtonPress(MouseButton::Left),
        MouseEventKind::ButtonRelease(MouseButton::Right),
        MouseEventKind::ButtonPress(MouseButton::Middle),
        MouseEventKind::Other,
    ] {
        let out = handle_event_at(&mut cfg, &ev, 1000);
        assert!(out.pass_through);
        assert!(matches!(out.reaction, MouseReaction::Nothing));
    }
    assert!(!cfg.is_push_to_talk_held());
}

#[test]
fn hold_and_release_starts_and_stops() {
    let mut cfg = MouseConfig::new(Some(4), None);
    let out = handle_event_at(&mut cfg, &press(4), 1000);
    assert!(!out.pass_through);
    assert!(matches!(out.reaction, MouseReaction::PushToTalkPressed));
    assert!(cfg.is_push_to_talk_held());
    let out = handle_event_at(&mut cfg, &release(4), 1000 + PTT_DEBOUNCE_MS);
    assert!(!out.pass_through);
    assert!(matches!(out.reaction, MouseReaction::PushToTalkReleased));
    assert!(!cfg.is_push_to_talk_held());
}

#[test]
fn phantom_release_is_ignored() {
    let mut cfg = MouseConfig::new(Some(4), None);
    handle_event_at(&mut cfg, &press(4), 1000);
    // 79 ms later: a phantom, recording continues.
    let out = handle_event_at(&mut cfg, &release(4), 1079);
    assert!(!out.pass_through);
    assert!(matches!(out.reaction, MouseReaction::Nothing));
    assert!(cfg.is_push_to_talk_held());
    // Measured from the phantom, 100 ms is enough.
    let out = handle_event_at(&mut cfg, &release(4), 1179);
    assert!(matches!(out.reaction, MouseReaction::PushToTalkReleased));
    assert!(!cfg.is_push_to_talk_held());
}

#[test]
fn release_after_phantom_measured_from_phantom() {
    let mut cfg = MouseConfig::new(Some(4), None);
    handle_event_at(&mut cfg, &press(4), 1000);
    handle_event_at(&mut cfg, &release(4), 1050);
    // 100 ms after the press but only 50 ms after the phantom.
    let out = handle_event_at(&mut cfg, &release(4), 1100);
    assert!(matches!(out.reaction, MouseReaction::Nothing));
    assert!(cfg.is_push_to_talk_held());
}

#[test]
fn clock_going_backwards_counts_as_phantom() {
    let mut cfg = MouseConfig::new(Some(4), None);
    handle_event_at(&mut cfg, &press(4), 5000);
    let out = handle_event_at(&mut cfg, &release(4), 100);
    assert!(matches!(out.reaction, MouseReaction::Nothing));
    assert!(cfg.is_push_to_talk_held());
}

#[test]
fn repeated_press_does_not_restart() {
    let mut cfg = MouseConfig::new(Some(4), None);
    handle_event_at(&mut cfg, &press(4), 1000);
    let out = handle_event_at(&mut cfg, &press(4), 1010);
    assert!(!out.pass_through);
    assert!(matches!(out.reaction, MouseReaction::Nothing));
    assert!(cfg.is_push_to_talk_held());
}

#[test]
fn release_without_press_is_swallowed() {
    let mut cfg = MouseConfig::new(Some(4), None);
    let out = handle_event_at(&mut cfg, &release(4), 1000);
    assert!(!out.pass_through);
    assert!(matches!(out.reaction, MouseReaction::Nothing));
}

#[test]
fn hands_free_press_toggles_and_release_swallowed() {
    let mut cfg = MouseConfig::new(Some(4), Some(5));
    let out = handle_event_at(&mut cfg, &press(5), 1000);
    assert!(!out.pass_through);
    assert!(matches!(out.reaction, MouseReaction::HandsFreePressed));
    let out = handle_event_at(&mut cfg, &release(5), 1200);
    assert!(!out.pass_through);
    assert!(matches!(out.reaction, MouseReaction::Nothing));
}

#[test]
fn push_to_talk_wins_when_both_bound_to_one_button() {
    let mut cfg = MouseConfig::new(Some(4), Some(4));
    let out = handle_event_at(&mut cfg, &press(4), 1000);
    assert!(matches!(out.reaction, MouseReaction::PushToTalkPressed));
}

#[test]
fn unbound_side_buttons_pass_through() {
    let mut cfg = MouseConfig::new(Some(4), Some(5));
    let out = handle_event_at(&mut cfg, &press(6), 1000);
    assert!(out.pass_through);
    assert!(matches!(out.reaction, MouseReaction::Nothing));
    let out = handle_event_at(&mut cfg, &release(6), 1100);
    assert!(out.pass_through);
}

#[test]
fn capture_binds_next_side_press() {
    let mut cfg = MouseConfig::new(None, None);
    cfg.start_capture("push-to-talk".to_string());
    // Left clicks are not captured.
    let out = handle_event_at(&mut cfg, &MouseEventKind::ButtonPress(MouseButton::Left), 10);
    assert!(out.pass_through);
    assert_eq!(cfg.capturing, Some("push-to-talk".to_string()));
    let out = handle_event_at(&mut cfg, &press(7), 20);
    assert!(!out.pass_through);
    match out.reaction {
        MouseReaction::Captured(action, code) => {
            assert_eq!(action, "push-to-talk");
            assert_eq!(code, 7);
        }
        _ => panic!("expected a capture"),
    }
    assert_eq!(cfg.capturing, None);
    assert_eq!(cfg.push_to_talk_btn, Some(7));
    assert_eq!(cfg.hands_free_btn, None);
    // The captured click did not start recording.
    assert!(!cfg.is_push_to_talk_held());
}

#[test]
fn capture_hands_free_and_unknown_action() {
    let mut cfg = MouseConfig::new(Some(4), None);
    cfg.start_capture("hands-free".to_string());
    handle_event_at(&mut cfg, &press(4), 20);
    assert_eq!(cfg.hands_free_btn, Some(4));
    assert_eq!(cfg.push_to_talk_btn, Some(4));
    cfg.start_capture("something-else".to_string());
    let out = handle_event_at(&mut cfg, &press(9), 30);
    assert!(!out.pass_through);
    assert!(matches!(out.reaction, MouseReaction::Captured(ref a, 9) if a == "something-else"));
    assert_eq!(cfg.push_to_talk_btn, Some(4));
    assert_eq!(cfg.hands_free_btn, Some(4));
    assert_eq!(cfg.capturing, None);
}

#[test]
fn clearing_bindings() {
    let mut cfg = MouseConfig::new(Some(4), Some(5));
    cfg.clear_shortcut("hands-free");
    assert_eq!(cfg.push_to_talk_btn, Some(4));
    assert_eq!(cfg.hands_free_btn, None);
    cfg.clear_shortcut("nonsense");
    assert_eq!(cfg.push_to_talk_btn, Some(4));
    cfg.clear_shortcut("push-to-talk");
    assert_eq!(cfg.push_to_talk_btn, None);
    // A cleared button passes through again.
    let out = handle_event_at(&mut cfg, &press(4), 1);
    assert!(out.pass_through);
}

#[test]
fn action_names() {
    assert_eq!(binding_for("push-to-talk"), Some(MouseBinding::PushToTalk));
    assert_eq!(binding_for("hands-free"), Some(MouseBinding::HandsFree));
    assert_eq!(binding_for("Push-To-Talk"), None);
    assert_eq!(binding_for(""), None);
}

#[test]
fn clock_reads_milliseconds_since_epoch() {
    let t = now_ms();
    // Later than 2020-09-13 and earlier than the year 2200.
    assert!(t > 1_600_000_000_000);
    assert!(t < 7_258_118_400_000);
    assert!(now_ms() >= t);
}

#[test]
fn live_clock_press_then_release_is_phantom() {
    let mut cfg = MouseConfig::new(Some(4), None);
    let out = handle_event(&mut cfg, &press(4));
    assert!(matches!(out.reaction, MouseReaction::PushToTalkPressed));
    // Released at once: well under the debounce window.
    let out = handle_event(&mut cfg, &release(4));
    assert!(matches!(out.reaction, MouseReaction::Nothing));
    assert!(cfg.is_push_to_talk_held());
}

#[test]
fn millisecond_counts_to_u64() {
    assert_eq!(millis_u64(None), 0);
    assert_eq!(millis_u64(Some(1_700_000_000_123)), 1_700_000_000_123);
    assert_eq!(millis_u64(Some(u64::MAX as u128)), u64::MAX);
    assert_eq!(millis_u64(Some((1u128 << 64) + 5)), 5);
}

#[test]
fn push_to_talk_alternates_over_a_run() {
    let mut cfg = MouseConfig::new(Some(4), Some(5));
    let events = [
        (press(4), 0u64),
        (release(4), 10),
        (press(4), 20),
        (release(4), 200),
        (release(4), 300),
        (press(5), 310),
        (press(4), 400),
        (press(4), 410),
        (release(4), 600),
    ];
    let mut presses = 0;
    let mut releases = 0;
    for (ev, t) in events.iter() {
        match handle_event_at(&mut cfg, ev, *t).reaction {
            MouseReaction::PushToTalkPressed => {
                assert_eq!(presses, releases);
                presses += 1;
            }
            MouseReaction::PushToTalkReleased => {
                assert_eq!(presses, releases + 1);
                releases += 1;
            }
            _ => {}
        }
    }
    assert_eq!((presses, releases), (2, 2));
}
