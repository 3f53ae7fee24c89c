use input_bridge::{
    key_press, key_release, mouse_move, start_listening, wheel, Action, Bridge, Button,
    CaptureTime, ConversionError, Coord, EventKind, Key, NativeEvent, NativeKind, NormalizedEvent,
    Phase, Signal, StopCause,
};

const ALL_KEYS: [Key; 105] = [
    Key::Alt, Key::AltGr, Key::Backspace, Key::CapsLock, Key::ControlLeft, Key::ControlRight,
    Key::Delete, Key::DownArrow, Key::End, Key::Escape, Key::F1, Key::F10, Key::F11, Key::F12,
    Key::F2, Key::F3, Key::F4, Key::F5, Key::F6, Key::F7, Key::F8, Key::F9, Key::Home,
    Key::LeftArrow, Key::MetaLeft, Key::MetaRight, Key::PageDown, Key::PageUp, Key::Return,
    Key::RightArrow, Key::ShiftLeft, Key::ShiftRight, Key::Space, Key::Tab, Key::UpArrow,
    Key::PrintScreen, Key::ScrollLock, Key::Pause, Key::NumLock, Key::BackQuote, Key::Num1,
    Key::Num2, Key::Num3, Key::Num4, Key::Num5, Key::Num6, Key::Num7, Key::Num8, Key::Num9,
    Key::Num0, Key::Minus, Key::Equal, Key::KeyQ, Key::KeyW, Key::KeyE, Key::KeyR, Key::KeyT,
    Key::KeyY, Key::KeyU, Key::KeyI, Key::KeyO, Key::KeyP, Key::LeftBracket, Key::RightBracket,
    Key::KeyA, Key::KeyS, Key::KeyD, Key::KeyF, Key::KeyG, Key::KeyH, Key::KeyJ, Key::KeyK,
    Key::KeyL, Key::SemiColon, Key::Quote, Key::BackSlash, Key::IntlBackslash, Key::KeyZ,
    Key::KeyX, Key::KeyC, Key::KeyV, Key::KeyB, Key::KeyN, Key::KeyM, Key::Comma, Key::Dot,
    Key::Slash, Key::Insert, Key::KpReturn, Key::KpMinus, Key::KpPlus, Key::KpMultiply,
    Key::KpDivide, Key::Kp0, Key::Kp1, Key::Kp2, Key::Kp3, Key::Kp4, Key::Kp5, Key::Kp6,
    Key::Kp7, Key::Kp8, Key::Kp9, Key::KpDelete, Key::Function,
];

/// What the platform layer reports when it captures `kind` at `millis`.
fn captured(kind: EventKind, millis: u64, name: Option<&str>) -> NativeEvent {
    let kind = match kind {
        EventKind::KeyPress { key } => NativeKind::KeyDown(key.name().to_string()),
        EventKind::KeyRelease { key } => NativeKind::KeyUp(key.name().to_string()),
        EventKind::ButtonPress { button } => NativeKind::ButtonDown(button.name().to_string()),
        EventKind::ButtonRelease { button } => NativeKind::ButtonUp(button.name().to_string()),
        EventKind::MouseMove { x, y } => NativeKind::PointerMove { x, y },
        EventKind::Wheel { delta_x, delta_y } => NativeKind::Scroll { delta_x, delta_y },
    };
    NativeEvent {
        time: CaptureTime::SinceEpoch {
            secs: millis / 1000,
            nanos: (millis % 1000) as u32 * 1_000_000,
        },
        name: name.map(|n| n.to_string()),
        kind,
    }
}

fn listening() -> Bridge {
    let mut bridge = Bridge::new();
    assert!(start_listening(&mut bridge));
    bridge
}

/// Feeds the captures to the bridge and collects what it delivers.
fn deliveries(bridge: &mut Bridge, events: Vec<NativeEvent>) -> Vec<NormalizedEvent> {
    let mut out = Vec::new();
    for ev in events {
        if let Action::Deliver(n) = bridge.step(Signal::Captured(ev)) {
            out.push(n);
        }
    }
    out
}

#[test]
fn a_new_bridge_is_idle() {
    assert_eq!(Bridge::new().phase(), Phase::Idle);
}

#[test]
fn the_first_start_spawns_the_listener() {
    let mut bridge = Bridge::new();
    assert!(start_listening(&mut bridge));
    assert_eq!(bridge.phase(), Phase::Listening);
}

#[test]
fn a_second_start_is_refused() {
    let mut bridge = Bridge::new();
    assert!(start_listening(&mut bridge));
    assert!(!start_listening(&mut bridge));
    assert_eq!(bridge.phase(), Phase::Listening);
    assert_eq!(bridge.step(Signal::Start), Action::Refuse);
    assert_eq!(bridge.phase(), Phase::Listening);
}

#[test]
fn start_as_a_signal_spawns_once() {
    let mut bridge = Bridge::new();
    assert_eq!(bridge.step(Signal::Start), Action::Spawn);
    assert_eq!(bridge.step(Signal::Start), Action::Refuse);
}

#[test]
fn the_listener_is_spawned_at_most_once_whatever_arrives() {
    let mut bridge = Bridge::new();
    let mut spawned = 0;
    for round in 0..3 {
        for signal in [
            Signal::Stop,
            Signal::Start,
            Signal::Captured(captured(wheel(0, round), 1, None)),
            Signal::Start,
            Signal::DeliveryFailed,
            Signal::Start,
            Signal::HookFailed,
            Signal::Start,
        ] {
            if bridge.step(signal) == Action::Spawn {
                spawned += 1;
            }
        }
    }
    assert_eq!(spawned, 1);
    assert_eq!(bridge.phase(), Phase::Stopped(StopCause::DeliveryFailure));
}

#[test]
fn an_idle_bridge_ignores_everything_but_a_start() {
    let mut bridge = Bridge::new();
    assert_eq!(bridge.step(Signal::HookFailed), Action::Ignore);
    assert_eq!(bridge.step(Signal::DeliveryFailed), Action::Ignore);
    assert_eq!(bridge.step(Signal::Stop), Action::Ignore);
    assert_eq!(bridge.step(Signal::Captured(captured(wheel(0, 1), 1, None))), Action::Ignore);
    assert_eq!(bridge.phase(), Phase::Idle);
    assert!(start_listening(&mut bridge));
}

#[test]
fn a_failed_registration_ends_the_listener_for_good() {
    let mut bridge = listening();
    assert_eq!(
        bridge.step(Signal::HookFailed),
        Action::Terminate(StopCause::HookRegistrationFailure)
    );
    assert_eq!(bridge.phase(), Phase::Stopped(StopCause::HookRegistrationFailure));
    assert!(!start_listening(&mut bridge));
    assert_eq!(bridge.step(Signal::Captured(captured(wheel(0, 1), 1, None))), Action::Ignore);
    assert_eq!(bridge.step(Signal::HookFailed), Action::Ignore);
    assert_eq!(bridge.phase(), Phase::Stopped(StopCause::HookRegistrationFailure));
}

#[test]
fn a_failed_delivery_ends_the_listener() {
    let mut bridge = listening();
    let first = bridge.step(Signal::Captured(captured(wheel(0, 1), 1, None)));
    assert!(matches!(first, Action::Deliver(_)));
    assert_eq!(bridge.step(Signal::DeliveryFailed), Action::Terminate(StopCause::DeliveryFailure));
    assert_eq!(bridge.phase(), Phase::Stopped(StopCause::DeliveryFailure));
    assert_eq!(bridge.step(Signal::Captured(captured(wheel(0, 2), 2, None))), Action::Ignore);
    assert_eq!(bridge.step(Signal::DeliveryFailed), Action::Ignore);
}

#[test]
fn a_stop_prevents_further_delivery() {
    let mut bridge = listening();
    assert_eq!(bridge.step(Signal::Stop), Action::Terminate(StopCause::Requested));
    assert_eq!(bridge.phase(), Phase::Stopped(StopCause::Requested));
    assert_eq!(bridge.step(Signal::Captured(captured(wheel(0, 2), 2, None))), Action::Ignore);
    assert_eq!(bridge.step(Signal::Stop), Action::Ignore);
    assert!(!start_listening(&mut bridge));
}

#[test]
fn only_a_failed_registration_is_reported() {
    assert_eq!(StopCause::HookRegistrationFailure.diagnostic(), Some("Error listening to events"));
    assert_eq!(StopCause::DeliveryFailure.diagnostic(), None);
    assert_eq!(StopCause::Requested.diagnostic(), None);
}

#[test]
fn a_pointer_move_is_delivered_once_as_it_was_injected() {
    let mut bridge = listening();
    let x = Coord { bits: 100.0f64.to_bits() };
    let request = mouse_move(x, x);
    let got = deliveries(&mut bridge, vec![captured(request, 1_700_000_000_123, None)]);
    assert_eq!(got.len(), 1);
    assert_eq!(got[0].timestamp(), 1_700_000_000_123);
    assert_eq!(got[0].textual_name(), None);
    match got[0].kind() {
        EventKind::MouseMove { x, y } => {
            assert_eq!(f64::from_bits(x.bits), 100.0);
            assert_eq!(f64::from_bits(y.bits), 100.0);
        }
        other => panic!("not a move: {other:?}"),
    }
}

#[test]
fn a_key_press_and_release_are_delivered_in_that_order() {
    let mut bridge = listening();
    let got = deliveries(
        &mut bridge,
        vec![
            captured(key_press(Key::KeyA), 1000, Some("a")),
            captured(key_release(Key::KeyA), 1040, None),
        ],
    );
    assert_eq!(got.len(), 2);
    assert_eq!(got[0].kind(), EventKind::KeyPress { key: Key::KeyA });
    assert_eq!(got[0].textual_name(), Some("a"));
    assert_eq!(got[0].timestamp(), 1000);
    assert_eq!(got[1].kind(), EventKind::KeyRelease { key: Key::KeyA });
    assert_eq!(got[1].textual_name(), None);
    assert_eq!(got[1].timestamp(), 1040);
}

#[test]
fn a_scroll_down_is_delivered_as_a_scroll_down() {
    let mut bridge = listening();
    let got = deliveries(&mut bridge, vec![captured(wheel(0, 10), 5, None)]);
    assert_eq!(got.len(), 1);
    assert_eq!(got[0].kind(), EventKind::Wheel { delta_x: 0, delta_y: 10 });
    let got = deliveries(&mut bridge, vec![captured(wheel(0, -10), 6, None)]);
    assert_eq!(got[0].kind(), EventKind::Wheel { delta_x: 0, delta_y: -10 });
}

#[test]
fn a_script_of_events_arrives_in_the_order_of_its_capture() {
    let mut bridge = listening();
    let x = Coord { bits: 12.5f64.to_bits() };
    let script = vec![
        key_press(Key::ShiftLeft),
        key_press(Key::KeyH),
        key_release(Key::KeyH),
        key_release(Key::ShiftLeft),
        mouse_move(x, x),
        input_bridge::button_press(Button::Left),
        input_bridge::button_release(Button::Left),
        wheel(1, 0),
        wheel(0, -1),
        key_press(Key::Return),
        key_release(Key::Return),
    ];
    let events =
        script.iter().enumerate().map(|(i, kind)| captured(*kind, 10 * i as u64, None)).collect();
    let got = deliveries(&mut bridge, events);
    assert_eq!(got.len(), script.len());
    for (i, n) in got.iter().enumerate() {
        assert_eq!(n.kind(), script[i]);
        assert_eq!(n.timestamp(), 10 * i as i64);
    }
    assert_eq!(bridge.phase(), Phase::Listening);
}

#[test]
fn timestamps_may_go_backwards_and_the_order_stays() {
    let mut bridge = listening();
    let got = deliveries(
        &mut bridge,
        vec![
            captured(wheel(0, 1), 3000, None),
            captured(wheel(0, 2), 1000, None),
            captured(wheel(0, 3), 2000, None),
        ],
    );
    let stamps: Vec<i64> = got.iter().map(|n| n.timestamp()).collect();
    assert_eq!(stamps, vec![3000, 1000, 2000]);
    assert_eq!(got[1].kind(), EventKind::Wheel { delta_x: 0, delta_y: 2 });
}

#[test]
fn a_capture_that_cannot_be_converted_is_dropped_alone() {
    let mut bridge = listening();
    let bad = NativeEvent {
        time: CaptureTime::BeforeEpoch,
        name: None,
        kind: NativeKind::KeyDown("KeyB".to_string()),
    };
    assert!(matches!(
        bridge.step(Signal::Captured(captured(key_press(Key::KeyA), 1, None))),
        Action::Deliver(_)
    ));
    assert_eq!(
        bridge.step(Signal::Captured(bad)),
        Action::Discard(ConversionError::TimeBeforeEpoch)
    );
    assert_eq!(bridge.phase(), Phase::Listening);
    let got = deliveries(
        &mut bridge,
        vec![captured(key_press(Key::KeyC), 3, None), captured(key_release(Key::KeyC), 4, None)],
    );
    assert_eq!(got.len(), 2);
    assert_eq!(got[0].kind(), EventKind::KeyPress { key: Key::KeyC });
    assert_eq!(got[1].kind(), EventKind::KeyRelease { key: Key::KeyC });
}

#[test]
fn an_unknown_identifier_is_dropped_and_the_rest_arrives() {
    let mut bridge = listening();
    let unknown_key = NativeEvent {
        time: CaptureTime::SinceEpoch { secs: 0, nanos: 0 },
        name: None,
        kind: NativeKind::KeyDown("Unknown(250)".to_string()),
    };
    let unknown_button = NativeEvent {
        time: CaptureTime::SinceEpoch { secs: 0, nanos: 0 },
        name: None,
        kind: NativeKind::ButtonUp("Unknown(8)".to_string()),
    };
    assert_eq!(
        bridge.step(Signal::Captured(unknown_key)),
        Action::Discard(ConversionError::UnknownKey)
    );
    assert_eq!(
        bridge.step(Signal::Captured(unknown_button)),
        Action::Discard(ConversionError::UnknownButton)
    );
    let got = deliveries(&mut bridge, vec![captured(wheel(2, 0), 9, None)]);
    assert_eq!(got.len(), 1);
    assert_eq!(got[0].kind(), EventKind::Wheel { delta_x: 2, delta_y: 0 });
}

#[test]
fn dropped_captures_leave_what_is_delivered_as_if_they_never_were() {
    let good = |i: i64| captured(wheel(i, -i), i as u64, None);
    let bad = || NativeEvent {
        time: CaptureTime::BeforeEpoch,
        name: None,
        kind: NativeKind::Scroll { delta_x: 0, delta_y: 0 },
    };
    let mut with = listening();
    let got_with =
        deliveries(&mut with, vec![good(1), bad(), good(2), bad(), bad(), good(3), good(4)]);
    let mut without = listening();
    let got_without = deliveries(&mut without, vec![good(1), good(2), good(3), good(4)]);
    assert_eq!(got_with, got_without);
    assert_eq!(got_with.len(), 4);
}

#[test]
fn every_key_pressed_and_released_arrives_as_itself() {
    let mut bridge = listening();
    let mut events = Vec::new();
    for (i, key) in ALL_KEYS.iter().enumerate() {
        events.push(captured(key_press(*key), 2 * i as u64, None));
        events.push(captured(key_release(*key), 2 * i as u64 + 1, None));
    }
    let got = deliveries(&mut bridge, events);
    assert_eq!(got.len(), 2 * ALL_KEYS.len());
    for (i, key) in ALL_KEYS.iter().enumerate() {
        assert_eq!(got[2 * i].kind(), EventKind::KeyPress { key: *key });
        assert_eq!(got[2 * i + 1].kind(), EventKind::KeyRelease { key: *key });
    }
}

#[test]
fn every_button_pressed_and_released_arrives_as_itself() {
    let mut bridge = listening();
    for button in [Button::Left, Button::Right, Button::Middle] {
        let got = deliveries(
            &mut bridge,
            vec![
                captured(input_bridge::button_press(button), 1, None),
                captured(input_bridge::button_release(button), 2, None),
            ],
        );
        assert_eq!(got.len(), 2);
        assert_eq!(got[0].kind(), EventKind::ButtonPress { button });
        assert_eq!(got[1].kind(), EventKind::ButtonRelease { button });
    }
}
