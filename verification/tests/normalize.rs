use input_bridge::{
    normalize, Button, CaptureTime, ConversionError, Coord, EventKind, Key, NativeEvent, NativeKind,
};

fn at(secs: u64, nanos: u32) -> CaptureTime {
    CaptureTime::SinceEpoch { secs, nanos }
}

fn coord(value: f64) -> Coord {
    Coord { bits: value.to_bits() }
}

#[test]
fn key_down_becomes_key_press_with_its_name() {
    let ev = NativeEvent {
        time: at(10, 250_000_000),
        name: Some("a".to_string()),
        kind: NativeKind::KeyDown("KeyA".to_string()),
    };
    let n = normalize(ev).unwrap();
    assert_eq!(n.timestamp(), 10_250);
    assert_eq!(n.kind(), EventKind::KeyPress { key: Key::KeyA });
    assert_eq!(n.textual_name(), Some("a"));
}

#[test]
fn key_down_without_a_name_has_none() {
    let ev = NativeEvent {
        time: at(10, 0),
        name: None,
        kind: NativeKind::KeyDown("ShiftLeft".to_string()),
    };
    let n = normalize(ev).unwrap();
    assert_eq!(n.kind(), EventKind::KeyPress { key: Key::ShiftLeft });
    assert_eq!(n.textual_name(), None);
}

#[test]
fn key_up_becomes_key_release_and_loses_its_name() {
    let ev = NativeEvent {
        time: at(3, 1_000_000),
        name: Some("a".to_string()),
        kind: NativeKind::KeyUp("KeyA".to_string()),
    };
    let n = normalize(ev).unwrap();
    assert_eq!(n.timestamp(), 3001);
    assert_eq!(n.kind(), EventKind::KeyRelease { key: Key::KeyA });
    assert_eq!(n.textual_name(), None);
}

#[test]
fn button_down_and_up_become_press_and_release() {
    let down = NativeEvent {
        time: at(1, 0),
        name: None,
        kind: NativeKind::ButtonDown("Left".to_string()),
    };
    let up = NativeEvent {
        time: at(2, 0),
        name: None,
        kind: NativeKind::ButtonUp("Middle".to_string()),
    };
    let n = normalize(down).unwrap();
    assert_eq!(n.timestamp(), 1000);
    assert_eq!(n.kind(), EventKind::ButtonPress { button: Button::Left });
    let n = normalize(up).unwrap();
    assert_eq!(n.timestamp(), 2000);
    assert_eq!(n.kind(), EventKind::ButtonRelease { button: Button::Middle });
}

#[test]
fn a_button_never_has_a_textual_name() {
    let down = NativeEvent {
        time: at(1, 0),
        name: Some("x".to_string()),
        kind: NativeKind::ButtonDown("Right".to_string()),
    };
    let n = normalize(down).unwrap();
    assert_eq!(n.kind(), EventKind::ButtonPress { button: Button::Right });
    assert_eq!(n.textual_name(), None);
    let up = NativeEvent {
        time: at(1, 0),
        name: Some("x".to_string()),
        kind: NativeKind::ButtonUp("Right".to_string()),
    };
    assert_eq!(normalize(up).unwrap().textual_name(), None);
}

#[test]
fn pointer_move_keeps_its_coordinates_bit_for_bit() {
    let values = [0.0, -0.0, 100.0, 1919.5, -3.25, f64::MAX, f64::MIN_POSITIVE, f64::INFINITY];
    for x in values {
        for y in values {
            let ev = NativeEvent {
                time: at(5, 0),
                name: None,
                kind: NativeKind::PointerMove { x: coord(x), y: coord(y) },
            };
            let n = normalize(ev).unwrap();
            match n.kind() {
                EventKind::MouseMove { x: nx, y: ny } => {
                    assert_eq!(nx.bits, x.to_bits());
                    assert_eq!(ny.bits, y.to_bits());
                }
                other => panic!("not a move: {other:?}"),
            }
            assert_eq!(n.textual_name(), None);
        }
    }
}

#[test]
fn pointer_move_keeps_a_coordinate_that_is_no_number() {
    let nan = f64::NAN.to_bits() | 1;
    let ev = NativeEvent {
        time: at(5, 0),
        name: Some("x".to_string()),
        kind: NativeKind::PointerMove { x: Coord { bits: nan }, y: coord(1.0) },
    };
    let n = normalize(ev).unwrap();
    assert_eq!(n.kind(), EventKind::MouseMove { x: Coord { bits: nan }, y: coord(1.0) });
    assert_eq!(n.textual_name(), None);
}

#[test]
fn scroll_keeps_its_deltas_and_their_signs() {
    let deltas = [0, 1, -1, 10, -10, i64::MAX, i64::MIN];
    for dx in deltas {
        for dy in deltas {
            let ev = NativeEvent {
                time: at(5, 0),
                name: None,
                kind: NativeKind::Scroll { delta_x: dx, delta_y: dy },
            };
            let n = normalize(ev).unwrap();
            assert_eq!(n.kind(), EventKind::Wheel { delta_x: dx, delta_y: dy });
        }
    }
}

#[test]
fn a_capture_before_the_epoch_is_dropped_for_its_time() {
    let ev = NativeEvent {
        time: CaptureTime::BeforeEpoch,
        name: Some("a".to_string()),
        kind: NativeKind::KeyDown("KeyA".to_string()),
    };
    assert_eq!(normalize(ev), Err(ConversionError::TimeBeforeEpoch));
    let ev = NativeEvent {
        time: CaptureTime::BeforeEpoch,
        name: None,
        kind: NativeKind::Scroll { delta_x: 0, delta_y: 1 },
    };
    assert_eq!(normalize(ev), Err(ConversionError::TimeBeforeEpoch));
}

#[test]
fn a_key_outside_the_vocabulary_is_dropped() {
    for kind in [
        NativeKind::KeyDown("Unknown(250)".to_string()),
        NativeKind::KeyUp("Unknown(250)".to_string()),
        NativeKind::KeyDown("".to_string()),
        NativeKind::KeyUp("Left".to_string()),
    ] {
        let ev = NativeEvent { time: at(1, 0), name: None, kind };
        assert_eq!(normalize(ev), Err(ConversionError::UnknownKey));
    }
}

#[test]
fn a_button_outside_the_vocabulary_is_dropped() {
    for kind in [
        NativeKind::ButtonDown("Unknown(8)".to_string()),
        NativeKind::ButtonUp("Unknown(9)".to_string()),
        NativeKind::ButtonDown("KeyA".to_string()),
    ] {
        let ev = NativeEvent { time: at(1, 0), name: None, kind };
        assert_eq!(normalize(ev), Err(ConversionError::UnknownButton));
    }
}

#[test]
fn the_time_is_judged_before_the_identifier() {
    let ev = NativeEvent {
        time: CaptureTime::BeforeEpoch,
        name: None,
        kind: NativeKind::KeyDown("Unknown(250)".to_string()),
    };
    assert_eq!(normalize(ev), Err(ConversionError::TimeBeforeEpoch));
    let ev = NativeEvent {
        time: CaptureTime::BeforeEpoch,
        name: None,
        kind: NativeKind::ButtonUp("Unknown(8)".to_string()),
    };
    assert_eq!(normalize(ev), Err(ConversionError::TimeBeforeEpoch));
}

#[test]
fn a_textual_name_passes_through_whatever_it_holds() {
    for name in ["", "a", "A", "é", "日本語", " ", "\n"] {
        let ev = NativeEvent {
            time: at(1, 0),
            name: Some(name.to_string()),
            kind: NativeKind::KeyDown("KeyQ".to_string()),
        };
        assert_eq!(normalize(ev).unwrap().textual_name(), Some(name));
    }
}

#[test]
fn each_kind_has_its_word() {
    let x = coord(1.0);
    assert_eq!(EventKind::KeyPress { key: Key::KeyA }.direction(), "KeyPress");
    assert_eq!(EventKind::KeyRelease { key: Key::KeyA }.direction(), "KeyRelease");
    assert_eq!(EventKind::ButtonPress { button: Button::Left }.direction(), "ButtonPress");
    assert_eq!(EventKind::ButtonRelease { button: Button::Left }.direction(), "ButtonRelease");
    assert_eq!(EventKind::MouseMove { x, y: x }.direction(), "MouseMove");
    assert_eq!(EventKind::Wheel { delta_x: 0, delta_y: 0 }.direction(), "Wheel");
}
