use remotecontrol::{
    decode_key, filter_decision, lookup_named_key, modifier_reset_actions, named_key_table,
    same_text, translate, trunc_to_i32, Axis, ControlEvent, DecodeError, Direction, FilterAction,
    InputAction, KeySymbol, MouseButton, NamedKey, Translation,
};

fn event(kind: &str) -> ControlEvent {
    ControlEvent::new().with_text("event", kind)
}

fn actions(ev: &ControlEvent) -> Vec<InputAction> {
    match translate(ev) {
        Ok(Translation::Actions(v)) => v,
        other => panic!("expected actions, got {:?}", other),
    }
}

fn mouse_move(x: f64, y: f64) -> ControlEvent {
    event("mouse-move")
        .with_double_bits("pointer_x", x.to_bits())
        .with_double_bits("pointer_y", y.to_bits())
}

fn scroll_event(dx: f64, dy: f64) -> ControlEvent {
    event("mouse-scroll")
        .with_double_bits("delta_pointer_x", dx.to_bits())
        .with_double_bits("delta_pointer_y", dy.to_bits())
}

fn key_event(kind: &str, key: &str) -> ControlEvent {
    event(kind).with_text("key", key)
}

#[test]
fn mouse_move_truncates_toward_zero() {
    assert_eq!(actions(&mouse_move(3.9, -3.9)), vec![InputAction::MouseMove { x: 3, y: -3 }]);
    assert_eq!(actions(&mouse_move(-0.99, 0.99)), vec![InputAction::MouseMove { x: 0, y: 0 }]);
    assert_eq!(actions(&mouse_move(1920.0, 1080.5)), vec![InputAction::MouseMove { x: 1920, y: 1080 }]);
}

#[test]
fn truncation_matches_the_cast() {
    let values = [
        0.0, -0.0, 0.5, -0.5, 1.0, -1.0, 3.9, -3.9, 2.5, 123456.789, -98765.4321,
        2147483647.0, 2147483647.9, 2147483648.0, -2147483648.0, -2147483648.9, -2147483649.0,
        1e10, -1e10, 1e300, -1e300, 4503599627370495.5, 9007199254740993.0,
        f64::MIN_POSITIVE, 5e-324, -5e-324, f64::MAX, f64::MIN, f64::INFINITY,
        f64::NEG_INFINITY, f64::NAN, -f64::NAN, f64::EPSILON, 0.9999999999999999,
    ];
    for v in values {
        assert_eq!(trunc_to_i32(v.to_bits()), v as i32, "value {}", v);
    }
}

#[test]
fn truncation_saturates_and_maps_nan_to_zero() {
    assert_eq!(trunc_to_i32(f64::NAN.to_bits()), 0);
    assert_eq!(trunc_to_i32(f64::INFINITY.to_bits()), i32::MAX);
    assert_eq!(trunc_to_i32(f64::NEG_INFINITY.to_bits()), i32::MIN);
    assert_eq!(trunc_to_i32(3e9f64.to_bits()), i32::MAX);
    assert_eq!(trunc_to_i32((-3e9f64).to_bits()), i32::MIN);
}

#[test]
fn button_numbers_and_directions() {
    let cases = [
        (1, "mouse-button-press", MouseButton::Left, Direction::Press),
        (2, "mouse-button-press", MouseButton::Middle, Direction::Press),
        (3, "mouse-button-press", MouseButton::Right, Direction::Press),
        (1, "mouse-button-release", MouseButton::Left, Direction::Release),
        (2, "mouse-button-release", MouseButton::Middle, Direction::Release),
        (3, "mouse-button-release", MouseButton::Right, Direction::Release),
    ];
    for (number, kind, button, direction) in cases {
        let ev = event(kind).with_int("button", number);
        assert_eq!(actions(&ev), vec![InputAction::MouseButton { button, direction }]);
    }
}

#[test]
fn button_out_of_range_is_not_handled() {
    for number in [0, 4, -1, 5, i32::MAX, i32::MIN] {
        for kind in ["mouse-button-press", "mouse-button-release"] {
            let ev = event(kind).with_int("button", number);
            assert!(matches!(translate(&ev), Ok(Translation::NotHandled)));
            assert!(matches!(filter_decision(&ev), FilterAction::Forward));
        }
    }
}

#[test]
fn scroll_vertical_only() {
    assert_eq!(
        actions(&scroll_event(0.0, -5.2)),
        vec![InputAction::Scroll { axis: Axis::Vertical, delta: -5 }]
    );
}

#[test]
fn scroll_both_axes_and_neither() {
    assert_eq!(
        actions(&scroll_event(2.7, 1.0)),
        vec![
            InputAction::Scroll { axis: Axis::Horizontal, delta: 2 },
            InputAction::Scroll { axis: Axis::Vertical, delta: 1 },
        ]
    );
    assert_eq!(
        actions(&scroll_event(-3.5, 0.0)),
        vec![InputAction::Scroll { axis: Axis::Horizontal, delta: -3 }]
    );
    // Deltas under one in magnitude truncate to zero and yield nothing.
    assert_eq!(actions(&scroll_event(0.4, -0.9)), vec![]);
    match filter_decision(&scroll_event(0.0, 0.0)) {
        FilterAction::Execute(v) => assert!(v.is_empty()),
        other => panic!("expected execute, got {:?}", other),
    }
}

#[test]
fn every_table_name_resolves() {
    let table = named_key_table();
    assert_eq!(table.len(), 47);
    for (i, (name, key)) in table.iter().enumerate() {
        assert_eq!(lookup_named_key(name), Some(*key), "{}", name);
        assert_eq!(decode_key(name), Ok(KeySymbol::Named(*key)));
        for (j, (other, _)) in table.iter().enumerate() {
            assert_eq!(i == j, name == other);
        }
    }
}

#[test]
fn left_and_right_variants() {
    assert_eq!(lookup_named_key("AltLeft"), Some(NamedKey::Alt));
    assert_eq!(lookup_named_key("AltRight"), Some(NamedKey::Alt));
    assert_eq!(lookup_named_key("MetaLeft"), Some(NamedKey::Meta));
    assert_eq!(lookup_named_key("MetaRight"), Some(NamedKey::Meta));
    assert_eq!(lookup_named_key("ShiftLeft"), Some(NamedKey::LShift));
    assert_eq!(lookup_named_key("ControlRight"), Some(NamedKey::RControl));
    assert_eq!(lookup_named_key("Enter"), Some(NamedKey::Return));
    assert_eq!(lookup_named_key("ArrowDown"), Some(NamedKey::DownArrow));
    assert_eq!(lookup_named_key("F20"), Some(NamedKey::F20));
    assert_eq!(lookup_named_key("F21"), None);
    assert_eq!(lookup_named_key("backspace"), None);
}

#[test]
fn single_character_keys() {
    assert_eq!(decode_key("A"), Ok(KeySymbol::Unicode('A')));
    assert_eq!(decode_key("é"), Ok(KeySymbol::Unicode('é')));
    assert_eq!(decode_key("€"), Ok(KeySymbol::Unicode('€')));
    assert_eq!(decode_key(" "), Ok(KeySymbol::Unicode(' ')));
}

#[test]
fn empty_and_multi_character_keys() {
    assert_eq!(decode_key(""), Err(DecodeError::EmptyKey));
    assert_eq!(decode_key("AB"), Err(DecodeError::MultiCharacterKey));
    assert_eq!(decode_key("backspace"), Err(DecodeError::MultiCharacterKey));
    assert_eq!(decode_key("e\u{301}"), Err(DecodeError::MultiCharacterKey));
    assert!(matches!(translate(&key_event("key-press", "")), Err(DecodeError::EmptyKey)));
    assert!(matches!(
        translate(&key_event("key-release", "AB")),
        Err(DecodeError::MultiCharacterKey)
    ));
    assert!(matches!(
        filter_decision(&key_event("key-press", "AB")),
        FilterAction::Drop(DecodeError::MultiCharacterKey)
    ));
}

#[test]
fn key_events() {
    assert_eq!(
        actions(&key_event("key-press", "Escape")),
        vec![InputAction::Key { key: KeySymbol::Named(NamedKey::Escape), direction: Direction::Press }]
    );
    assert_eq!(
        actions(&key_event("key-release", "q")),
        vec![InputAction::Key { key: KeySymbol::Unicode('q'), direction: Direction::Release }]
    );
}

#[test]
fn unrecognized_kind_is_forwarded() {
    let ev = event("pinch-zoom");
    assert!(matches!(translate(&ev), Err(DecodeError::UnrecognizedEvent)));
    assert!(matches!(filter_decision(&ev), FilterAction::Forward));
    // Kinds match exactly, case included.
    assert!(matches!(translate(&event("Mouse-Move")), Err(DecodeError::UnrecognizedEvent)));
}

#[test]
fn missing_key_is_dropped_and_later_events_still_work() {
    let ev = event("key-press");
    assert!(matches!(translate(&ev), Err(DecodeError::MissingField)));
    assert!(matches!(filter_decision(&ev), FilterAction::Drop(DecodeError::MissingField)));
    match filter_decision(&key_event("key-press", "a")) {
        FilterAction::Execute(v) => assert_eq!(
            v,
            vec![InputAction::Key { key: KeySymbol::Unicode('a'), direction: Direction::Press }]
        ),
        other => panic!("expected execute, got {:?}", other),
    }
}

#[test]
fn missing_or_mistyped_fields() {
    let no_y = event("mouse-move").with_double_bits("pointer_x", 1.0f64.to_bits());
    assert!(matches!(translate(&no_y), Err(DecodeError::MissingField)));
    let int_x = event("mouse-move")
        .with_int("pointer_x", 1)
        .with_double_bits("pointer_y", 1.0f64.to_bits());
    assert!(matches!(translate(&int_x), Err(DecodeError::MissingField)));
    let text_button = event("mouse-button-press").with_text("button", "1");
    assert!(matches!(translate(&text_button), Err(DecodeError::MissingField)));
    let no_delta = event("mouse-scroll").with_double_bits("delta_pointer_y", 1.0f64.to_bits());
    assert!(matches!(translate(&no_delta), Err(DecodeError::MissingField)));
    let int_key = event("key-press").with_int("key", 65);
    assert!(matches!(translate(&int_key), Err(DecodeError::MissingField)));
    let no_kind = ControlEvent::new().with_int("button", 1);
    assert!(matches!(translate(&no_kind), Err(DecodeError::MissingField)));
    assert!(matches!(filter_decision(&no_kind), FilterAction::Drop(DecodeError::MissingField)));
}

#[test]
fn first_field_of_a_name_counts() {
    let ev = event("mouse-button-press").with_int("button", 2).with_int("button", 3);
    assert_eq!(
        actions(&ev),
        vec![InputAction::MouseButton { button: MouseButton::Middle, direction: Direction::Press }]
    );
    assert_eq!(ev.int_field("button"), Some(2));
    assert_eq!(ev.text_field("event"), Some("mouse-button-press".to_string()));
    assert_eq!(ev.text_field("button"), None);
    assert_eq!(ev.double_field("button"), None);
}

#[test]
fn modifiers_are_released_at_start() {
    let named = [
        NamedKey::CapsLock,
        NamedKey::Shift,
        NamedKey::LShift,
        NamedKey::RShift,
        NamedKey::Control,
        NamedKey::LControl,
        NamedKey::RControl,
        NamedKey::Alt,
        NamedKey::Meta,
    ];
    let expected: Vec<InputAction> = named
        .iter()
        .map(|k| InputAction::Key { key: KeySymbol::Named(*k), direction: Direction::Release })
        .collect();
    assert_eq!(modifier_reset_actions(), expected);
}

#[test]
fn text_comparison() {
    assert!(same_text("mouse-move", "mouse-move"));
    assert!(!same_text("mouse-move", "mouse-mov"));
    assert!(!same_text("abc", "abd"));
    assert!(same_text("", ""));
    assert!(same_text("é€", "é€"));
}

#[test]
fn decode_errors_describe_themselves() {
    assert_eq!(DecodeError::EmptyKey.describe(), "empty `key`");
    assert_eq!(DecodeError::MissingField.describe(), "a required field is missing");
    assert_ne!(DecodeError::UnrecognizedEvent.describe(), DecodeError::MultiCharacterKey.describe());
}
