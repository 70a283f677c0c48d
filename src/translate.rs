//! From a control event to the input actions that replay it.
use vstd::prelude::*;
use vstd::string::StrSliceExecFns;

use crate::action::{Axis, DecodeError, Direction, InputAction, MouseButton};
use crate::event::ControlEvent;
use crate::float::{f64_trunc_i32, trunc_to_i32};
use crate::keys::{lookup_named_key, named_key_of, KeySymbol};
use crate::text::same_text;

verus! {

/// What a recognised event comes to.
#[derive(Clone, Debug)]
pub enum Translation {
    /// The actions to execute, in order; possibly none.
    Actions(Vec<InputAction>),
    /// An event of a known kind that this library leaves alone: a button
    /// number outside 1 to 3.
    NotHandled,
}

impl View for Translation {
    /// The actions, or `None` for an event left alone.
    type V = Option<Seq<InputAction>>;

    open spec fn view(&self) -> Option<Seq<InputAction>> {
        match self {
            Translation::Actions(v) => Some(v@),
            Translation::NotHandled => None,
        }
    }
}

/// A result of `translate`, with its translation seen through its view.
pub open spec fn outcome_view(r: Result<Translation, DecodeError>) -> Result<Option<Seq<InputAction>>, DecodeError> {
    match r {
        Ok(t) => Ok(t@),
        Err(e) => Err(e),
    }
}

/// The pointer button that a button number stands for.
pub open spec fn button_of(number: i32) -> Option<MouseButton> {
    if number == 1 {
        Some(MouseButton::Left)
    } else if number == 2 {
        Some(MouseButton::Middle)
    } else if number == 3 {
        Some(MouseButton::Right)
    } else {
        None
    }
}

/// The key that a key name stands for: a table name first, else a single
/// character.
pub open spec fn key_symbol_of(name: Seq<char>) -> Result<KeySymbol, DecodeError> {
    match named_key_of(name) {
        Some(k) => Ok(KeySymbol::Named(k)),
        None => if name.len() == 0 {
            Err(DecodeError::EmptyKey)
        } else if name.len() == 1 {
            Ok(KeySymbol::Unicode(name[0]))
        } else {
            Err(DecodeError::MultiCharacterKey)
        },
    }
}

/// One scroll action per axis whose delta is not zero, horizontal first.
pub open spec fn scroll_actions(dx: i32, dy: i32) -> Seq<InputAction> {
    let h = if dx != 0 {
        seq![InputAction::Scroll { axis: Axis::Horizontal, delta: dx }]
    } else {
        Seq::empty()
    };
    let v = if dy != 0 {
        seq![InputAction::Scroll { axis: Axis::Vertical, delta: dy }]
    } else {
        Seq::empty()
    };
    h + v
}

/// `Press` for the kind `press_kind`, `Release` otherwise.
pub open spec fn direction_of(kind: Seq<char>, press_kind: Seq<char>) -> Direction {
    if kind == press_kind {
        Direction::Press
    } else {
        Direction::Release
    }
}

/// What `translate` yields for `ev`: the actions (`None` for an event left
/// alone) or the reason it cannot be decoded.
pub open spec fn translation_of(ev: ControlEvent) -> Result<Option<Seq<InputAction>>, DecodeError> {
    match ev.text_of("event"@) {
        None => Err(DecodeError::MissingField),
        Some(kind) => if kind == "mouse-move"@ {
            match (ev.double_of("pointer_x"@), ev.double_of("pointer_y"@)) {
                (Some(x), Some(y)) => Ok(
                    Some(seq![InputAction::MouseMove { x: f64_trunc_i32(x), y: f64_trunc_i32(y) }]),
                ),
                _ => Err(DecodeError::MissingField),
            }
        } else if kind == "mouse-button-press"@ || kind == "mouse-button-release"@ {
            match ev.int_of("button"@) {
                None => Err(DecodeError::MissingField),
                Some(number) => match button_of(number) {
                    Some(button) => Ok(
                        Some(
                            seq![InputAction::MouseButton {
                                button,
                                direction: direction_of(kind, "mouse-button-press"@),
                            }],
                        ),
                    ),
                    None => Ok(None),
                },
            }
        } else if kind == "mouse-scroll"@ {
            match (ev.double_of("delta_pointer_x"@), ev.double_of("delta_pointer_y"@)) {
                (Some(dx), Some(dy)) => Ok(
                    Some(scroll_actions(f64_trunc_i32(dx), f64_trunc_i32(dy))),
                ),
                _ => Err(DecodeError::MissingField),
            }
        } else if kind == "key-press"@ || kind == "key-release"@ {
            match ev.text_of("key"@) {
                None => Err(DecodeError::MissingField),
                Some(name) => match key_symbol_of(name) {
                    Ok(key) => Ok(
                        Some(
                            seq![InputAction::Key { key, direction: direction_of(kind, "key-press"@) }],
                        ),
                    ),
                    Err(e) => Err(e),
                },
            }
        } else {
            Err(DecodeError::UnrecognizedEvent)
        },
    }
}

/// Resolves a key name: the table of names first, else the single character
/// it holds.
pub fn decode_key(name: &str) -> (r: Result<KeySymbol, DecodeError>)
    ensures
        r == key_symbol_of(name@),
{
    match lookup_named_key(name) {
        Some(k) => Ok(KeySymbol::Named(k)),
        None => {
            let n: usize = name.unicode_len();
            if n == 0 {
                Err(DecodeError::EmptyKey)
            } else if n == 1 {
                Ok(KeySymbol::Unicode(name.get_char(0)))
            } else {
                Err(DecodeError::MultiCharacterKey)
            }
        },
    }
}

/// The pointer button that a button number stands for, if any.
pub fn button_from_number(number: i32) -> (r: Option<MouseButton>)
    ensures
        r == button_of(number),
{
    if number == 1 {
        Some(MouseButton::Left)
    } else if number == 2 {
        Some(MouseButton::Middle)
    } else if number == 3 {
        Some(MouseButton::Right)
    } else {
        None
    }
}

/// The scroll actions for the deltas `dx` and `dy`.
pub fn scroll(dx: i32, dy: i32) -> (r: Vec<InputAction>)
    ensures
        r@ == scroll_actions(dx, dy),
{
    let mut r: Vec<InputAction> = Vec::new();
    if dx != 0 {
        r.push(InputAction::Scroll { axis: Axis::Horizontal, delta: dx });
    }
    if dy != 0 {
        r.push(InputAction::Scroll { axis: Axis::Vertical, delta: dy });
    }
    assert(r@ =~= scroll_actions(dx, dy));
    r
}

/// Decodes a control event into the input actions that replay it.
pub fn translate(ev: &ControlEvent) -> (r: Result<Translation, DecodeError>)
    ensures
        outcome_view(r) == translation_of(*ev),
{
    let kind = match ev.text_field("event") {
        Some(kind) => kind,
        None => return Err(DecodeError::MissingField),
    };
    let kind = kind.as_str();
    if same_text(kind, "mouse-move") {
        match (ev.double_field("pointer_x"), ev.double_field("pointer_y")) {
            (Some(x), Some(y)) => {
                let action = InputAction::MouseMove { x: trunc_to_i32(x), y: trunc_to_i32(y) };
                let v = vec![action];
                assert(v@ =~= seq![action]);
                Ok(Translation::Actions(v))
            },
            _ => Err(DecodeError::MissingField),
        }
    } else if same_text(kind, "mouse-button-press") || same_text(kind, "mouse-button-release") {
        let number = match ev.int_field("button") {
            Some(number) => number,
            None => return Err(DecodeError::MissingField),
        };
        match button_from_number(number) {
            Some(button) => {
                let direction = if same_text(kind, "mouse-button-press") {
                    Direction::Press
                } else {
                    Direction::Release
                };
                let action = InputAction::MouseButton { button, direction };
                let v = vec![action];
                assert(v@ =~= seq![action]);
                Ok(Translation::Actions(v))
            },
            None => Ok(Translation::NotHandled),
        }
    } else if same_text(kind, "mouse-scroll") {
        match (ev.double_field("delta_pointer_x"), ev.double_field("delta_pointer_y")) {
            (Some(dx), Some(dy)) => Ok(
                Translation::Actions(scroll(trunc_to_i32(dx), trunc_to_i32(dy))),
            ),
            _ => Err(DecodeError::MissingField),
        }
    } else if same_text(kind, "key-press") || same_text(kind, "key-release") {
        let name = match ev.text_field("key") {
            Some(name) => name,
            None => return Err(DecodeError::MissingField),
        };
        let key = match decode_key(name.as_str()) {
            Ok(key) => key,
            Err(e) => return Err(e),
        };
        let direction = if same_text(kind, "key-press") {
            Direction::Press
        } else {
            Direction::Release
        };
        let action = InputAction::Key { key, direction };
        let v = vec![action];
        assert(v@ =~= seq![action]);
        Ok(Translation::Actions(v))
    } else {
        Err(DecodeError::UnrecognizedEvent)
    }
}

} // verus!
