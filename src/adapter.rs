//! The decisions around translation: what a pipeline filter does with an
//! event travelling upstream, and how the input backend starts.
use vstd::prelude::*;

use crate::action::{DecodeError, Direction, InputAction, MouseButton};
use crate::event::ControlEvent;
use crate::float::f64_trunc_i32;
use crate::keys::{KeySymbol, NamedKey};
use crate::translate::{button_of, direction_of, translate, translation_of, Translation};

verus! {

/// What a filter does with an event, as contracts speak of it.
pub enum Disposition {
    /// Execute these actions; the event is consumed.
    Execute(Seq<InputAction>),
    /// Pass the event on upstream, unchanged.
    Forward,
    /// Log the error and consume the event without acting on it.
    Drop(DecodeError),
}

/// The filter's decision for an event that translates to `t`: an event
/// left alone or of an unknown kind goes on upstream, a malformed one is
/// dropped, any other is executed.
pub open spec fn disposition_of(t: Result<Option<Seq<InputAction>>, DecodeError>) -> Disposition {
    match t {
        Ok(Some(actions)) => Disposition::Execute(actions),
        Ok(None) => Disposition::Forward,
        Err(DecodeError::UnrecognizedEvent) => Disposition::Forward,
        Err(e) => Disposition::Drop(e),
    }
}

/// What a filter does with a navigation event travelling upstream.
#[derive(Clone, Debug)]
pub enum FilterAction {
    /// Execute these actions, in order, and consume the event.
    Execute(Vec<InputAction>),
    /// Pass the event on upstream, unchanged.
    Forward,
    /// Log the error and consume the event.
    Drop(DecodeError),
}

impl View for FilterAction {
    type V = Disposition;

    open spec fn view(&self) -> Disposition {
        match self {
            FilterAction::Execute(v) => Disposition::Execute(v@),
            FilterAction::Forward => Disposition::Forward,
            FilterAction::Drop(e) => Disposition::Drop(*e),
        }
    }
}

/// Decides what a filter does with the navigation event `ev`.
pub fn filter_decision(ev: &ControlEvent) -> (r: FilterAction)
    ensures
        r@ == disposition_of(translation_of(*ev)),
{
    match translate(ev) {
        Ok(Translation::Actions(v)) => FilterAction::Execute(v),
        Ok(Translation::NotHandled) => FilterAction::Forward,
        Err(DecodeError::UnrecognizedEvent) => FilterAction::Forward,
        Err(e) => FilterAction::Drop(e),
    }
}

/// The modifier keys, in the order the backend releases them at start-up.
pub open spec fn modifier_keys() -> Seq<NamedKey> {
    seq![
        NamedKey::CapsLock,
        NamedKey::Shift,
        NamedKey::LShift,
        NamedKey::RShift,
        NamedKey::Control,
        NamedKey::LControl,
        NamedKey::RControl,
        NamedKey::Alt,
        NamedKey::Meta,
    ]
}

/// Whether `k` is a modifier key.
pub open spec fn is_modifier(k: NamedKey) -> bool {
    match k {
        NamedKey::CapsLock | NamedKey::Shift | NamedKey::LShift | NamedKey::RShift
        | NamedKey::Control | NamedKey::LControl | NamedKey::RControl | NamedKey::Alt
        | NamedKey::Meta => true,
        _ => false,
    }
}

/// The release of a key.
pub open spec fn release_of(k: NamedKey) -> InputAction {
    InputAction::Key { key: KeySymbol::Named(k), direction: Direction::Release }
}

/// The actions a newly created input backend executes before any other, so
/// that no modifier stays held from an earlier session: one release per
/// modifier key, and nothing else.
pub fn modifier_reset_actions() -> (r: Vec<InputAction>)
    ensures
        r@ == modifier_keys().map_values(|k: NamedKey| release_of(k)),
        forall|i: int| 0 <= i < r@.len() ==> exists|k: NamedKey| is_modifier(k) && #[trigger] r@[i] == release_of(k),
        forall|k: NamedKey| is_modifier(k) ==> r@.contains(#[trigger] release_of(k)),
{
    let mut r: Vec<InputAction> = Vec::new();
    let keys = vec![
        NamedKey::CapsLock,
        NamedKey::Shift,
        NamedKey::LShift,
        NamedKey::RShift,
        NamedKey::Control,
        NamedKey::LControl,
        NamedKey::RControl,
        NamedKey::Alt,
        NamedKey::Meta,
    ];
    assert(keys@ =~= modifier_keys());
    let mut i: usize = 0;
    while i < keys.len()
        invariant
            keys@ == modifier_keys(),
            i <= keys@.len(),
            r@ == keys@.subrange(0, i as int).map_values(|k: NamedKey| release_of(k)),
        decreases keys@.len() - i,
    {
        r.push(InputAction::Key { key: KeySymbol::Named(keys[i]), direction: Direction::Release });
        assert(keys@.subrange(0, i + 1) =~= keys@.subrange(0, i as int).push(keys@[i as int]));
        assert(r@ =~= keys@.subrange(0, i + 1).map_values(|k: NamedKey| release_of(k)));
        i = i + 1;
    }
    assert(keys@.subrange(0, keys@.len() as int) =~= keys@);
    assert forall|i: int| 0 <= i < r@.len() implies exists|k: NamedKey| is_modifier(k) && #[trigger] r@[i] == release_of(k) by {
        assert(is_modifier(modifier_keys()[i]));
    }
    assert forall|k: NamedKey| is_modifier(k) implies r@.contains(#[trigger] release_of(k)) by {
        let i: int = match k {
            NamedKey::CapsLock => 0,
            NamedKey::Shift => 1,
            NamedKey::LShift => 2,
            NamedKey::RShift => 3,
            NamedKey::Control => 4,
            NamedKey::LControl => 5,
            NamedKey::RControl => 6,
            NamedKey::Alt => 7,
            _ => 8,
        };
        assert(r@[i] == release_of(k));
    }
    r
}

/// The six kinds of event have names of six different lengths.
proof fn lemma_event_kinds_distinct()
    ensures
        "mouse-move"@.len() == 10,
        "mouse-button-press"@.len() == 18,
        "mouse-button-release"@.len() == 20,
        "mouse-scroll"@.len() == 12,
        "key-press"@.len() == 9,
        "key-release"@.len() == 11,
{
    reveal_strlit("mouse-move");
    reveal_strlit("mouse-button-press");
    reveal_strlit("mouse-button-release");
    reveal_strlit("mouse-scroll");
    reveal_strlit("key-press");
    reveal_strlit("key-release");
}

/// A pointer move truncates both coordinates toward zero, each as
/// `f64_trunc_i32` states, and yields that one move.
pub proof fn lemma_mouse_move_truncates(ev: ControlEvent, x: u64, y: u64)
    requires
        ev.text_of("event"@) == Some("mouse-move"@),
        ev.double_of("pointer_x"@) == Some(x),
        ev.double_of("pointer_y"@) == Some(y),
    ensures
        translation_of(ev) == Ok::<_, DecodeError>(
            Some(seq![InputAction::MouseMove { x: f64_trunc_i32(x), y: f64_trunc_i32(y) }]),
        ),
        disposition_of(translation_of(ev)) == Disposition::Execute(
            seq![InputAction::MouseMove { x: f64_trunc_i32(x), y: f64_trunc_i32(y) }],
        ),
{
}

/// A button event with a number from 1 to 3 yields exactly that button
/// (1 left, 2 middle, 3 right) going down for a press and up for a release;
/// any other number yields no action and no error, and the filter passes the
/// event on.
pub proof fn lemma_button_events(ev: ControlEvent, kind: Seq<char>, number: i32)
    requires
        kind == "mouse-button-press"@ || kind == "mouse-button-release"@,
        ev.text_of("event"@) == Some(kind),
        ev.int_of("button"@) == Some(number),
    ensures
        1 <= number <= 3 ==> translation_of(ev) == Ok::<_, DecodeError>(
            Some(
                seq![InputAction::MouseButton {
                    button: button_of(number)->Some_0,
                    direction: if kind == "mouse-button-press"@ { Direction::Press } else { Direction::Release },
                }],
            ),
        ),
        number == 1 ==> button_of(number) == Some(MouseButton::Left),
        number == 2 ==> button_of(number) == Some(MouseButton::Middle),
        number == 3 ==> button_of(number) == Some(MouseButton::Right),
        !(1 <= number <= 3) ==> translation_of(ev) == Ok::<_, DecodeError>(None::<Seq<InputAction>>)
            && disposition_of(translation_of(ev)) == Disposition::Forward,
{
    lemma_event_kinds_distinct();
}

/// An event whose kind is none of the known ones decodes to
/// `UnrecognizedEvent`, and the filter passes it on unchanged.
pub proof fn lemma_unrecognized_forwarded(ev: ControlEvent, kind: Seq<char>)
    requires
        ev.text_of("event"@) == Some(kind),
        kind != "mouse-move"@,
        kind != "mouse-button-press"@,
        kind != "mouse-button-release"@,
        kind != "mouse-scroll"@,
        kind != "key-press"@,
        kind != "key-release"@,
    ensures
        translation_of(ev) == Err::<Option<Seq<InputAction>>, _>(DecodeError::UnrecognizedEvent),
        disposition_of(translation_of(ev)) == Disposition::Forward,
{
}

/// A key event without a text `key` field yields no action: it decodes to
/// `MissingField`, and the filter logs it and consumes it.
pub proof fn lemma_missing_key_dropped(ev: ControlEvent, kind: Seq<char>)
    requires
        kind == "key-press"@ || kind == "key-release"@,
        ev.text_of("event"@) == Some(kind),
        ev.text_of("key"@) is None,
    ensures
        translation_of(ev) == Err::<Option<Seq<InputAction>>, _>(DecodeError::MissingField),
        disposition_of(translation_of(ev)) == Disposition::Drop(DecodeError::MissingField),
{
    lemma_event_kinds_distinct();
}

} // verus!
