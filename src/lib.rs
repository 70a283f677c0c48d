//! Translation of remote-control navigation events into input actions.
//!
//! A control event is a string-keyed record whose `event` field names what
//! happened (a pointer move, a button, a scroll, a key).  [`translate`] turns
//! one into the input actions that replay it, or a [`DecodeError`];
//! [`filter_decision`] says what a pipeline filter does with it.  The host
//! executes the actions against the desktop input backend, which releases the
//! keys of [`modifier_reset_actions`] when it starts.

mod action;
mod adapter;
mod event;
mod float;
mod keys;
mod text;
mod translate;

pub use action::{Axis, DecodeError, Direction, InputAction, MouseButton};
pub use adapter::{
    disposition_of, filter_decision, is_modifier, lemma_button_events, lemma_missing_key_dropped,
    lemma_mouse_move_truncates, lemma_unrecognized_forwarded, modifier_keys,
    modifier_reset_actions, release_of, Disposition, FilterAction,
};
pub use event::{lookup_from, ControlEvent, Field, FieldValue};
pub use float::{
    f64_exponent, f64_fraction, f64_int_magnitude, f64_is_nan, f64_is_negative, f64_scale,
    f64_significand, f64_trunc_i32, lemma_truncates_toward_zero, trunc_to_i32, FRACTION_UNIT,
    SCALE_BIAS, SIGN_BIT,
};
pub use keys::{
    find_key_from, key_name, key_table, lemma_key_name_round_trip, lemma_key_names_distinct,
    lemma_table_names_resolve, lookup_named_key, named_key_of, named_key_table, KeySymbol,
    NamedKey,
};
pub use text::same_text;
pub use translate::{
    button_from_number, button_of, decode_key, direction_of, key_symbol_of, outcome_view, scroll,
    scroll_actions, translate, translation_of, Translation,
};
