//! Control events: string-keyed records of typed fields.
use vstd::prelude::*;

use crate::text::same_text;

verus! {

/// The value of one field of a control event.  A double is held as its
/// IEEE-754 binary64 bit pattern.
#[derive(Clone, Debug)]
pub enum FieldValue {
    Text(String),
    Int(i32),
    Double(u64),
    /// A value of a type that no event kind reads.
    Other,
}

/// A named field.
#[derive(Clone, Debug)]
pub struct Field {
    pub name: String,
    pub value: FieldValue,
}

/// A control event, as received: the `event` field names its kind, the
/// other fields carry its data.
#[derive(Clone, Debug)]
pub struct ControlEvent {
    pub fields: Vec<Field>,
}

/// The value of the first field of `fields`, from index `start` on, named
/// `name`.
pub open spec fn lookup_from(fields: Seq<Field>, name: Seq<char>, start: int) -> Option<FieldValue>
    decreases fields.len() - start,
{
    if start < 0 || start >= fields.len() {
        None
    } else if fields[start].name@ == name {
        Some(fields[start].value)
    } else {
        lookup_from(fields, name, start + 1)
    }
}

impl ControlEvent {
    /// The value of the field named `name`.
    pub open spec fn value_of(self, name: Seq<char>) -> Option<FieldValue> {
        lookup_from(self.fields@, name, 0)
    }

    /// The field named `name`, if it holds text.
    pub open spec fn text_of(self, name: Seq<char>) -> Option<Seq<char>> {
        match self.value_of(name) {
            Some(FieldValue::Text(s)) => Some(s@),
            _ => None,
        }
    }

    /// The field named `name`, if it holds a 32-bit integer.
    pub open spec fn int_of(self, name: Seq<char>) -> Option<i32> {
        match self.value_of(name) {
            Some(FieldValue::Int(v)) => Some(v),
            _ => None,
        }
    }

    /// The field named `name`, if it holds a double (as its bit pattern).
    pub open spec fn double_of(self, name: Seq<char>) -> Option<u64> {
        match self.value_of(name) {
            Some(FieldValue::Double(b)) => Some(b),
            _ => None,
        }
    }

    /// An event with no fields.
    pub fn new() -> (r: ControlEvent)
        ensures
            r.fields@.len() == 0,
    {
        ControlEvent { fields: Vec::new() }
    }

    /// Appends a field.
    pub fn push_field(&mut self, name: &str, value: FieldValue)
        ensures
            final(self).fields@.len() == old(self).fields@.len() + 1,
            final(self).fields@.subrange(0, old(self).fields@.len() as int) == old(self).fields@,
            final(self).fields@.last().name@ == name@,
            final(self).fields@.last().value == value,
    {
        self.fields.push(Field { name: name.to_owned(), value });
        assert(final(self).fields@.subrange(0, old(self).fields@.len() as int) =~= old(self).fields@);
    }

    /// This event with a text field appended.
    pub fn with_text(self, name: &str, value: &str) -> (r: ControlEvent)
        ensures
            r.fields@.len() == self.fields@.len() + 1,
            r.fields@.subrange(0, self.fields@.len() as int) == self.fields@,
            r.fields@.last().name@ == name@,
            r.fields@.last().value matches FieldValue::Text(s) && s@ == value@,
    {
        let mut r = self;
        r.push_field(name, FieldValue::Text(value.to_owned()));
        r
    }

    /// This event with an integer field appended.
    pub fn with_int(self, name: &str, value: i32) -> (r: ControlEvent)
        ensures
            r.fields@.len() == self.fields@.len() + 1,
            r.fields@.subrange(0, self.fields@.len() as int) == self.fields@,
            r.fields@.last().name@ == name@,
            r.fields@.last().value == FieldValue::Int(value),
    {
        let mut r = self;
        r.push_field(name, FieldValue::Int(value));
        r
    }

    /// This event with a double field appended, given by its bit pattern.
    pub fn with_double_bits(self, name: &str, bits: u64) -> (r: ControlEvent)
        ensures
            r.fields@.len() == self.fields@.len() + 1,
            r.fields@.subrange(0, self.fields@.len() as int) == self.fields@,
            r.fields@.last().name@ == name@,
            r.fields@.last().value == FieldValue::Double(bits),
    {
        let mut r = self;
        r.push_field(name, FieldValue::Double(bits));
        r
    }

    /// The index of the field that `value_of(name)` reads.
    fn position(&self, name: &str) -> (r: Option<usize>)
        ensures
            match r {
                Some(i) => i < self.fields@.len() && self.value_of(name@) == Some(
                    self.fields@[i as int].value,
                ),
                None => self.value_of(name@) is None,
            },
    {
        let mut i: usize = 0;
        while i < self.fields.len()
            invariant
                i <= self.fields@.len(),
                self.value_of(name@) == lookup_from(self.fields@, name@, i as int),
            decreases self.fields@.len() - i,
        {
            if same_text(self.fields[i].name.as_str(), name) {
                return Some(i);
            }
            i = i + 1;
        }
        None
    }

    /// The text of the field named `name`, if that field holds text.
    pub fn text_field(&self, name: &str) -> (r: Option<String>)
        ensures
            match r {
                Some(s) => self.text_of(name@) == Some(s@),
                None => self.text_of(name@) is None,
            },
    {
        match self.position(name) {
            Some(i) => match &self.fields[i].value {
                FieldValue::Text(s) => Some(s.clone()),
                _ => None,
            },
            None => None,
        }
    }

    /// The integer in the field named `name`, if that field holds one.
    pub fn int_field(&self, name: &str) -> (r: Option<i32>)
        ensures
            r == self.int_of(name@),
    {
        match self.position(name) {
            Some(i) => match &self.fields[i].value {
                FieldValue::Int(v) => Some(*v),
                _ => None,
            },
            None => None,
        }
    }

    /// The bit pattern of the double in the field named `name`, if that field
    /// holds one.
    pub fn double_field(&self, name: &str) -> (r: Option<u64>)
        ensures
            r == self.double_of(name@),
    {
        match self.position(name) {
            Some(i) => match &self.fields[i].value {
                FieldValue::Double(b) => Some(*b),
                _ => None,
            },
            None => None,
        }
    }
}

} // verus!
