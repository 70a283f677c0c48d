//! The closed table of symbolic key names.
//!
//! Names are platform-neutral and matched exactly, case included.  The left
//! and right variants of Alt and Meta share one symbol: the input backend
//! does not tell them apart.
use vstd::prelude::*;

use crate::text::same_text;

verus! {

/// A named, non-printable key.
#[derive(Clone, Copy, Debug, PartialEq, Eq, Structural)]
pub enum NamedKey {
    Backspace,
    Delete,
    Tab,
    Return,
    Shift,
    LShift,
    RShift,
    Control,
    LControl,
    RControl,
    Alt,
    Meta,
    CapsLock,
    Escape,
    Space,
    PageUp,
    PageDown,
    End,
    Home,
    LeftArrow,
    UpArrow,
    RightArrow,
    DownArrow,
    F1,
    F2,
    F3,
    F4,
    F5,
    F6,
    F7,
    F8,
    F9,
    F10,
    F11,
    F12,
    F13,
    F14,
    F15,
    F16,
    F17,
    F18,
    F19,
    F20,
}

/// What a key event presses or releases: a named key or one printable
/// Unicode scalar value.
#[derive(Clone, Copy, Debug, PartialEq, Eq, Structural)]
pub enum KeySymbol {
    Named(NamedKey),
    Unicode(char),
}

/// The table of key names, in lookup order.
pub open spec fn key_table() -> Seq<(Seq<char>, NamedKey)> {
    seq![
        ("Backspace"@, NamedKey::Backspace),
        ("Delete"@, NamedKey::Delete),
        ("Tab"@, NamedKey::Tab),
        ("Enter"@, NamedKey::Return),
        ("Shift"@, NamedKey::Shift),
        ("ShiftLeft"@, NamedKey::LShift),
        ("ShiftRight"@, NamedKey::RShift),
        ("Control"@, NamedKey::Control),
        ("ControlLeft"@, NamedKey::LControl),
        ("ControlRight"@, NamedKey::RControl),
        ("Alt"@, NamedKey::Alt),
        ("AltLeft"@, NamedKey::Alt),
        ("AltRight"@, NamedKey::Alt),
        ("Meta"@, NamedKey::Meta),
        ("MetaLeft"@, NamedKey::Meta),
        ("MetaRight"@, NamedKey::Meta),
        ("CapsLock"@, NamedKey::CapsLock),
        ("Escape"@, NamedKey::Escape),
        ("Space"@, NamedKey::Space),
        ("PageUp"@, NamedKey::PageUp),
        ("PageDown"@, NamedKey::PageDown),
        ("End"@, NamedKey::End),
        ("Home"@, NamedKey::Home),
        ("ArrowLeft"@, NamedKey::LeftArrow),
        ("ArrowUp"@, NamedKey::UpArrow),
        ("ArrowRight"@, NamedKey::RightArrow),
        ("ArrowDown"@, NamedKey::DownArrow),
        ("F1"@, NamedKey::F1),
        ("F2"@, NamedKey::F2),
        ("F3"@, NamedKey::F3),
        ("F4"@, NamedKey::F4),
        ("F5"@, NamedKey::F5),
        ("F6"@, NamedKey::F6),
        ("F7"@, NamedKey::F7),
        ("F8"@, NamedKey::F8),
        ("F9"@, NamedKey::F9),
        ("F10"@, NamedKey::F10),
        ("F11"@, NamedKey::F11),
        ("F12"@, NamedKey::F12),
        ("F13"@, NamedKey::F13),
        ("F14"@, NamedKey::F14),
        ("F15"@, NamedKey::F15),
        ("F16"@, NamedKey::F16),
        ("F17"@, NamedKey::F17),
        ("F18"@, NamedKey::F18),
        ("F19"@, NamedKey::F19),
        ("F20"@, NamedKey::F20),
    ]
}

/// The key of the first entry of `t`, from index `start` on, whose name is
/// `name`.
pub open spec fn find_key_from(t: Seq<(Seq<char>, NamedKey)>, name: Seq<char>, start: int) -> Option<NamedKey>
    decreases t.len() - start,
{
    if start < 0 || start >= t.len() {
        None
    } else if t[start].0 == name {
        Some(t[start].1)
    } else {
        find_key_from(t, name, start + 1)
    }
}

/// The symbolic key that the table gives to `name`, if any.
pub open spec fn named_key_of(name: Seq<char>) -> Option<NamedKey> {
    find_key_from(key_table(), name, 0)
}

/// The preferred name of each symbolic key: the first one the table gives it.
pub open spec fn key_name(k: NamedKey) -> Seq<char> {
    match k {
        NamedKey::Backspace => "Backspace"@,
        NamedKey::Delete => "Delete"@,
        NamedKey::Tab => "Tab"@,
        NamedKey::Return => "Enter"@,
        NamedKey::Shift => "Shift"@,
        NamedKey::LShift => "ShiftLeft"@,
        NamedKey::RShift => "ShiftRight"@,
        NamedKey::Control => "Control"@,
        NamedKey::LControl => "ControlLeft"@,
        NamedKey::RControl => "ControlRight"@,
        NamedKey::Alt => "Alt"@,
        NamedKey::Meta => "Meta"@,
        NamedKey::CapsLock => "CapsLock"@,
        NamedKey::Escape => "Escape"@,
        NamedKey::Space => "Space"@,
        NamedKey::PageUp => "PageUp"@,
        NamedKey::PageDown => "PageDown"@,
        NamedKey::End => "End"@,
        NamedKey::Home => "Home"@,
        NamedKey::LeftArrow => "ArrowLeft"@,
        NamedKey::UpArrow => "ArrowUp"@,
        NamedKey::RightArrow => "ArrowRight"@,
        NamedKey::DownArrow => "ArrowDown"@,
        NamedKey::F1 => "F1"@,
        NamedKey::F2 => "F2"@,
        NamedKey::F3 => "F3"@,
        NamedKey::F4 => "F4"@,
        NamedKey::F5 => "F5"@,
        NamedKey::F6 => "F6"@,
        NamedKey::F7 => "F7"@,
        NamedKey::F8 => "F8"@,
        NamedKey::F9 => "F9"@,
        NamedKey::F10 => "F10"@,
        NamedKey::F11 => "F11"@,
        NamedKey::F12 => "F12"@,
        NamedKey::F13 => "F13"@,
        NamedKey::F14 => "F14"@,
        NamedKey::F15 => "F15"@,
        NamedKey::F16 => "F16"@,
        NamedKey::F17 => "F17"@,
        NamedKey::F18 => "F18"@,
        NamedKey::F19 => "F19"@,
        NamedKey::F20 => "F20"@,
    }
}

/// The table, as executable data.
pub fn named_key_table() -> (r: Vec<(&'static str, NamedKey)>)
    ensures
        r@.len() == key_table().len(),
        forall|i: int| 0 <= i < r@.len() ==> (#[trigger] r@[i]).0@ == key_table()[i].0
            && r@[i].1 == key_table()[i].1,
{
    vec![
        ("Backspace", NamedKey::Backspace),
        ("Delete", NamedKey::Delete),
        ("Tab", NamedKey::Tab),
        ("Enter", NamedKey::Return),
        ("Shift", NamedKey::Shift),
        ("ShiftLeft", NamedKey::LShift),
        ("ShiftRight", NamedKey::RShift),
        ("Control", NamedKey::Control),
        ("ControlLeft", NamedKey::LControl),
        ("ControlRight", NamedKey::RControl),
        ("Alt", NamedKey::Alt),
        ("AltLeft", NamedKey::Alt),
        ("AltRight", NamedKey::Alt),
        ("Meta", NamedKey::Meta),
        ("MetaLeft", NamedKey::Meta),
        ("MetaRight", NamedKey::Meta),
        ("CapsLock", NamedKey::CapsLock),
        ("Escape", NamedKey::Escape),
        ("Space", NamedKey::Space),
        ("PageUp", NamedKey::PageUp),
        ("PageDown", NamedKey::PageDown),
        ("End", NamedKey::End),
        ("Home", NamedKey::Home),
        ("ArrowLeft", NamedKey::LeftArrow),
        ("ArrowUp", NamedKey::UpArrow),
        ("ArrowRight", NamedKey::RightArrow),
        ("ArrowDown", NamedKey::DownArrow),
        ("F1", NamedKey::F1),
        ("F2", NamedKey::F2),
        ("F3", NamedKey::F3),
        ("F4", NamedKey::F4),
        ("F5", NamedKey::F5),
        ("F6", NamedKey::F6),
        ("F7", NamedKey::F7),
        ("F8", NamedKey::F8),
        ("F9", NamedKey::F9),
        ("F10", NamedKey::F10),
        ("F11", NamedKey::F11),
        ("F12", NamedKey::F12),
        ("F13", NamedKey::F13),
        ("F14", NamedKey::F14),
        ("F15", NamedKey::F15),
        ("F16", NamedKey::F16),
        ("F17", NamedKey::F17),
        ("F18", NamedKey::F18),
        ("F19", NamedKey::F19),
        ("F20", NamedKey::F20),
    ]
}

/// Looks `name` up in the table of key names.
pub fn lookup_named_key(name: &str) -> (r: Option<NamedKey>)
    ensures
        r == named_key_of(name@),
{
    let table = named_key_table();
    let mut i: usize = 0;
    while i < table.len()
        invariant
            table@.len() == key_table().len(),
            forall|j: int| 0 <= j < table@.len() ==> (#[trigger] table@[j]).0@ == key_table()[j].0
                && table@[j].1 == key_table()[j].1,
            0 <= i <= table@.len(),
            find_key_from(key_table(), name@, 0) == find_key_from(key_table(), name@, i as int),
        decreases table@.len() - i,
    {
        let (candidate, key) = table[i];
        if same_text(name, candidate) {
            return Some(key);
        }
        i = i + 1;
    }
    None
}

/// Length, first two and last character: enough to tell the table's names
/// apart.
spec fn name_fingerprint(s: Seq<char>) -> (nat, char, char, char) {
    (s.len(), s[0], s[1], s[s.len() - 1])
}

/// No two entries of the table share a name.
pub proof fn lemma_key_names_distinct()
    ensures
        forall|i: int, j: int|
            0 <= i < key_table().len() && 0 <= j < key_table().len() && i != j
                ==> #[trigger] key_table()[i].0 != #[trigger] key_table()[j].0,
{
    reveal_strlit("Backspace");
    reveal_strlit("Delete");
    reveal_strlit("Tab");
    reveal_strlit("Enter");
    reveal_strlit("Shift");
    reveal_strlit("ShiftLeft");
    reveal_strlit("ShiftRight");
    reveal_strlit("Control");
    reveal_strlit("ControlLeft");
    reveal_strlit("ControlRight");
    reveal_strlit("Alt");
    reveal_strlit("AltLeft");
    reveal_strlit("AltRight");
    reveal_strlit("Meta");
    reveal_strlit("MetaLeft");
    reveal_strlit("MetaRight");
    reveal_strlit("CapsLock");
    reveal_strlit("Escape");
    reveal_strlit("Space");
    reveal_strlit("PageUp");
    reveal_strlit("PageDown");
    reveal_strlit("End");
    reveal_strlit("Home");
    reveal_strlit("ArrowLeft");
    reveal_strlit("ArrowUp");
    reveal_strlit("ArrowRight");
    reveal_strlit("ArrowDown");
    reveal_strlit("F1");
    reveal_strlit("F2");
    reveal_strlit("F3");
    reveal_strlit("F4");
    reveal_strlit("F5");
    reveal_strlit("F6");
    reveal_strlit("F7");
    reveal_strlit("F8");
    reveal_strlit("F9");
    reveal_strlit("F10");
    reveal_strlit("F11");
    reveal_strlit("F12");
    reveal_strlit("F13");
    reveal_strlit("F14");
    reveal_strlit("F15");
    reveal_strlit("F16");
    reveal_strlit("F17");
    reveal_strlit("F18");
    reveal_strlit("F19");
    reveal_strlit("F20");
    let t = key_table();
    let fps = t.map_values(|e: (Seq<char>, NamedKey)| name_fingerprint(e.0));
    assert forall|i: int, j: int| 0 <= i < t.len() && 0 <= j < t.len() && i != j implies
        #[trigger] fps[i] != #[trigger] fps[j] by {}
    assert forall|i: int, j: int| 0 <= i < t.len() && 0 <= j < t.len() && i != j implies
        #[trigger] t[i].0 != #[trigger] t[j].0 by {
        assert(fps[i] != fps[j]);
    }
}

/// Searching from `start` finds the entry at `i` when its name is `name` and
/// no entry between them has that name.
proof fn lemma_find_first(t: Seq<(Seq<char>, NamedKey)>, name: Seq<char>, start: int, i: int)
    requires
        0 <= start <= i < t.len(),
        t[i].0 == name,
        forall|j: int| start <= j < i ==> (#[trigger] t[j]).0 != name,
    ensures
        find_key_from(t, name, start) == Some(t[i].1),
    decreases i - start,
{
    if start < i {
        lemma_find_first(t, name, start + 1, i);
    }
}

/// Every name of the table resolves to the key beside it, and identifies that
/// entry alone.
pub proof fn lemma_table_names_resolve(i: int)
    requires
        0 <= i < key_table().len(),
    ensures
        named_key_of(key_table()[i].0) == Some(key_table()[i].1),
        forall|j: int| 0 <= j < key_table().len() && (#[trigger] key_table()[j]).0 == key_table()[i].0
            ==> j == i,
{
    lemma_key_names_distinct();
    lemma_find_first(key_table(), key_table()[i].0, 0, i);
}

/// Key to name and back: the preferred name of every symbolic key is a name
/// of the table, standing beside that key, and resolves to it.
pub proof fn lemma_key_name_round_trip(k: NamedKey)
    ensures
        named_key_of(key_name(k)) == Some(k),
        exists|i: int| 0 <= i < key_table().len() && #[trigger] key_table()[i] == (key_name(k), k),
{
    match k {
        NamedKey::Backspace => lemma_table_names_resolve(0),
        NamedKey::Delete => lemma_table_names_resolve(1),
        NamedKey::Tab => lemma_table_names_resolve(2),
        NamedKey::Return => lemma_table_names_resolve(3),
        NamedKey::Shift => lemma_table_names_resolve(4),
        NamedKey::LShift => lemma_table_names_resolve(5),
        NamedKey::RShift => lemma_table_names_resolve(6),
        NamedKey::Control => lemma_table_names_resolve(7),
        NamedKey::LControl => lemma_table_names_resolve(8),
        NamedKey::RControl => lemma_table_names_resolve(9),
        NamedKey::Alt => lemma_table_names_resolve(10),
        NamedKey::Meta => lemma_table_names_resolve(13),
        NamedKey::CapsLock => lemma_table_names_resolve(16),
        NamedKey::Escape => lemma_table_names_resolve(17),
        NamedKey::Space => lemma_table_names_resolve(18),
        NamedKey::PageUp => lemma_table_names_resolve(19),
        NamedKey::PageDown => lemma_table_names_resolve(20),
        NamedKey::End => lemma_table_names_resolve(21),
        NamedKey::Home => lemma_table_names_resolve(22),
        NamedKey::LeftArrow => lemma_table_names_resolve(23),
        NamedKey::UpArrow => lemma_table_names_resolve(24),
        NamedKey::RightArrow => lemma_table_names_resolve(25),
        NamedKey::DownArrow => lemma_table_names_resolve(26),
        NamedKey::F1 => lemma_table_names_resolve(27),
        NamedKey::F2 => lemma_table_names_resolve(28),
        NamedKey::F3 => lemma_table_names_resolve(29),
        NamedKey::F4 => lemma_table_names_resolve(30),
        NamedKey::F5 => lemma_table_names_resolve(31),
        NamedKey::F6 => lemma_table_names_resolve(32),
        NamedKey::F7 => lemma_table_names_resolve(33),
        NamedKey::F8 => lemma_table_names_resolve(34),
        NamedKey::F9 => lemma_table_names_resolve(35),
        NamedKey::F10 => lemma_table_names_resolve(36),
        NamedKey::F11 => lemma_table_names_resolve(37),
        NamedKey::F12 => lemma_table_names_resolve(38),
        NamedKey::F13 => lemma_table_names_resolve(39),
        NamedKey::F14 => lemma_table_names_resolve(40),
        NamedKey::F15 => lemma_table_names_resolve(41),
        NamedKey::F16 => lemma_table_names_resolve(42),
        NamedKey::F17 => lemma_table_names_resolve(43),
        NamedKey::F18 => lemma_table_names_resolve(44),
        NamedKey::F19 => lemma_table_names_resolve(45),
        NamedKey::F20 => lemma_table_names_resolve(46),
    }
}

} // verus!
