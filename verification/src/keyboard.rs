//! Keys, the codes that name them, and which keys are held down.

use vstd::prelude::*;
use vstd::std_specs::cmp::PartialEqSpecImpl;
use crate::modifiers::{ALT, CTRL, META, SHIFT};

verus! {

/// A key of the keyboard. A key whose code the library has no name for is
/// kept as [`Key::Unknown`], with its code.
#[derive(Debug, Clone, Eq, Hash)]
pub enum Key {
    A, B, C, D, E, F, G, H, I, J, K, L, M, N, O, P, Q, R, S, T, U, V, W, X, Y, Z,
    Num0, Num1, Num2, Num3, Num4, Num5, Num6, Num7, Num8, Num9,
    Escape, Space, Enter, Tab, Backspace, Insert, Delete,
    Right, Left, Up, Down, PageUp, PageDown, Home, End,
    CapsLock, ScrollLock, NumLock, PrintScreen, Pause,
    F1, F2, F3, F4, F5, F6, F7, F8, F9, F10, F11, F12,
    Numpad0, Numpad1, Numpad2, Numpad3, Numpad4, Numpad5, Numpad6, Numpad7, Numpad8, Numpad9,
    NumpadAdd, NumpadSubtract, NumpadMultiply, NumpadDivide, NumpadDecimal,
    NumpadEnter, NumpadEqual,
    LeftShift, LeftControl, LeftAlt, LeftSuper,
    RightShift, RightControl, RightAlt, RightSuper,
    Backslash, Backquote, BracketLeft, BracketRight, Comma, Minus, Period, Quote, Semicolon, Slash,
    Unknown(String),
}

impl Key {
    /// The place of the key's variant in the declaration, counted from 0.
    pub open spec fn ordinal(&self) -> nat {
        match self {
            Key::A => 0,
            Key::B => 1,
            Key::C => 2,
            Key::D => 3,
            Key::E => 4,
            Key::F => 5,
            Key::G => 6,
            Key::H => 7,
            Key::I => 8,
            Key::J => 9,
            Key::K => 10,
            Key::L => 11,
            Key::M => 12,
            Key::N => 13,
            Key::O => 14,
            Key::P => 15,
            Key::Q => 16,
            Key::R => 17,
            Key::S => 18,
            Key::T => 19,
            Key::U => 20,
            Key::V => 21,
            Key::W => 22,
            Key::X => 23,
            Key::Y => 24,
            Key::Z => 25,
            Key::Num0 => 26,
            Key::Num1 => 27,
            Key::Num2 => 28,
            Key::Num3 => 29,
            Key::Num4 => 30,
            Key::Num5 => 31,
            Key::Num6 => 32,
            Key::Num7 => 33,
            Key::Num8 => 34,
            Key::Num9 => 35,
            Key::Escape => 36,
            Key::Space => 37,
            Key::Enter => 38,
            Key::Tab => 39,
            Key::Backspace => 40,
            Key::Insert => 41,
            Key::Delete => 42,
            Key::Right => 43,
            Key::Left => 44,
            Key::Up => 45,
            Key::Down => 46,
            Key::PageUp => 47,
            Key::PageDown => 48,
            Key::Home => 49,
            Key::End => 50,
            Key::CapsLock => 51,
            Key::ScrollLock => 52,
            Key::NumLock => 53,
            Key::PrintScreen => 54,
            Key::Pause => 55,
            Key::F1 => 56,
            Key::F2 => 57,
            Key::F3 => 58,
            Key::F4 => 59,
            Key::F5 => 60,
            Key::F6 => 61,
            Key::F7 => 62,
            Key::F8 => 63,
            Key::F9 => 64,
            Key::F10 => 65,
            Key::F11 => 66,
            Key::F12 => 67,
            Key::Numpad0 => 68,
            Key::Numpad1 => 69,
            Key::Numpad2 => 70,
            Key::Numpad3 => 71,
            Key::Numpad4 => 72,
            Key::Numpad5 => 73,
            Key::Numpad6 => 74,
            Key::Numpad7 => 75,
            Key::Numpad8 => 76,
            Key::Numpad9 => 77,
            Key::NumpadAdd => 78,
            Key::NumpadSubtract => 79,
            Key::NumpadMultiply => 80,
            Key::NumpadDivide => 81,
            Key::NumpadDecimal => 82,
            Key::NumpadEnter => 83,
            Key::NumpadEqual => 84,
            Key::LeftShift => 85,
            Key::LeftControl => 86,
            Key::LeftAlt => 87,
            Key::LeftSuper => 88,
            Key::RightShift => 89,
            Key::RightControl => 90,
            Key::RightAlt => 91,
            Key::RightSuper => 92,
            Key::Backslash => 93,
            Key::Backquote => 94,
            Key::BracketLeft => 95,
            Key::BracketRight => 96,
            Key::Comma => 97,
            Key::Minus => 98,
            Key::Period => 99,
            Key::Quote => 100,
            Key::Semicolon => 101,
            Key::Slash => 102,
            Key::Unknown(_) => 103,
        }
    }

    /// The code that names the key: that of a key event for a key with a
    /// variant of its own, and the code it was made from for
    /// [`Key::Unknown`].
    pub open spec fn code(&self) -> Seq<char> {
        match self {
            Key::A => "KeyA"@,
            Key::B => "KeyB"@,
            Key::C => "KeyC"@,
            Key::D => "KeyD"@,
            Key::E => "KeyE"@,
            Key::F => "KeyF"@,
            Key::G => "KeyG"@,
            Key::H => "KeyH"@,
            Key::I => "KeyI"@,
            Key::J => "KeyJ"@,
            Key::K => "KeyK"@,
            Key::L => "KeyL"@,
            Key::M => "KeyM"@,
            Key::N => "KeyN"@,
            Key::O => "KeyO"@,
            Key::P => "KeyP"@,
            Key::Q => "KeyQ"@,
            Key::R => "KeyR"@,
            Key::S => "KeyS"@,
            Key::T => "KeyT"@,
            Key::U => "KeyU"@,
            Key::V => "KeyV"@,
            Key::W => "KeyW"@,
            Key::X => "KeyX"@,
            Key::Y => "KeyY"@,
            Key::Z => "KeyZ"@,
            Key::Num0 => "Digit0"@,
            Key::Num1 => "Digit1"@,
            Key::Num2 => "Digit2"@,
            Key::Num3 => "Digit3"@,
            Key::Num4 => "Digit4"@,
            Key::Num5 => "Digit5"@,
            Key::Num6 => "Digit6"@,
            Key::Num7 => "Digit7"@,
            Key::Num8 => "Digit8"@,
            Key::Num9 => "Digit9"@,
            Key::Escape => "Escape"@,
            Key::Space => "Space"@,
            Key::Enter => "Enter"@,
            Key::Tab => "Tab"@,
            Key::Backspace => "Backspace"@,
            Key::Insert => "Insert"@,
            Key::Delete => "Delete"@,
            Key::Right => "ArrowRight"@,
            Key::Left => "ArrowLeft"@,
            Key::Up => "ArrowUp"@,
            Key::Down => "ArrowDown"@,
            Key::PageUp => "PageUp"@,
            Key::PageDown => "PageDown"@,
            Key::Home => "Home"@,
            Key::End => "End"@,
            Key::CapsLock => "CapsLock"@,
            Key::ScrollLock => "ScrollLock"@,
            Key::NumLock => "NumLock"@,
            Key::PrintScreen => "PrintScreen"@,
            Key::Pause => "Pause"@,
            Key::F1 => "F1"@,
            Key::F2 => "F2"@,
            Key::F3 => "F3"@,
            Key::F4 => "F4"@,
            Key::F5 => "F5"@,
            Key::F6 => "F6"@,
            Key::F7 => "F7"@,
            Key::F8 => "F8"@,
            Key::F9 => "F9"@,
            Key::F10 => "F10"@,
            Key::F11 => "F11"@,
            Key::F12 => "F12"@,
            Key::Numpad0 => "Numpad0"@,
            Key::Numpad1 => "Numpad1"@,
            Key::Numpad2 => "Numpad2"@,
            Key::Numpad3 => "Numpad3"@,
            Key::Numpad4 => "Numpad4"@,
            Key::Numpad5 => "Numpad5"@,
            Key::Numpad6 => "Numpad6"@,
            Key::Numpad7 => "Numpad7"@,
            Key::Numpad8 => "Numpad8"@,
            Key::Numpad9 => "Numpad9"@,
            Key::NumpadAdd => "NumpadAdd"@,
            Key::NumpadSubtract => "NumpadSubtract"@,
            Key::NumpadMultiply => "NumpadMultiply"@,
            Key::NumpadDivide => "NumpadDivide"@,
            Key::NumpadDecimal => "NumpadDecimal"@,
            Key::NumpadEnter => "NumpadEnter"@,
            Key::NumpadEqual => "NumpadEqual"@,
            Key::LeftShift => "ShiftLeft"@,
            Key::LeftControl => "ControlLeft"@,
            Key::LeftAlt => "AltLeft"@,
            Key::LeftSuper => "MetaLeft"@,
            Key::RightShift => "ShiftRight"@,
            Key::RightControl => "ControlRight"@,
            Key::RightAlt => "AltRight"@,
            Key::RightSuper => "MetaRight"@,
            Key::Backslash => "Backslash"@,
            Key::Backquote => "Backquote"@,
            Key::BracketLeft => "BracketLeft"@,
            Key::BracketRight => "BracketRight"@,
            Key::Comma => "Comma"@,
            Key::Minus => "Minus"@,
            Key::Period => "Period"@,
            Key::Quote => "Quote"@,
            Key::Semicolon => "Semicolon"@,
            Key::Slash => "Slash"@,
            Key::Unknown(code) => code@,
        }
    }

    /// The code carried by [`Key::Unknown`]; empty for every other key.
    pub open spec fn unknown_code(&self) -> Seq<char> {
        match self {
            Key::Unknown(code) => code@,
            _ => Seq::empty(),
        }
    }

    /// The number of the key's variant: its `ordinal`.
    pub fn index(&self) -> (i: u8)
        ensures
            i == self.ordinal(),
    {
        match self {
            Key::A => 0,
            Key::B => 1,
            Key::C => 2,
            Key::D => 3,
            Key::E => 4,
            Key::F => 5,
            Key::G => 6,
            Key::H => 7,
            Key::I => 8,
            Key::J => 9,
            Key::K => 10,
            Key::L => 11,
            Key::M => 12,
            Key::N => 13,
            Key::O => 14,
            Key::P => 15,
            Key::Q => 16,
            Key::R => 17,
            Key::S => 18,
            Key::T => 19,
            Key::U => 20,
            Key::V => 21,
            Key::W => 22,
            Key::X => 23,
            Key::Y => 24,
            Key::Z => 25,
            Key::Num0 => 26,
            Key::Num1 => 27,
            Key::Num2 => 28,
            Key::Num3 => 29,
            Key::Num4 => 30,
            Key::Num5 => 31,
            Key::Num6 => 32,
            Key::Num7 => 33,
            Key::Num8 => 34,
            Key::Num9 => 35,
            Key::Escape => 36,
            Key::Space => 37,
            Key::Enter => 38,
            Key::Tab => 39,
            Key::Backspace => 40,
            Key::Insert => 41,
            Key::Delete => 42,
            Key::Right => 43,
            Key::Left => 44,
            Key::Up => 45,
            Key::Down => 46,
            Key::PageUp => 47,
            Key::PageDown => 48,
            Key::Home => 49,
            Key::End => 50,
            Key::CapsLock => 51,
            Key::ScrollLock => 52,
            Key::NumLock => 53,
            Key::PrintScreen => 54,
            Key::Pause => 55,
            Key::F1 => 56,
            Key::F2 => 57,
            Key::F3 => 58,
            Key::F4 => 59,
            Key::F5 => 60,
            Key::F6 => 61,
            Key::F7 => 62,
            Key::F8 => 63,
            Key::F9 => 64,
            Key::F10 => 65,
            Key::F11 => 66,
            Key::F12 => 67,
            Key::Numpad0 => 68,
            Key::Numpad1 => 69,
            Key::Numpad2 => 70,
            Key::Numpad3 => 71,
            Key::Numpad4 => 72,
            Key::Numpad5 => 73,
            Key::Numpad6 => 74,
            Key::Numpad7 => 75,
            Key::Numpad8 => 76,
            Key::Numpad9 => 77,
            Key::NumpadAdd => 78,
            Key::NumpadSubtract => 79,
            Key::NumpadMultiply => 80,
            Key::NumpadDivide => 81,
            Key::NumpadDecimal => 82,
            Key::NumpadEnter => 83,
            Key::NumpadEqual => 84,
            Key::LeftShift => 85,
            Key::LeftControl => 86,
            Key::LeftAlt => 87,
            Key::LeftSuper => 88,
            Key::RightShift => 89,
            Key::RightControl => 90,
            Key::RightAlt => 91,
            Key::RightSuper => 92,
            Key::Backslash => 93,
            Key::Backquote => 94,
            Key::BracketLeft => 95,
            Key::BracketRight => 96,
            Key::Comma => 97,
            Key::Minus => 98,
            Key::Period => 99,
            Key::Quote => 100,
            Key::Semicolon => 101,
            Key::Slash => 102,
            Key::Unknown(_) => 103,
        }
    }
}

impl View for Key {
    type V = (nat, Seq<char>);

    /// What tells one key from another: the variant, and for
    /// [`Key::Unknown`] its code.
    open spec fn view(&self) -> (nat, Seq<char>) {
        (self.ordinal(), self.unknown_code())
    }
}

impl PartialEq for Key {
    fn eq(&self, other: &Key) -> (r: bool) {
        match self {
            Key::Unknown(a) => match other {
                Key::Unknown(b) => *a == *b,
                _ => false,
            },
            _ => self.index() == other.index(),
        }
    }
}

impl PartialEqSpecImpl for Key {
    open spec fn obeys_eq_spec() -> bool {
        true
    }

    open spec fn eq_spec(&self, other: &Key) -> bool {
        self@ == other@
    }
}

/// Whether the two hold the same characters.
fn same_text(a: &String, b: &str) -> (r: bool)
    ensures
        r == (a@ == b@),
{
    let other = b.to_owned();
    *a == other
}

/// What tells one key from another: see the view of [`Key`].
pub type KeyId = (nat, Seq<char>);

/// What the keyboard last heard of one key.
#[derive(Debug)]
struct KeyEntry {
    key: Key,
    is_down: bool,
    modifiers: u8,
}

/// Which keys are held down, and with which modifiers each went down.
#[derive(Debug)]
pub struct Keyboard {
    entries: Vec<KeyEntry>,
}

/// Whether a key counts as held: it was last heard of going down, and the
/// modifiers it went down with match the modifiers asked for. A strict
/// match wants exactly those modifiers, a loose one at least those. A key
/// never heard of is up.
pub open spec fn held(keys: Map<KeyId, (bool, u8)>, key: KeyId, mods: u8, strict: bool) -> bool {
    let (is_down, key_mods) = if keys.dom().contains(key) {
        keys[key]
    } else {
        (false, 0u8)
    };
    is_down && if strict {
        mods == key_mods
    } else {
        mods & key_mods == mods
    }
}

impl KeyEntry {
    spec fn value(&self) -> (bool, u8) {
        (self.is_down, self.modifiers)
    }
}

/// The map that a list of entries stands for. Of two entries for one key
/// the earlier counts.
spec fn listed(entries: Seq<KeyEntry>) -> Map<KeyId, (bool, u8)>
    decreases entries.len(),
{
    if entries.len() == 0 {
        Map::empty()
    } else {
        listed(entries.drop_first()).insert(entries[0].key@, entries[0].value())
    }
}

proof fn lemma_listed_first(entries: Seq<KeyEntry>, id: KeyId, i: int)
    requires
        0 <= i < entries.len(),
        entries[i].key@ == id,
        forall|j: int| 0 <= j < i ==> entries[j].key@ != id,
    ensures
        listed(entries).dom().contains(id),
        listed(entries)[id] == entries[i].value(),
    decreases entries.len(),
{
    if i > 0 {
        assert(entries[0].key@ != id);
        let rest = entries.drop_first();
        assert forall|j: int| 0 <= j < i - 1 implies rest[j].key@ != id by {
            assert(rest[j] == entries[j + 1]);
        }
        lemma_listed_first(rest, id, i - 1);
    }
}

proof fn lemma_listed_absent(entries: Seq<KeyEntry>, id: KeyId)
    requires
        forall|j: int| 0 <= j < entries.len() ==> entries[j].key@ != id,
    ensures
        !listed(entries).dom().contains(id),
    decreases entries.len(),
{
    if entries.len() > 0 {
        assert(entries[0].key@ != id);
        let rest = entries.drop_first();
        assert forall|j: int| 0 <= j < rest.len() implies rest[j].key@ != id by {
            assert(rest[j] == entries[j + 1]);
        }
        lemma_listed_absent(rest, id);
    }
}

proof fn lemma_listed_replace(entries: Seq<KeyEntry>, i: int, entry: KeyEntry)
    requires
        0 <= i < entries.len(),
        entries[i].key@ == entry.key@,
        forall|j: int| 0 <= j < i ==> entries[j].key@ != entry.key@,
    ensures
        listed(entries.update(i, entry)) =~= listed(entries).insert(entry.key@, entry.value()),
    decreases entries.len(),
{
    let after = entries.update(i, entry);
    if i == 0 {
        assert(after.drop_first() =~= entries.drop_first());
    } else {
        assert(entries[0].key@ != entry.key@);
        let rest = entries.drop_first();
        assert forall|j: int| 0 <= j < i - 1 implies rest[j].key@ != entry.key@ by {
            assert(rest[j] == entries[j + 1]);
        }
        lemma_listed_replace(rest, i - 1, entry);
        assert(after.drop_first() =~= rest.update(i - 1, entry));
    }
}

proof fn lemma_listed_append(entries: Seq<KeyEntry>, entry: KeyEntry)
    requires
        forall|j: int| 0 <= j < entries.len() ==> entries[j].key@ != entry.key@,
    ensures
        listed(entries.push(entry)) =~= listed(entries).insert(entry.key@, entry.value()),
    decreases entries.len(),
{
    let after = entries.push(entry);
    if entries.len() == 0 {
        assert(after.drop_first() =~= entries);
    } else {
        assert(entries[0].key@ != entry.key@);
        let rest = entries.drop_first();
        assert forall|j: int| 0 <= j < rest.len() implies rest[j].key@ != entry.key@ by {
            assert(rest[j] == entries[j + 1]);
        }
        lemma_listed_append(rest, entry);
        assert(after.drop_first() =~= rest.push(entry));
    }
}

impl View for Keyboard {
    type V = Map<KeyId, (bool, u8)>;

    /// For each key heard of: whether it is down, and the modifiers it went
    /// down with.
    closed spec fn view(&self) -> Map<KeyId, (bool, u8)> {
        listed(self.entries@)
    }
}

impl Keyboard {
    /// A keyboard that has heard of no key.
    pub fn new() -> (keyboard: Keyboard)
        ensures
            keyboard@ == Map::<KeyId, (bool, u8)>::empty(),
    {
        Keyboard { entries: Vec::new() }
    }

    /// Where the key is first listed.
    fn position(&self, key: &Key) -> (at: Option<usize>)
        ensures
            match at {
                Some(i) => {
                    &&& i < self.entries@.len()
                    &&& self.entries@[i as int].key@ == key@
                    &&& forall|j: int| 0 <= j < i ==> self.entries@[j].key@ != key@
                },
                None => forall|i: int| 0 <= i < self.entries@.len() ==> self.entries@[i].key@ != key@,
            },
    {
        let mut i: usize = 0;
        while i < self.entries.len()
            invariant
                i <= self.entries@.len(),
                forall|j: int| 0 <= j < i ==> self.entries@[j].key@ != key@,
            decreases self.entries@.len() - i,
        {
            if self.entries[i].key == *key {
                return Some(i);
            }
            i += 1;
        }
        None
    }

    /// Notes what was heard of a key, in place of what was known of it.
    fn record(&mut self, key: Key, is_down: bool, modifiers: u8)
        ensures
            final(self)@ == old(self)@.insert(key@, (is_down, modifiers)),
    {
        let at = self.position(&key);
        let entry = KeyEntry { key, is_down, modifiers };
        match at {
            Some(i) => {
                proof {
                    lemma_listed_replace(self.entries@, i as int, entry);
                }
                self.entries.set(i, entry);
            },
            None => {
                proof {
                    lemma_listed_append(self.entries@, entry);
                }
                self.entries.push(entry);
            },
        }
    }

    /// Notes that the key went down, with the modifiers held at that time.
    pub fn on_keydown(&mut self, key: Key, modifiers: u8)
        ensures
            final(self)@ == old(self)@.insert(key@, (true, modifiers)),
    {
        self.record(key, true, modifiers);
    }

    /// Notes that the key came up.
    pub fn on_keyup(&mut self, key: Key)
        ensures
            final(self)@ == old(self)@.insert(key@, (false, 0u8)),
    {
        self.record(key, false, 0);
    }

    /// Whether the key is held with the modifiers `mods`: exactly those
    /// where `strict`, at least those otherwise.
    pub fn is_down(&mut self, key: Key, mods: u8, strict: bool) -> (down: bool)
        ensures
            final(self)@ == old(self)@,
            down == held(old(self)@, key@, mods, strict),
    {
        let at = self.position(&key);
        let (is_down, key_mods) = match at {
            Some(i) => {
                proof {
                    lemma_listed_first(self.entries@, key@, i as int);
                }
                (self.entries[i].is_down, self.entries[i].modifiers)
            },
            None => {
                proof {
                    lemma_listed_absent(self.entries@, key@);
                }
                (false, 0u8)
            },
        };
        let mods_match = if strict {
            mods == key_mods
        } else {
            mods & key_mods == mods
        };
        is_down && mods_match
    }

    /// Whether the key is not held, whatever the modifiers.
    pub fn is_up(&mut self, key: Key) -> (up: bool)
        ensures
            final(self)@ == old(self)@,
            up == !held(old(self)@, key@, 0u8, false),
    {
        !self.is_down(key, 0, false)
    }
}

/// Whether the code is that of a key with a variant of its own.
pub open spec fn is_known_code(code: Seq<char>) -> bool {
    exists|k: Key| !(k is Unknown) && #[trigger] k.code() == code
}

/// The key that a key event's code names: the key with that code where
/// there is one, and [`Key::Unknown`] with the code otherwise.
pub fn from_key_code(code: String) -> (key: Key)
    ensures
        key.code() == code@,
        key is Unknown <==> !is_known_code(code@),
{
    let ghost name = code@;
    let key =
        if same_text(&code, "KeyA") {
            Key::A
        } else if same_text(&code, "KeyB") {
            Key::B
        } else if same_text(&code, "KeyC") {
            Key::C
        } else if same_text(&code, "KeyD") {
            Key::D
        } else if same_text(&code, "KeyE") {
            Key::E
        } else if same_text(&code, "KeyF") {
            Key::F
        } else if same_text(&code, "KeyG") {
            Key::G
        } else if same_text(&code, "KeyH") {
            Key::H
        } else if same_text(&code, "KeyI") {
            Key::I
        } else if same_text(&code, "KeyJ") {
            Key::J
        } else if same_text(&code, "KeyK") {
            Key::K
        } else if same_text(&code, "KeyL") {
            Key::L
        } else if same_text(&code, "KeyM") {
            Key::M
        } else if same_text(&code, "KeyN") {
            Key::N
        } else if same_text(&code, "KeyO") {
            Key::O
        } else if same_text(&code, "KeyP") {
            Key::P
        } else if same_text(&code, "KeyQ") {
            Key::Q
        } else if same_text(&code, "KeyR") {
            Key::R
        } else if same_text(&code, "KeyS") {
            Key::S
        } else if same_text(&code, "KeyT") {
            Key::T
        } else if same_text(&code, "KeyU") {
            Key::U
        } else if same_text(&code, "KeyV") {
            Key::V
        } else if same_text(&code, "KeyW") {
            Key::W
        } else if same_text(&code, "KeyX") {
            Key::X
        } else if same_text(&code, "KeyY") {
            Key::Y
        } else if same_text(&code, "KeyZ") {
            Key::Z
        } else if same_text(&code, "Digit0") {
            Key::Num0
        } else if same_text(&code, "Digit1") {
            Key::Num1
        } else if same_text(&code, "Digit2") {
            Key::Num2
        } else if same_text(&code, "Digit3") {
            Key::Num3
        } else if same_text(&code, "Digit4") {
            Key::Num4
        } else if same_text(&code, "Digit5") {
            Key::Num5
        } else if same_text(&code, "Digit6") {
            Key::Num6
        } else if same_text(&code, "Digit7") {
            Key::Num7
        } else if same_text(&code, "Digit8") {
            Key::Num8
        } else if same_text(&code, "Digit9") {
            Key::Num9
        } else if same_text(&code, "Escape") {
            Key::Escape
        } else if same_text(&code, "Space") {
            Key::Space
        } else if same_text(&code, "Enter") {
            Key::Enter
        } else if same_text(&code, "Tab") {
            Key::Tab
        } else if same_text(&code, "Backspace") {
            Key::Backspace
        } else if same_text(&code, "Insert") {
            Key::Insert
        } else if same_text(&code, "Delete") {
            Key::Delete
        } else if same_text(&code, "ArrowRight") {
            Key::Right
        } else if same_text(&code, "ArrowLeft") {
            Key::Left
        } else if same_text(&code, "ArrowUp") {
            Key::Up
        } else if same_text(&code, "ArrowDown") {
            Key::Down
        } else if same_text(&code, "PageUp") {
            Key::PageUp
        } else if same_text(&code, "PageDown") {
            Key::PageDown
        } else if same_text(&code, "Home") {
            Key::Home
        } else if same_text(&code, "End") {
            Key::End
        } else if same_text(&code, "CapsLock") {
            Key::CapsLock
        } else if same_text(&code, "ScrollLock") {
            Key::ScrollLock
        } else if same_text(&code, "NumLock") {
            Key::NumLock
        } else if same_text(&code, "PrintScreen") {
            Key::PrintScreen
        } else if same_text(&code, "Pause") {
            Key::Pause
        } else if same_text(&code, "F1") {
            Key::F1
        } else if same_text(&code, "F2") {
            Key::F2
        } else if same_text(&code, "F3") {
            Key::F3
        } else if same_text(&code, "F4") {
            Key::F4
        } else if same_text(&code, "F5") {
            Key::F5
        } else if same_text(&code, "F6") {
            Key::F6
        } else if same_text(&code, "F7") {
            Key::F7
        } else if same_text(&code, "F8") {
            Key::F8
        } else if same_text(&code, "F9") {
            Key::F9
        } else if same_text(&code, "F10") {
            Key::F10
        } else if same_text(&code, "F11") {
            Key::F11
        } else if same_text(&code, "F12") {
            Key::F12
        } else if same_text(&code, "Numpad0") {
            Key::Numpad0
        } else if same_text(&code, "Numpad1") {
            Key::Numpad1
        } else if same_text(&code, "Numpad2") {
            Key::Numpad2
        } else if same_text(&code, "Numpad3") {
            Key::Numpad3
        } else if same_text(&code, "Numpad4") {
            Key::Numpad4
        } else if same_text(&code, "Numpad5") {
            Key::Numpad5
        } else if same_text(&code, "Numpad6") {
            Key::Numpad6
        } else if same_text(&code, "Numpad7") {
            Key::Numpad7
        } else if same_text(&code, "Numpad8") {
            Key::Numpad8
        } else if same_text(&code, "Numpad9") {
            Key::Numpad9
        } else if same_text(&code, "NumpadAdd") {
            Key::NumpadAdd
        } else if same_text(&code, "NumpadSubtract") {
            Key::NumpadSubtract
        } else if same_text(&code, "NumpadMultiply") {
            Key::NumpadMultiply
        } else if same_text(&code, "NumpadDivide") {
            Key::NumpadDivide
        } else if same_text(&code, "NumpadDecimal") {
            Key::NumpadDecimal
        } else if same_text(&code, "NumpadEnter") {
            Key::NumpadEnter
        } else if same_text(&code, "NumpadEqual") {
            Key::NumpadEqual
        } else if same_text(&code, "ShiftLeft") {
            Key::LeftShift
        } else if same_text(&code, "ControlLeft") {
            Key::LeftControl
        } else if same_text(&code, "AltLeft") {
            Key::LeftAlt
        } else if same_text(&code, "MetaLeft") {
            Key::LeftSuper
        } else if same_text(&code, "ShiftRight") {
            Key::RightShift
        } else if same_text(&code, "ControlRight") {
            Key::RightControl
        } else if same_text(&code, "AltRight") {
            Key::RightAlt
        } else if same_text(&code, "MetaRight") {
            Key::RightSuper
        } else if same_text(&code, "Backslash") {
            Key::Backslash
        } else if same_text(&code, "Backquote") {
            Key::Backquote
        } else if same_text(&code, "BracketLeft") {
            Key::BracketLeft
        } else if same_text(&code, "BracketRight") {
            Key::BracketRight
        } else if same_text(&code, "Comma") {
            Key::Comma
        } else if same_text(&code, "Minus") {
            Key::Minus
        } else if same_text(&code, "Period") {
            Key::Period
        } else if same_text(&code, "Quote") {
            Key::Quote
        } else if same_text(&code, "Semicolon") {
            Key::Semicolon
        } else if same_text(&code, "Slash") {
            Key::Slash
        } else {
            Key::Unknown(code)
        };
    proof {
        if !(key is Unknown) {
            assert(!(key is Unknown) && key.code() == name);
        }
    }
    key
}

/// The mask of the modifiers held: the sum of the bits of those that are.
pub open spec fn modifier_mask(shift: bool, ctrl: bool, alt: bool, meta: bool) -> u8 {
    ((if shift { SHIFT } else { 0u8 })
        + (if ctrl { CTRL } else { 0u8 })
        + (if alt { ALT } else { 0u8 })
        + (if meta { META } else { 0u8 })) as u8
}

/// What a key event says: the key that its code names, and the mask of the
/// modifiers held with it.
pub fn parse_key_event(code: String, shift: bool, ctrl: bool, alt: bool, meta: bool) -> (event: (Key, u8))
    ensures
        event.0.code() == code@,
        event.0 is Unknown <==> !is_known_code(code@),
        event.1 == modifier_mask(shift, ctrl, alt, meta),
{
    let key = from_key_code(code);
    let s: u8 = if shift { SHIFT } else { 0 };
    let c: u8 = if ctrl { CTRL } else { 0 };
    let a: u8 = if alt { ALT } else { 0 };
    let m: u8 = if meta { META } else { 0 };
    assert(s | c | a | m == s + c + a + m) by (bit_vector)
        requires
            s == 0 || s == 1,
            c == 0 || c == 2,
            a == 0 || a == 4,
            m == 0 || m == 8,
    ;
    let mods: u8 = s | c | a | m;
    (key, mods)
}

/// No two keys with a variant of their own share a code, so a code names at
/// most one of them.
#[verifier::spinoff_prover]
#[verifier::rlimit(60)]
pub proof fn codes_tell_keys_apart(a: Key, b: Key)
    requires
        !(a is Unknown),
        !(b is Unknown),
        a.code() == b.code(),
    ensures
        a == b,
{
    reveal_codes();
    assert(marks(a.code()) == marks(b.code()));
}

/// Enough of a code to tell it from every other: its length, its first
/// character and its last two.
spec fn marks(code: Seq<char>) -> (nat, char, char, char) {
    (code.len(), code[0], code[code.len() - 1], code[code.len() - 2])
}

/// Makes the characters of every code known to the verifier.
proof fn reveal_codes()
    ensures
        "KeyA"@ == seq!['K', 'e', 'y', 'A'],
        "KeyB"@ == seq!['K', 'e', 'y', 'B'],
        "KeyC"@ == seq!['K', 'e', 'y', 'C'],
        "KeyD"@ == seq!['K', 'e', 'y', 'D'],
        "KeyE"@ == seq!['K', 'e', 'y', 'E'],
        "KeyF"@ == seq!['K', 'e', 'y', 'F'],
        "KeyG"@ == seq!['K', 'e', 'y', 'G'],
        "KeyH"@ == seq!['K', 'e', 'y', 'H'],
        "KeyI"@ == seq!['K', 'e', 'y', 'I'],
        "KeyJ"@ == seq!['K', 'e', 'y', 'J'],
        "KeyK"@ == seq!['K', 'e', 'y', 'K'],
        "KeyL"@ == seq!['K', 'e', 'y', 'L'],
        "KeyM"@ == seq!['K', 'e', 'y', 'M'],
        "KeyN"@ == seq!['K', 'e', 'y', 'N'],
        "KeyO"@ == seq!['K', 'e', 'y', 'O'],
        "KeyP"@ == seq!['K', 'e', 'y', 'P'],
        "KeyQ"@ == seq!['K', 'e', 'y', 'Q'],
        "KeyR"@ == seq!['K', 'e', 'y', 'R'],
        "KeyS"@ == seq!['K', 'e', 'y', 'S'],
        "KeyT"@ == seq!['K', 'e', 'y', 'T'],
        "KeyU"@ == seq!['K', 'e', 'y', 'U'],
        "KeyV"@ == seq!['K', 'e', 'y', 'V'],
        "KeyW"@ == seq!['K', 'e', 'y', 'W'],
        "KeyX"@ == seq!['K', 'e', 'y', 'X'],
        "KeyY"@ == seq!['K', 'e', 'y', 'Y'],
        "KeyZ"@ == seq!['K', 'e', 'y', 'Z'],
        "Digit0"@ == seq!['D', 'i', 'g', 'i', 't', '0'],
        "Digit1"@ == seq!['D', 'i', 'g', 'i', 't', '1'],
        "Digit2"@ == seq!['D', 'i', 'g', 'i', 't', '2'],
        "Digit3"@ == seq!['D', 'i', 'g', 'i', 't', '3'],
        "Digit4"@ == seq!['D', 'i', 'g', 'i', 't', '4'],
        "Digit5"@ == seq!['D', 'i', 'g', 'i', 't', '5'],
        "Digit6"@ == seq!['D', 'i', 'g', 'i', 't', '6'],
        "Digit7"@ == seq!['D', 'i', 'g', 'i', 't', '7'],
        "Digit8"@ == seq!['D', 'i', 'g', 'i', 't', '8'],
        "Digit9"@ == seq!['D', 'i', 'g', 'i', 't', '9'],
        "Escape"@ == seq!['E', 's', 'c', 'a', 'p', 'e'],
        "Space"@ == seq!['S', 'p', 'a', 'c', 'e'],
        "Enter"@ == seq!['E', 'n', 't', 'e', 'r'],
        "Tab"@ == seq!['T', 'a', 'b'],
        "Backspace"@ == seq!['B', 'a', 'c', 'k', 's', 'p', 'a', 'c', 'e'],
        "Insert"@ == seq!['I', 'n', 's', 'e', 'r', 't'],
        "Delete"@ == seq!['D', 'e', 'l', 'e', 't', 'e'],
        "ArrowRight"@ == seq!['A', 'r', 'r', 'o', 'w', 'R', 'i', 'g', 'h', 't'],
        "ArrowLeft"@ == seq!['A', 'r', 'r', 'o', 'w', 'L', 'e', 'f', 't'],
        "ArrowUp"@ == seq!['A', 'r', 'r', 'o', 'w', 'U', 'p'],
        "ArrowDown"@ == seq!['A', 'r', 'r', 'o', 'w', 'D', 'o', 'w', 'n'],
        "PageUp"@ == seq!['P', 'a', 'g', 'e', 'U', 'p'],
        "PageDown"@ == seq!['P', 'a', 'g', 'e', 'D', 'o', 'w', 'n'],
        "Home"@ == seq!['H', 'o', 'm', 'e'],
        "End"@ == seq!['E', 'n', 'd'],
        "CapsLock"@ == seq!['C', 'a', 'p', 's', 'L', 'o', 'c', 'k'],
        "ScrollLock"@ == seq!['S', 'c', 'r', 'o', 'l', 'l', 'L', 'o', 'c', 'k'],
        "NumLock"@ == seq!['N', 'u', 'm', 'L', 'o', 'c', 'k'],
        "PrintScreen"@ == seq!['P', 'r', 'i', 'n', 't', 'S', 'c', 'r', 'e', 'e', 'n'],
        "Pause"@ == seq!['P', 'a', 'u', 's', 'e'],
        "F1"@ == seq!['F', '1'],
        "F2"@ == seq!['F', '2'],
        "F3"@ == seq!['F', '3'],
        "F4"@ == seq!['F', '4'],
        "F5"@ == seq!['F', '5'],
        "F6"@ == seq!['F', '6'],
        "F7"@ == seq!['F', '7'],
        "F8"@ == seq!['F', '8'],
        "F9"@ == seq!['F', '9'],
        "F10"@ == seq!['F', '1', '0'],
        "F11"@ == seq!['F', '1', '1'],
        "F12"@ == seq!['F', '1', '2'],
        "Numpad0"@ == seq!['N', 'u', 'm', 'p', 'a', 'd', '0'],
        "Numpad1"@ == seq!['N', 'u', 'm', 'p', 'a', 'd', '1'],
        "Numpad2"@ == seq!['N', 'u', 'm', 'p', 'a', 'd', '2'],
        "Numpad3"@ == seq!['N', 'u', 'm', 'p', 'a', 'd', '3'],
        "Numpad4"@ == seq!['N', 'u', 'm', 'p', 'a', 'd', '4'],
        "Numpad5"@ == seq!['N', 'u', 'm', 'p', 'a', 'd', '5'],
        "Numpad6"@ == seq!['N', 'u', 'm', 'p', 'a', 'd', '6'],
        "Numpad7"@ == seq!['N', 'u', 'm', 'p', 'a', 'd', '7'],
        "Numpad8"@ == seq!['N', 'u', 'm', 'p', 'a', 'd', '8'],
        "Numpad9"@ == seq!['N', 'u', 'm', 'p', 'a', 'd', '9'],
        "NumpadAdd"@ == seq!['N', 'u', 'm', 'p', 'a', 'd', 'A', 'd', 'd'],
        "NumpadSubtract"@ == seq!['N', 'u', 'm', 'p', 'a', 'd', 'S', 'u', 'b', 't', 'r', 'a', 'c', 't'],
        "NumpadMultiply"@ == seq!['N', 'u', 'm', 'p', 'a', 'd', 'M', 'u', 'l', 't', 'i', 'p', 'l', 'y'],
        "NumpadDivide"@ == seq!['N', 'u', 'm', 'p', 'a', 'd', 'D', 'i', 'v', 'i', 'd', 'e'],
        "NumpadDecimal"@ == seq!['N', 'u', 'm', 'p', 'a', 'd', 'D', 'e', 'c', 'i', 'm', 'a', 'l'],
        "NumpadEnter"@ == seq!['N', 'u', 'm', 'p', 'a', 'd', 'E', 'n', 't', 'e', 'r'],
        "NumpadEqual"@ == seq!['N', 'u', 'm', 'p', 'a', 'd', 'E', 'q', 'u', 'a', 'l'],
        "ShiftLeft"@ == seq!['S', 'h', 'i', 'f', 't', 'L', 'e', 'f', 't'],
        "ControlLeft"@ == seq!['C', 'o', 'n', 't', 'r', 'o', 'l', 'L', 'e', 'f', 't'],
        "AltLeft"@ == seq!['A', 'l', 't', 'L', 'e', 'f', 't'],
        "MetaLeft"@ == seq!['M', 'e', 't', 'a', 'L', 'e', 'f', 't'],
        "ShiftRight"@ == seq!['S', 'h', 'i', 'f', 't', 'R', 'i', 'g', 'h', 't'],
        "ControlRight"@ == seq!['C', 'o', 'n', 't', 'r', 'o', 'l', 'R', 'i', 'g', 'h', 't'],
        "AltRight"@ == seq!['A', 'l', 't', 'R', 'i', 'g', 'h', 't'],
        "MetaRight"@ == seq!['M', 'e', 't', 'a', 'R', 'i', 'g', 'h', 't'],
        "Backslash"@ == seq!['B', 'a', 'c', 'k', 's', 'l', 'a', 's', 'h'],
        "Backquote"@ == seq!['B', 'a', 'c', 'k', 'q', 'u', 'o', 't', 'e'],
        "BracketLeft"@ == seq!['B', 'r', 'a', 'c', 'k', 'e', 't', 'L', 'e', 'f', 't'],
        "BracketRight"@ == seq!['B', 'r', 'a', 'c', 'k', 'e', 't', 'R', 'i', 'g', 'h', 't'],
        "Comma"@ == seq!['C', 'o', 'm', 'm', 'a'],
        "Minus"@ == seq!['M', 'i', 'n', 'u', 's'],
        "Period"@ == seq!['P', 'e', 'r', 'i', 'o', 'd'],
        "Quote"@ == seq!['Q', 'u', 'o', 't', 'e'],
        "Semicolon"@ == seq!['S', 'e', 'm', 'i', 'c', 'o', 'l', 'o', 'n'],
        "Slash"@ == seq!['S', 'l', 'a', 's', 'h'],
{
    reveal_strlit("KeyA");
    assert("KeyA"@ =~= seq!['K', 'e', 'y', 'A']);
    reveal_strlit("KeyB");
    assert("KeyB"@ =~= seq!['K', 'e', 'y', 'B']);
    reveal_strlit("KeyC");
    assert("KeyC"@ =~= seq!['K', 'e', 'y', 'C']);
    reveal_strlit("KeyD");
    assert("KeyD"@ =~= seq!['K', 'e', 'y', 'D']);
    reveal_strlit("KeyE");
    assert("KeyE"@ =~= seq!['K', 'e', 'y', 'E']);
    reveal_strlit("KeyF");
    assert("KeyF"@ =~= seq!['K', 'e', 'y', 'F']);
    reveal_strlit("KeyG");
    assert("KeyG"@ =~= seq!['K', 'e', 'y', 'G']);
    reveal_strlit("KeyH");
    assert("KeyH"@ =~= seq!['K', 'e', 'y', 'H']);
    reveal_strlit("KeyI");
    assert("KeyI"@ =~= seq!['K', 'e', 'y', 'I']);
    reveal_strlit("KeyJ");
    assert("KeyJ"@ =~= seq!['K', 'e', 'y', 'J']);
    reveal_strlit("KeyK");
    assert("KeyK"@ =~= seq!['K', 'e', 'y', 'K']);
    reveal_strlit("KeyL");
    assert("KeyL"@ =~= seq!['K', 'e', 'y', 'L']);
    reveal_strlit("KeyM");
    assert("KeyM"@ =~= seq!['K', 'e', 'y', 'M']);
    reveal_strlit("KeyN");
    assert("KeyN"@ =~= seq!['K', 'e', 'y', 'N']);
    reveal_strlit("KeyO");
    assert("KeyO"@ =~= seq!['K', 'e', 'y', 'O']);
    reveal_strlit("KeyP");
    assert("KeyP"@ =~= seq!['K', 'e', 'y', 'P']);
    reveal_strlit("KeyQ");
    assert("KeyQ"@ =~= seq!['K', 'e', 'y', 'Q']);
    reveal_strlit("KeyR");
    assert("KeyR"@ =~= seq!['K', 'e', 'y', 'R']);
    reveal_strlit("KeyS");
    assert("KeyS"@ =~= seq!['K', 'e', 'y', 'S']);
    reveal_strlit("KeyT");
    assert("KeyT"@ =~= seq!['K', 'e', 'y', 'T']);
    reveal_strlit("KeyU");
    assert("KeyU"@ =~= seq!['K', 'e', 'y', 'U']);
    reveal_strlit("KeyV");
    assert("KeyV"@ =~= seq!['K', 'e', 'y', 'V']);
    reveal_strlit("KeyW");
    assert("KeyW"@ =~= seq!['K', 'e', 'y', 'W']);
    reveal_strlit("KeyX");
    assert("KeyX"@ =~= seq!['K', 'e', 'y', 'X']);
    reveal_strlit("KeyY");
    assert("KeyY"@ =~= seq!['K', 'e', 'y', 'Y']);
    reveal_strlit("KeyZ");
    assert("KeyZ"@ =~= seq!['K', 'e', 'y', 'Z']);
    reveal_strlit("Digit0");
    assert("Digit0"@ =~= seq!['D', 'i', 'g', 'i', 't', '0']);
    reveal_strlit("Digit1");
    assert("Digit1"@ =~= seq!['D', 'i', 'g', 'i', 't', '1']);
    reveal_strlit("Digit2");
    assert("Digit2"@ =~= seq!['D', 'i', 'g', 'i', 't', '2']);
    reveal_strlit("Digit3");
    assert("Digit3"@ =~= seq!['D', 'i', 'g', 'i', 't', '3']);
    reveal_strlit("Digit4");
    assert("Digit4"@ =~= seq!['D', 'i', 'g', 'i', 't', '4']);
    reveal_strlit("Digit5");
    assert("Digit5"@ =~= seq!['D', 'i', 'g', 'i', 't', '5']);
    reveal_strlit("Digit6");
    assert("Digit6"@ =~= seq!['D', 'i', 'g', 'i', 't', '6']);
    reveal_strlit("Digit7");
    assert("Digit7"@ =~= seq!['D', 'i', 'g', 'i', 't', '7']);
    reveal_strlit("Digit8");
    assert("Digit8"@ =~= seq!['D', 'i', 'g', 'i', 't', '8']);
    reveal_strlit("Digit9");
    assert("Digit9"@ =~= seq!['D', 'i', 'g', 'i', 't', '9']);
    reveal_strlit("Escape");
    assert("Escape"@ =~= seq!['E', 's', 'c', 'a', 'p', 'e']);
    reveal_strlit("Space");
    assert("Space"@ =~= seq!['S', 'p', 'a', 'c', 'e']);
    reveal_strlit("Enter");
    assert("Enter"@ =~= seq!['E', 'n', 't', 'e', 'r']);
    reveal_strlit("Tab");
    assert("Tab"@ =~= seq!['T', 'a', 'b']);
    reveal_strlit("Backspace");
    assert("Backspace"@ =~= seq!['B', 'a', 'c', 'k', 's', 'p', 'a', 'c', 'e']);
    reveal_strlit("Insert");
    assert("Insert"@ =~= seq!['I', 'n', 's', 'e', 'r', 't']);
    reveal_strlit("Delete");
    assert("Delete"@ =~= seq!['D', 'e', 'l', 'e', 't', 'e']);
    reveal_strlit("ArrowRight");
    assert("ArrowRight"@ =~= seq!['A', 'r', 'r', 'o', 'w', 'R', 'i', 'g', 'h', 't']);
    reveal_strlit("ArrowLeft");
    assert("ArrowLeft"@ =~= seq!['A', 'r', 'r', 'o', 'w', 'L', 'e', 'f', 't']);
    reveal_strlit("ArrowUp");
    assert("ArrowUp"@ =~= seq!['A', 'r', 'r', 'o', 'w', 'U', 'p']);
    reveal_strlit("ArrowDown");
    assert("ArrowDown"@ =~= seq!['A', 'r', 'r', 'o', 'w', 'D', 'o', 'w', 'n']);
    reveal_strlit("PageUp");
    assert("PageUp"@ =~= seq!['P', 'a', 'g', 'e', 'U', 'p']);
    reveal_strlit("PageDown");
    assert("PageDown"@ =~= seq!['P', 'a', 'g', 'e', 'D', 'o', 'w', 'n']);
    reveal_strlit("Home");
    assert("Home"@ =~= seq!['H', 'o', 'm', 'e']);
    reveal_strlit("End");
    assert("End"@ =~= seq!['E', 'n', 'd']);
    reveal_strlit("CapsLock");
    assert("CapsLock"@ =~= seq!['C', 'a', 'p', 's', 'L', 'o', 'c', 'k']);
    reveal_strlit("ScrollLock");
    assert("ScrollLock"@ =~= seq!['S', 'c', 'r', 'o', 'l', 'l', 'L', 'o', 'c', 'k']);
    reveal_strlit("NumLock");
    assert("NumLock"@ =~= seq!['N', 'u', 'm', 'L', 'o', 'c', 'k']);
    reveal_strlit("PrintScreen");
    assert("PrintScreen"@ =~= seq!['P', 'r', 'i', 'n', 't', 'S', 'c', 'r', 'e', 'e', 'n']);
    reveal_strlit("Pause");
    assert("Pause"@ =~= seq!['P', 'a', 'u', 's', 'e']);
    reveal_strlit("F1");
    assert("F1"@ =~= seq!['F', '1']);
    reveal_strlit("F2");
    assert("F2"@ =~= seq!['F', '2']);
    reveal_strlit("F3");
    assert("F3"@ =~= seq!['F', '3']);
    reveal_strlit("F4");
    assert("F4"@ =~= seq!['F', '4']);
    reveal_strlit("F5");
    assert("F5"@ =~= seq!['F', '5']);
    reveal_strlit("F6");
    assert("F6"@ =~= seq!['F', '6']);
    reveal_strlit("F7");
    assert("F7"@ =~= seq!['F', '7']);
    reveal_strlit("F8");
    assert("F8"@ =~= seq!['F', '8']);
    reveal_strlit("F9");
    assert("F9"@ =~= seq!['F', '9']);
    reveal_strlit("F10");
    assert("F10"@ =~= seq!['F', '1', '0']);
    reveal_strlit("F11");
    assert("F11"@ =~= seq!['F', '1', '1']);
    reveal_strlit("F12");
    assert("F12"@ =~= seq!['F', '1', '2']);
    reveal_strlit("Numpad0");
    assert("Numpad0"@ =~= seq!['N', 'u', 'm', 'p', 'a', 'd', '0']);
    reveal_strlit("Numpad1");
    assert("Numpad1"@ =~= seq!['N', 'u', 'm', 'p', 'a', 'd', '1']);
    reveal_strlit("Numpad2");
    assert("Numpad2"@ =~= seq!['N', 'u', 'm', 'p', 'a', 'd', '2']);
    reveal_strlit("Numpad3");
    assert("Numpad3"@ =~= seq!['N', 'u', 'm', 'p', 'a', 'd', '3']);
    reveal_strlit("Numpad4");
    assert("Numpad4"@ =~= seq!['N', 'u', 'm', 'p', 'a', 'd', '4']);
    reveal_strlit("Numpad5");
    assert("Numpad5"@ =~= seq!['N', 'u', 'm', 'p', 'a', 'd', '5']);
    reveal_strlit("Numpad6");
    assert("Numpad6"@ =~= seq!['N', 'u', 'm', 'p', 'a', 'd', '6']);
    reveal_strlit("Numpad7");
    assert("Numpad7"@ =~= seq!['N', 'u', 'm', 'p', 'a', 'd', '7']);
    reveal_strlit("Numpad8");
    assert("Numpad8"@ =~= seq!['N', 'u', 'm', 'p', 'a', 'd', '8']);
    reveal_strlit("Numpad9");
    assert("Numpad9"@ =~= seq!['N', 'u', 'm', 'p', 'a', 'd', '9']);
    reveal_strlit("NumpadAdd");
    assert("NumpadAdd"@ =~= seq!['N', 'u', 'm', 'p', 'a', 'd', 'A', 'd', 'd']);
    reveal_strlit("NumpadSubtract");
    assert("NumpadSubtract"@ =~= seq!['N', 'u', 'm', 'p', 'a', 'd', 'S', 'u', 'b', 't', 'r', 'a', 'c', 't']);
    reveal_strlit("NumpadMultiply");
    assert("NumpadMultiply"@ =~= seq!['N', 'u', 'm', 'p', 'a', 'd', 'M', 'u', 'l', 't', 'i', 'p', 'l', 'y']);
    reveal_strlit("NumpadDivide");
    assert("NumpadDivide"@ =~= seq!['N', 'u', 'm', 'p', 'a', 'd', 'D', 'i', 'v', 'i', 'd', 'e']);
    reveal_strlit("NumpadDecimal");
    assert("NumpadDecimal"@ =~= seq!['N', 'u', 'm', 'p', 'a', 'd', 'D', 'e', 'c', 'i', 'm', 'a', 'l']);
    reveal_strlit("NumpadEnter");
    assert("NumpadEnter"@ =~= seq!['N', 'u', 'm', 'p', 'a', 'd', 'E', 'n', 't', 'e', 'r']);
    reveal_strlit("NumpadEqual");
    assert("NumpadEqual"@ =~= seq!['N', 'u', 'm', 'p', 'a', 'd', 'E', 'q', 'u', 'a', 'l']);
    reveal_strlit("ShiftLeft");
    assert("ShiftLeft"@ =~= seq!['S', 'h', 'i', 'f', 't', 'L', 'e', 'f', 't']);
    reveal_strlit("ControlLeft");
    assert("ControlLeft"@ =~= seq!['C', 'o', 'n', 't', 'r', 'o', 'l', 'L', 'e', 'f', 't']);
    reveal_strlit("AltLeft");
    assert("AltLeft"@ =~= seq!['A', 'l', 't', 'L', 'e', 'f', 't']);
    reveal_strlit("MetaLeft");
    assert("MetaLeft"@ =~= seq!['M', 'e', 't', 'a', 'L', 'e', 'f', 't']);
    reveal_strlit("ShiftRight");
    assert("ShiftRight"@ =~= seq!['S', 'h', 'i', 'f', 't', 'R', 'i', 'g', 'h', 't']);
    reveal_strlit("ControlRight");
    assert("ControlRight"@ =~= seq!['C', 'o', 'n', 't', 'r', 'o', 'l', 'R', 'i', 'g', 'h', 't']);
    reveal_strlit("AltRight");
    assert("AltRight"@ =~= seq!['A', 'l', 't', 'R', 'i', 'g', 'h', 't']);
    reveal_strlit("MetaRight");
    assert("MetaRight"@ =~= seq!['M', 'e', 't', 'a', 'R', 'i', 'g', 'h', 't']);
    reveal_strlit("Backslash");
    assert("Backslash"@ =~= seq!['B', 'a', 'c', 'k', 's', 'l', 'a', 's', 'h']);
    reveal_strlit("Backquote");
    assert("Backquote"@ =~= seq!['B', 'a', 'c', 'k', 'q', 'u', 'o', 't', 'e']);
    reveal_strlit("BracketLeft");
    assert("BracketLeft"@ =~= seq!['B', 'r', 'a', 'c', 'k', 'e', 't', 'L', 'e', 'f', 't']);
    reveal_strlit("BracketRight");
    assert("BracketRight"@ =~= seq!['B', 'r', 'a', 'c', 'k', 'e', 't', 'R', 'i', 'g', 'h', 't']);
    reveal_strlit("Comma");
    assert("Comma"@ =~= seq!['C', 'o', 'm', 'm', 'a']);
    reveal_strlit("Minus");
    assert("Minus"@ =~= seq!['M', 'i', 'n', 'u', 's']);
    reveal_strlit("Period");
    assert("Period"@ =~= seq!['P', 'e', 'r', 'i', 'o', 'd']);
    reveal_strlit("Quote");
    assert("Quote"@ =~= seq!['Q', 'u', 'o', 't', 'e']);
    reveal_strlit("Semicolon");
    assert("Semicolon"@ =~= seq!['S', 'e', 'm', 'i', 'c', 'o', 'l', 'o', 'n']);
    reveal_strlit("Slash");
    assert("Slash"@ =~= seq!['S', 'l', 'a', 's', 'h']);
}

} // verus!
