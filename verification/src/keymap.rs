use vstd::prelude::*;
use crate::modifier::KeyModifier;

verus! {

/// One resolved key value: what a physical key means in one layer of the
/// keymap. Characters carry their char; the locks and the momentary modifier
/// keys carry only which key they are; navigation keys carry their direction
/// with an optional alt/control qualifier; `Unmapped` marks a slot the layout
/// deliberately leaves dead.
#[derive(Clone, Copy, PartialEq, Eq, Structural, Debug)]
pub enum KeymapValue {
    Ascii(char),
    Lowercase(char),
    Alt(char),
    Control(char),
    ControlAlt(char),
    CapsLock,
    NumberLock,
    ScrollLock,
    LeftControl,
    LeftShift,
    LeftAlt,
    RightControl,
    RightShift,
    RightAlt,
    Delete,
    Right,
    AltRight,
    ControlRight,
    Left,
    AltLeft,
    ControlLeft,
    Down,
    AltDown,
    ControlDown,
    Up,
    AltUp,
    ControlUp,
    F1,
    F2,
    F3,
    F4,
    F5,
    F6,
    F7,
    F8,
    F9,
    F10,
    F11,
    F12,
    Unmapped,
}

/// The six layers of one physical key: which value the key yields under no
/// modifier, shift, control, left alt, alt-gr, and alt together with shift.
#[derive(Clone, Copy, PartialEq, Eq, Structural, Debug)]
pub struct KeymapSet {
    pub not_shift: KeymapValue,
    pub shift: KeymapValue,
    pub ctrl: KeymapValue,
    pub alt1: KeymapValue,
    pub alt2: KeymapValue,
    pub alt_shift: KeymapValue,
}

/// A layout table: for each canonical key index, the six-layer set of that
/// key, or `None` for an index the layout does not map. Supplied at
/// construction and never mutated, so alternate layouts plug in without
/// changing the driver's logic.
pub struct Keymap {
    pub entries: Vec<Option<KeymapSet>>,
}

/// Which layer the current modifier state selects, first match wins:
/// control beats everything, then alt with shift, then left alt alone, then
/// alt-gr alone, then shift, and the plain layer last.
pub open spec fn spec_select(set: KeymapSet, m: KeyModifier) -> KeymapValue {
    if m.spec_control() {
        set.ctrl
    } else if m.spec_alt() && m.spec_shift() {
        set.alt_shift
    } else if m.alt {
        set.alt1
    } else if m.alt_gr {
        set.alt2
    } else if m.spec_shift() {
        set.shift
    } else {
        set.not_shift
    }
}

impl Keymap {
    /// The layer set at a canonical index, or `None` for an index the table
    /// does not cover.
    pub open spec fn spec_lookup(self, idx: int) -> Option<KeymapSet> {
        if 0 <= idx < self.entries@.len() {
            self.entries@[idx]
        } else {
            None
        }
    }

    pub fn lookup(&self, idx: u8) -> (r: Option<KeymapSet>)
        ensures
            r == self.spec_lookup(idx as int),
    {
        if (idx as usize) < self.entries.len() {
            self.entries[idx as usize]
        } else {
            None
        }
    }
}

} // verus!
