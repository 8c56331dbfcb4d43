use vstd::prelude::*;
use crate::fifo::{FifoBuffer, spec_push};
use crate::keymap::{Keymap, KeymapSet, KeymapValue, spec_select};
use crate::modifier::KeyModifier;
use crate::scancode::{ScanCodeSet, RELEASE_BIT};

verus! {

/// What interpreting one key value asks of the outside world: emit a
/// character to the display, move the cursor, switch to another virtual
/// console, or nothing. Modifier changes are not actions: they stay inside
/// the driver's own state.
#[derive(Clone, Copy, PartialEq, Eq, Structural, Debug)]
pub enum KeyAction {
    EmitChar(char),
    MoveCursor(Direction),
    SwitchConsole(u8),
    NoAction,
}

/// A cursor-movement direction. The display maps it to its own escape
/// sequence.
#[derive(Clone, Copy, PartialEq, Eq, Structural, Debug)]
pub enum Direction {
    Up,
    Down,
    Left,
    Right,
}

/// A raw code is a press unless its release bit is set.
pub open spec fn spec_is_pressed(code: u16) -> bool {
    code & RELEASE_BIT == 0
}

/// How one key value, pressed or released, changes the modifier flags.
/// Momentary modifiers follow the key exactly: the flag becomes `pressed` on
/// every event. Toggle modifiers flip only on the press edge; their releases
/// are ignored. Every other value leaves the flags alone.
pub open spec fn spec_apply_modifier(m: KeyModifier, v: KeymapValue, pressed: bool) -> KeyModifier {
    match v {
        KeymapValue::CapsLock => if pressed {
            KeyModifier { caps_lock: !m.caps_lock, ..m }
        } else {
            m
        },
        KeymapValue::NumberLock => if pressed {
            KeyModifier { num_lock: !m.num_lock, ..m }
        } else {
            m
        },
        KeymapValue::ScrollLock => if pressed {
            KeyModifier { scroll_lock: !m.scroll_lock, ..m }
        } else {
            m
        },
        KeymapValue::LeftControl => KeyModifier { left_control: pressed, ..m },
        KeymapValue::LeftShift => KeyModifier { left_shift: pressed, ..m },
        KeymapValue::LeftAlt => KeyModifier { alt: pressed, ..m },
        KeymapValue::RightControl => KeyModifier { right_control: pressed, ..m },
        KeymapValue::RightShift => KeyModifier { right_shift: pressed, ..m },
        KeymapValue::RightAlt => KeyModifier { alt_gr: pressed, ..m },
        _ => m,
    }
}

/// The control-code convention: a control-qualified character is masked to
/// its low six bits, which lands letters on their C0 control codes.
pub open spec fn spec_control_char(c: char) -> char {
    ((c as u8) & 0x3F) as char
}

/// What one key value asks of the display. Characters, delete, navigation
/// and function keys fire on press only; their releases, the modifier keys,
/// and `Unmapped` ask for nothing. Function key n switches to the zero-based
/// console n - 1. Alt/control-qualified navigation keeps its bare direction.
pub open spec fn spec_action(v: KeymapValue, pressed: bool) -> KeyAction {
    if !pressed {
        KeyAction::NoAction
    } else {
        match v {
            KeymapValue::Ascii(c) => KeyAction::EmitChar(c),
            KeymapValue::Lowercase(c) => KeyAction::EmitChar(c),
            KeymapValue::Alt(c) => KeyAction::EmitChar(c),
            KeymapValue::Control(c) => KeyAction::EmitChar(spec_control_char(c)),
            KeymapValue::ControlAlt(c) => KeyAction::EmitChar(spec_control_char(c)),
            KeymapValue::Delete => KeyAction::EmitChar(0x7Fu8 as char),
            KeymapValue::Right => KeyAction::MoveCursor(Direction::Right),
            KeymapValue::AltRight => KeyAction::MoveCursor(Direction::Right),
            KeymapValue::ControlRight => KeyAction::MoveCursor(Direction::Right),
            KeymapValue::Left => KeyAction::MoveCursor(Direction::Left),
            KeymapValue::AltLeft => KeyAction::MoveCursor(Direction::Left),
            KeymapValue::ControlLeft => KeyAction::MoveCursor(Direction::Left),
            KeymapValue::Down => KeyAction::MoveCursor(Direction::Down),
            KeymapValue::AltDown => KeyAction::MoveCursor(Direction::Down),
            KeymapValue::ControlDown => KeyAction::MoveCursor(Direction::Down),
            KeymapValue::Up => KeyAction::MoveCursor(Direction::Up),
            KeymapValue::AltUp => KeyAction::MoveCursor(Direction::Up),
            KeymapValue::ControlUp => KeyAction::MoveCursor(Direction::Up),
            KeymapValue::F1 => KeyAction::SwitchConsole(0),
            KeymapValue::F2 => KeyAction::SwitchConsole(1),
            KeymapValue::F3 => KeyAction::SwitchConsole(2),
            KeymapValue::F4 => KeyAction::SwitchConsole(3),
            KeymapValue::F5 => KeyAction::SwitchConsole(4),
            KeymapValue::F6 => KeyAction::SwitchConsole(5),
            KeymapValue::F7 => KeyAction::SwitchConsole(6),
            KeymapValue::F8 => KeyAction::SwitchConsole(7),
            KeymapValue::F9 => KeyAction::SwitchConsole(8),
            KeymapValue::F10 => KeyAction::SwitchConsole(9),
            KeymapValue::F11 => KeyAction::SwitchConsole(10),
            KeymapValue::F12 => KeyAction::SwitchConsole(11),
            _ => KeyAction::NoAction,
        }
    }
}

/// What a raw code resolves to under the given tables and modifier state:
/// translate the code to a canonical index, look the index up in the layout,
/// and let the modifiers select the layer. Unrecognized codes and unmapped
/// indices resolve to nothing.
pub open spec fn spec_resolve(sc: ScanCodeSet, km: Keymap, m: KeyModifier, code: u16) -> Option<
    KeymapValue,
> {
    match sc.spec_from(code) {
        Some(idx) => match km.spec_lookup(idx as int) {
            Some(set) => Some(spec_select(set, m)),
            None => None,
        },
        None => None,
    }
}

/// The modifier flags after interpreting one raw code.
pub open spec fn spec_step_mods(sc: ScanCodeSet, km: Keymap, m: KeyModifier, code: u16) -> KeyModifier {
    match spec_resolve(sc, km, m, code) {
        Some(v) => spec_apply_modifier(m, v, spec_is_pressed(code)),
        None => m,
    }
}

/// The display action of interpreting one raw code.
pub open spec fn spec_step_action(sc: ScanCodeSet, km: Keymap, m: KeyModifier, code: u16) -> KeyAction {
    match spec_resolve(sc, km, m, code) {
        Some(v) => spec_action(v, spec_is_pressed(code)),
        None => KeyAction::NoAction,
    }
}

/// The modifier flags after interpreting a whole sequence of raw codes in
/// arrival order.
pub open spec fn spec_run_mods(sc: ScanCodeSet, km: Keymap, m: KeyModifier, codes: Seq<u16>) -> KeyModifier
    decreases codes.len(),
{
    if codes.len() == 0 {
        m
    } else {
        spec_run_mods(sc, km, spec_step_mods(sc, km, m, codes[0]), codes.drop_first())
    }
}

/// The display actions of interpreting a whole sequence of raw codes in
/// arrival order: one action per code, with the modifier state carried along.
pub open spec fn spec_run_actions(sc: ScanCodeSet, km: Keymap, m: KeyModifier, codes: Seq<u16>) -> Seq<
    KeyAction,
>
    decreases codes.len(),
{
    if codes.len() == 0 {
        Seq::<KeyAction>::empty()
    } else {
        seq![spec_step_action(sc, km, m, codes[0])] + spec_run_actions(
            sc,
            km,
            spec_step_mods(sc, km, m, codes[0]),
            codes.drop_first(),
        )
    }
}

/// Caps lock toggles on the press edge only: pressing it flips the flag and
/// with it the effective-shift parity, exactly once; the following release,
/// and any release on its own, changes nothing.
pub proof fn lemma_caps_lock_toggle(m: KeyModifier)
    ensures
        spec_apply_modifier(m, KeymapValue::CapsLock, true).caps_lock == !m.caps_lock,
        spec_apply_modifier(m, KeymapValue::CapsLock, true).spec_shift() == !m.spec_shift(),
        spec_apply_modifier(
            spec_apply_modifier(m, KeymapValue::CapsLock, true),
            KeymapValue::CapsLock,
            false,
        ) == spec_apply_modifier(m, KeymapValue::CapsLock, true),
        spec_apply_modifier(m, KeymapValue::CapsLock, false) == m,
{
}

/// With no other modifier held and caps lock off, pressing left shift makes
/// every key resolve to its shifted slot, and releasing it again returns the
/// key to its plain slot.
pub proof fn lemma_left_shift_selects_shifted(m: KeyModifier, set: KeymapSet)
    requires
        !m.left_control,
        !m.right_control,
        !m.alt,
        !m.alt_gr,
        !m.caps_lock,
        !m.right_shift,
    ensures
        spec_select(set, spec_apply_modifier(m, KeymapValue::LeftShift, true)) == set.shift,
        spec_select(
            set,
            spec_apply_modifier(
                spec_apply_modifier(m, KeymapValue::LeftShift, true),
                KeymapValue::LeftShift,
                false,
            ),
        ) == set.not_shift,
{
}

/// Holding either control key routes every key to its control slot, and a
/// pressed control-slot character emits exactly its low six bits: the C0
/// control code of a letter.
pub proof fn lemma_control_emits_control_code(m: KeyModifier, set: KeymapSet, c: char)
    requires
        m.left_control || m.right_control,
    ensures
        spec_select(set, m) == set.ctrl,
        spec_action(KeymapValue::Control(c), true) == KeyAction::EmitChar(spec_control_char(c)),
        spec_control_char(c) as u8 == (c as u8) & 0x3F,
{
}

/// Pressing a function key asks for the console with the key's zero-based
/// index, F1 through F12 in order, and releasing one asks for nothing.
pub proof fn lemma_function_keys_switch_console()
    ensures
        spec_action(KeymapValue::F1, true) == KeyAction::SwitchConsole(0),
        spec_action(KeymapValue::F2, true) == KeyAction::SwitchConsole(1),
        spec_action(KeymapValue::F3, true) == KeyAction::SwitchConsole(2),
        spec_action(KeymapValue::F4, true) == KeyAction::SwitchConsole(3),
        spec_action(KeymapValue::F5, true) == KeyAction::SwitchConsole(4),
        spec_action(KeymapValue::F6, true) == KeyAction::SwitchConsole(5),
        spec_action(KeymapValue::F7, true) == KeyAction::SwitchConsole(6),
        spec_action(KeymapValue::F8, true) == KeyAction::SwitchConsole(7),
        spec_action(KeymapValue::F9, true) == KeyAction::SwitchConsole(8),
        spec_action(KeymapValue::F10, true) == KeyAction::SwitchConsole(9),
        spec_action(KeymapValue::F11, true) == KeyAction::SwitchConsole(10),
        spec_action(KeymapValue::F12, true) == KeyAction::SwitchConsole(11),
        forall|v: KeymapValue| spec_action(v, false) == KeyAction::NoAction,
{
}

/// `Unmapped` is a no-op: it asks for no action and changes no flag, so
/// dispatching it twice, pressed or released, observes nothing either time.
pub proof fn lemma_unmapped_is_noop(m: KeyModifier, p1: bool, p2: bool)
    ensures
        spec_apply_modifier(m, KeymapValue::Unmapped, p1) == m,
        spec_action(KeymapValue::Unmapped, p1) == KeyAction::NoAction,
        spec_apply_modifier(
            spec_apply_modifier(m, KeymapValue::Unmapped, p1),
            KeymapValue::Unmapped,
            p2,
        ) == m,
        spec_action(KeymapValue::Unmapped, p2) == KeyAction::NoAction,
{
}

/// The keyboard driver: a bounded queue of captured raw codes, the modifier
/// state machine, and the translation and layout tables chosen at
/// construction. One instance owns all of it; there is no hidden global.
pub struct Keyboard {
    pub buffer: FifoBuffer,
    pub key_modifier: KeyModifier,
    pub keymap: Keymap,
    pub scan_code_set: ScanCodeSet,
}

impl Keyboard {
    pub fn new(keymap: Keymap, scan_code_set: ScanCodeSet) -> (r: Keyboard)
        ensures
            r.buffer@ == Seq::<u16>::empty(),
            r.key_modifier.all_clear(),
            r.keymap == keymap,
            r.scan_code_set == scan_code_set,
    {
        Keyboard {
            buffer: FifoBuffer::new(),
            key_modifier: KeyModifier::new(),
            keymap,
            scan_code_set,
        }
    }

    /// A raw code is a press exactly when its release bit is clear.
    pub fn is_pressed(&self, scancode: u16) -> (r: bool)
        ensures
            r == spec_is_pressed(scancode),
    {
        scancode & 0x80 == 0x0
    }

    /// Appends one captured raw code to the queue; on a full queue the code
    /// is dropped silently and `false` comes back. The capture path never
    /// blocks and touches nothing but the queue.
    pub fn push_scancode(&mut self, code: u16) -> (r: bool)
        ensures
            final(self).buffer@ == spec_push(old(self).buffer@, code),
            final(self).key_modifier == old(self).key_modifier,
            final(self).keymap == old(self).keymap,
            final(self).scan_code_set == old(self).scan_code_set,
            r == (old(self).buffer@.len() < crate::fifo::FIFO_CAPACITY),
    {
        self.buffer.push(code)
    }

    /// Resolves a raw code against the translation table, the layout and the
    /// current modifier state. Reads the state, changes nothing.
    pub fn scancode_to_keymapvalue(&self, scancode: u16) -> (r: Option<KeymapValue>)
        ensures
            r == spec_resolve(self.scan_code_set, self.keymap, self.key_modifier, scancode),
    {
        if let Some(scan_code_value) = self.scan_code_set.from(scancode) {
            if let Some(keymap_set) = self.keymap.lookup(scan_code_value) {
                if self.key_modifier.control() {
                    return Some(keymap_set.ctrl);
                } else if self.key_modifier.alt() && self.key_modifier.shift() {
                    return Some(keymap_set.alt_shift);
                } else if self.key_modifier.alt {
                    return Some(keymap_set.alt1);
                } else if self.key_modifier.alt_gr {
                    return Some(keymap_set.alt2);
                } else if self.key_modifier.shift() {
                    return Some(keymap_set.shift);
                } else {
                    return Some(keymap_set.not_shift);
                }
            }
        }
        None
    }

    /// Interprets one resolved key value: updates the modifier flags as
    /// `spec_apply_modifier` says and returns the display action that
    /// `spec_action` says. All side effects on the outside world are in the
    /// returned action; the queue and the tables are untouched.
    #[verifier::rlimit(50)]
    pub fn interpret_keymapvalue(&mut self, keymap_value: KeymapValue, pressed: bool) -> (r:
        KeyAction)
        ensures
            final(self).key_modifier == spec_apply_modifier(
                old(self).key_modifier,
                keymap_value,
                pressed,
            ),
            final(self).buffer == old(self).buffer,
            final(self).keymap == old(self).keymap,
            final(self).scan_code_set == old(self).scan_code_set,
            r == spec_action(keymap_value, pressed),
    {
        match keymap_value {
            KeymapValue::Ascii(c) => {
                if pressed {
                    KeyAction::EmitChar(c)
                } else {
                    KeyAction::NoAction
                }
            },
            KeymapValue::Lowercase(c) => {
                if pressed {
                    KeyAction::EmitChar(c)
                } else {
                    KeyAction::NoAction
                }
            },
            KeymapValue::Alt(c) => {
                if pressed {
                    KeyAction::EmitChar(c)
                } else {
                    KeyAction::NoAction
                }
            },
            KeymapValue::Control(c) => {
                if pressed {
                    KeyAction::EmitChar(((c as u8) & 0x3F) as char)
                } else {
                    KeyAction::NoAction
                }
            },
            KeymapValue::ControlAlt(c) => {
                if pressed {
                    KeyAction::EmitChar(((c as u8) & 0x3F) as char)
                } else {
                    KeyAction::NoAction
                }
            },
            KeymapValue::CapsLock => {
                if pressed {
                    self.key_modifier.caps_lock = !self.key_modifier.caps_lock;
                }
                KeyAction::NoAction
            },
            KeymapValue::NumberLock => {
                if pressed {
                    self.key_modifier.num_lock = !self.key_modifier.num_lock;
                }
                KeyAction::NoAction
            },
            KeymapValue::ScrollLock => {
                if pressed {
                    self.key_modifier.scroll_lock = !self.key_modifier.scroll_lock;
                }
                KeyAction::NoAction
            },
            KeymapValue::LeftControl => {
                self.key_modifier.left_control = pressed;
                KeyAction::NoAction
            },
            KeymapValue::LeftShift => {
                self.key_modifier.left_shift = pressed;
                KeyAction::NoAction
            },
            KeymapValue::LeftAlt => {
                self.key_modifier.alt = pressed;
                KeyAction::NoAction
            },
            KeymapValue::RightControl => {
                self.key_modifier.right_control = pressed;
                KeyAction::NoAction
            },
            KeymapValue::RightShift => {
                self.key_modifier.right_shift = pressed;
                KeyAction::NoAction
            },
            KeymapValue::RightAlt => {
                self.key_modifier.alt_gr = pressed;
                KeyAction::NoAction
            },
            KeymapValue::Delete => {
                if pressed {
                    KeyAction::EmitChar(0x7Fu8 as char)
                } else {
                    KeyAction::NoAction
                }
            },
            KeymapValue::Right | KeymapValue::AltRight | KeymapValue::ControlRight => {
                if pressed {
                    KeyAction::MoveCursor(Direction::Right)
                } else {
                    KeyAction::NoAction
                }
            },
            KeymapValue::Left | KeymapValue::AltLeft | KeymapValue::ControlLeft => {
                if pressed {
                    KeyAction::MoveCursor(Direction::Left)
                } else {
                    KeyAction::NoAction
                }
            },
            KeymapValue::Down | KeymapValue::AltDown | KeymapValue::ControlDown => {
                if pressed {
                    KeyAction::MoveCursor(Direction::Down)
                } else {
                    KeyAction::NoAction
                }
            },
            KeymapValue::Up | KeymapValue::AltUp | KeymapValue::ControlUp => {
                if pressed {
                    KeyAction::MoveCursor(Direction::Up)
                } else {
                    KeyAction::NoAction
                }
            },
            KeymapValue::F1 => {
                if pressed {
                    KeyAction::SwitchConsole(0)
                } else {
                    KeyAction::NoAction
                }
            },
            KeymapValue::F2 => {
                if pressed {
                    KeyAction::SwitchConsole(1)
                } else {
                    KeyAction::NoAction
                }
            },
            KeymapValue::F3 => {
                if pressed {
                    KeyAction::SwitchConsole(2)
                } else {
                    KeyAction::NoAction
                }
            },
            KeymapValue::F4 => {
                if pressed {
                    KeyAction::SwitchConsole(3)
                } else {
                    KeyAction::NoAction
                }
            },
            KeymapValue::F5 => {
                if pressed {
                    KeyAction::SwitchConsole(4)
                } else {
                    KeyAction::NoAction
                }
            },
            KeymapValue::F6 => {
                if pressed {
                    KeyAction::SwitchConsole(5)
                } else {
                    KeyAction::NoAction
                }
            },
            KeymapValue::F7 => {
                if pressed {
                    KeyAction::SwitchConsole(6)
                } else {
                    KeyAction::NoAction
                }
            },
            KeymapValue::F8 => {
                if pressed {
                    KeyAction::SwitchConsole(7)
                } else {
                    KeyAction::NoAction
                }
            },
            KeymapValue::F9 => {
                if pressed {
                    KeyAction::SwitchConsole(8)
                } else {
                    KeyAction::NoAction
                }
            },
            KeymapValue::F10 => {
                if pressed {
                    KeyAction::SwitchConsole(9)
                } else {
                    KeyAction::NoAction
                }
            },
            KeymapValue::F11 => {
                if pressed {
                    KeyAction::SwitchConsole(10)
                } else {
                    KeyAction::NoAction
                }
            },
            KeymapValue::F12 => {
                if pressed {
                    KeyAction::SwitchConsole(11)
                } else {
                    KeyAction::NoAction
                }
            },
            _ => KeyAction::NoAction,
        }
    }

    /// Interprets one raw code: resolves it, feeds the result to the
    /// dispatcher, and returns the display action. An unrecognized or
    /// unmapped code is a first-class no-op, not an error.
    pub fn interpret(&mut self, scancode: u16) -> (r: KeyAction)
        ensures
            final(self).key_modifier == spec_step_mods(
                old(self).scan_code_set,
                old(self).keymap,
                old(self).key_modifier,
                scancode,
            ),
            final(self).buffer == old(self).buffer,
            final(self).keymap == old(self).keymap,
            final(self).scan_code_set == old(self).scan_code_set,
            r == spec_step_action(
                old(self).scan_code_set,
                old(self).keymap,
                old(self).key_modifier,
                scancode,
            ),
    {
        let pressed = self.is_pressed(scancode);
        if let Some(keymap_value) = self.scancode_to_keymapvalue(scancode) {
            self.interpret_keymapvalue(keymap_value, pressed)
        } else {
            KeyAction::NoAction
        }
    }

    /// Drains the queue to empty, interpreting every queued code strictly in
    /// arrival order, and returns one display action per code for the caller
    /// to carry out. The modifier flags end up as the whole run says.
    pub fn interpret_to_vga_text_mode(&mut self) -> (actions: Vec<KeyAction>)
        ensures
            final(self).buffer@ == Seq::<u16>::empty(),
            final(self).keymap == old(self).keymap,
            final(self).scan_code_set == old(self).scan_code_set,
            final(self).key_modifier == spec_run_mods(
                old(self).scan_code_set,
                old(self).keymap,
                old(self).key_modifier,
                old(self).buffer@,
            ),
            actions@ == spec_run_actions(
                old(self).scan_code_set,
                old(self).keymap,
                old(self).key_modifier,
                old(self).buffer@,
            ),
    {
        let mut actions: Vec<KeyAction> = Vec::new();
        while self.buffer.len() != 0
            invariant
                self.keymap == old(self).keymap,
                self.scan_code_set == old(self).scan_code_set,
                spec_run_mods(
                    old(self).scan_code_set,
                    old(self).keymap,
                    old(self).key_modifier,
                    old(self).buffer@,
                ) == spec_run_mods(
                    self.scan_code_set,
                    self.keymap,
                    self.key_modifier,
                    self.buffer@,
                ),
                spec_run_actions(
                    old(self).scan_code_set,
                    old(self).keymap,
                    old(self).key_modifier,
                    old(self).buffer@,
                ) == actions@ + spec_run_actions(
                    self.scan_code_set,
                    self.keymap,
                    self.key_modifier,
                    self.buffer@,
                ),
            decreases self.buffer@.len(),
        {
            let popped = self.buffer.pop();
            if let Some(scancode) = popped {
                let ghost prev_actions = actions@;
                let ghost remaining = self.buffer@;
                let action = self.interpret(scancode);
                actions.push(action);
                proof {
                    assert(prev_actions + (seq![action] + spec_run_actions(
                        self.scan_code_set,
                        self.keymap,
                        self.key_modifier,
                        remaining,
                    )) =~= (prev_actions + seq![action]) + spec_run_actions(
                        self.scan_code_set,
                        self.keymap,
                        self.key_modifier,
                        remaining,
                    ));
                }
            }
        }
        proof {
            assert(actions@ + Seq::<KeyAction>::empty() =~= actions@);
        }
        actions
    }
}

} // verus!
