use ps2_keyboard::fifo::{FifoBuffer, FIFO_CAPACITY};
use ps2_keyboard::keyboard::{Direction, KeyAction, Keyboard};
use ps2_keyboard::keymap::{Keymap, KeymapSet, KeymapValue};
use ps2_keyboard::scancode::{pack_extended, ScanCodeSet, EXTENDED_PREFIX};

// Canonical indices the test layout uses, matching the classic set-1 codes.
const IDX_A: usize = 30;
const IDX_LEFT_CONTROL: usize = 29;
const IDX_LEFT_SHIFT: usize = 42;
const IDX_RIGHT_SHIFT: usize = 54;
const IDX_LEFT_ALT: usize = 56;
const IDX_CAPS_LOCK: usize = 58;
const IDX_F1: usize = 59;
const IDX_LEFT_ARROW: usize = 75;
const IDX_DELETE: usize = 83;

fn uniform_set(v: KeymapValue) -> KeymapSet {
    KeymapSet { not_shift: v, shift: v, ctrl: v, alt1: v, alt2: v, alt_shift: v }
}

fn function_key(n: usize) -> KeymapValue {
    match n {
        0 => KeymapValue::F1,
        1 => KeymapValue::F2,
        2 => KeymapValue::F3,
        3 => KeymapValue::F4,
        4 => KeymapValue::F5,
        5 => KeymapValue::F6,
        6 => KeymapValue::F7,
        7 => KeymapValue::F8,
        8 => KeymapValue::F9,
        9 => KeymapValue::F10,
        10 => KeymapValue::F11,
        11 => KeymapValue::F12,
        _ => panic!("no such function key"),
    }
}

fn test_keymap() -> Keymap {
    let mut entries: Vec<Option<KeymapSet>> = Vec::new();
    for _ in 0..256 {
        entries.push(None);
    }
    entries[IDX_A] = Some(KeymapSet {
        not_shift: KeymapValue::Lowercase('a'),
        shift: KeymapValue::Ascii('A'),
        ctrl: KeymapValue::Control('A'),
        alt1: KeymapValue::Alt('a'),
        alt2: KeymapValue::Unmapped,
        alt_shift: KeymapValue::Unmapped,
    });
    entries[IDX_LEFT_CONTROL] = Some(uniform_set(KeymapValue::LeftControl));
    entries[IDX_LEFT_SHIFT] = Some(uniform_set(KeymapValue::LeftShift));
    entries[IDX_RIGHT_SHIFT] = Some(uniform_set(KeymapValue::RightShift));
    entries[IDX_LEFT_ALT] = Some(uniform_set(KeymapValue::LeftAlt));
    entries[IDX_CAPS_LOCK] = Some(uniform_set(KeymapValue::CapsLock));
    for n in 0..12 {
        entries[IDX_F1 + n] = Some(uniform_set(function_key(n)));
    }
    entries[IDX_LEFT_ARROW] = Some(uniform_set(KeymapValue::Left));
    entries[IDX_DELETE] = Some(uniform_set(KeymapValue::Delete));
    Keymap { entries }
}

// The plain table is the identity on indices; the extended table maps only
// the left-arrow code.
fn test_scancode_set() -> ScanCodeSet {
    let mut plain: Vec<Option<u8>> = Vec::new();
    for i in 0..128u16 {
        plain.push(Some(i as u8));
    }
    let mut extended: Vec<Option<u8>> = Vec::new();
    for _ in 0..128 {
        extended.push(None);
    }
    extended[0x4B] = Some(IDX_LEFT_ARROW as u8);
    ScanCodeSet { plain, extended }
}

fn test_keyboard() -> Keyboard {
    Keyboard::new(test_keymap(), test_scancode_set())
}

fn press(idx: usize) -> u16 {
    idx as u16
}

fn release(idx: usize) -> u16 {
    idx as u16 | 0x80
}

#[test]
fn is_pressed_follows_release_bit() {
    let kb = test_keyboard();
    assert!(kb.is_pressed(0x00));
    assert!(kb.is_pressed(0x1E));
    assert!(kb.is_pressed(0x7F));
    assert!(!kb.is_pressed(0x80));
    assert!(!kb.is_pressed(0x9E));
    assert!(!kb.is_pressed(0xFF));
}

#[test]
fn new_keyboard_starts_clear() {
    let kb = test_keyboard();
    let m = kb.key_modifier;
    assert!(!m.left_shift);
    assert!(!m.right_shift);
    assert!(!m.alt);
    assert!(!m.alt_gr);
    assert!(!m.left_control);
    assert!(!m.right_control);
    assert!(!m.caps_lock);
    assert!(!m.num_lock);
    assert!(!m.scroll_lock);
    assert!(!m.shift());
    assert!(!m.alt());
    assert!(!m.control());
}

#[test]
fn plain_letter_emits_on_press_only() {
    let mut kb = test_keyboard();
    assert_eq!(kb.interpret(press(IDX_A)), KeyAction::EmitChar('a'));
    assert_eq!(kb.interpret(release(IDX_A)), KeyAction::NoAction);
}

#[test]
fn caps_lock_flips_on_press_edge_only() {
    let mut kb = test_keyboard();
    assert_eq!(kb.interpret(press(IDX_CAPS_LOCK)), KeyAction::NoAction);
    assert!(kb.key_modifier.caps_lock);
    assert!(kb.key_modifier.shift());
    assert_eq!(kb.interpret(press(IDX_A)), KeyAction::EmitChar('A'));
    // The release leaves the toggle alone.
    assert_eq!(kb.interpret(release(IDX_CAPS_LOCK)), KeyAction::NoAction);
    assert!(kb.key_modifier.caps_lock);
    assert_eq!(kb.interpret(press(IDX_A)), KeyAction::EmitChar('A'));
    // A second press edge flips it back.
    kb.interpret(press(IDX_CAPS_LOCK));
    kb.interpret(release(IDX_CAPS_LOCK));
    assert!(!kb.key_modifier.caps_lock);
    assert_eq!(kb.interpret(press(IDX_A)), KeyAction::EmitChar('a'));
}

#[test]
fn release_only_caps_lock_changes_nothing() {
    let mut kb = test_keyboard();
    assert_eq!(kb.interpret(release(IDX_CAPS_LOCK)), KeyAction::NoAction);
    assert!(!kb.key_modifier.caps_lock);
    assert!(!kb.key_modifier.shift());
}

#[test]
fn left_shift_selects_shifted_slot() {
    let mut kb = test_keyboard();
    kb.interpret(press(IDX_LEFT_SHIFT));
    assert!(kb.key_modifier.left_shift);
    assert_eq!(kb.interpret(press(IDX_A)), KeyAction::EmitChar('A'));
    kb.interpret(release(IDX_LEFT_SHIFT));
    assert!(!kb.key_modifier.left_shift);
    assert_eq!(kb.interpret(press(IDX_A)), KeyAction::EmitChar('a'));
}

#[test]
fn caps_lock_inverts_shift_rather_than_adding() {
    let mut kb = test_keyboard();
    kb.interpret(press(IDX_CAPS_LOCK));
    kb.interpret(release(IDX_CAPS_LOCK));
    kb.interpret(press(IDX_LEFT_SHIFT));
    // Shift under caps lock cancels out: back to the plain slot.
    assert!(!kb.key_modifier.shift());
    assert_eq!(kb.interpret(press(IDX_A)), KeyAction::EmitChar('a'));
}

#[test]
fn control_letter_emits_control_code() {
    let mut kb = test_keyboard();
    kb.interpret(press(IDX_LEFT_CONTROL));
    assert!(kb.key_modifier.left_control);
    // Control('A'): 0x41 masked to its low six bits is 0x01.
    assert_eq!(kb.interpret(press(IDX_A)), KeyAction::EmitChar('\u{1}'));
    kb.interpret(release(IDX_LEFT_CONTROL));
    assert!(!kb.key_modifier.left_control);
    assert_eq!(kb.interpret(press(IDX_A)), KeyAction::EmitChar('a'));
}

#[test]
fn control_takes_precedence_over_shift_and_alt() {
    let mut kb = test_keyboard();
    kb.interpret(press(IDX_LEFT_SHIFT));
    kb.interpret(press(IDX_LEFT_ALT));
    kb.interpret(press(IDX_LEFT_CONTROL));
    assert_eq!(kb.interpret(press(IDX_A)), KeyAction::EmitChar('\u{1}'));
}

#[test]
fn left_alt_selects_alt_slot() {
    let mut kb = test_keyboard();
    kb.interpret(press(IDX_LEFT_ALT));
    assert!(kb.key_modifier.alt);
    assert_eq!(kb.interpret(press(IDX_A)), KeyAction::EmitChar('a'));
    kb.interpret(release(IDX_LEFT_ALT));
    assert!(!kb.key_modifier.alt);
}

#[test]
fn function_keys_switch_consoles_in_order() {
    let mut kb = test_keyboard();
    for n in 0..12 {
        assert_eq!(
            kb.interpret(press(IDX_F1 + n)),
            KeyAction::SwitchConsole(n as u8),
            "press of F{} must switch to console {}",
            n + 1,
            n
        );
        assert_eq!(
            kb.interpret(release(IDX_F1 + n)),
            KeyAction::NoAction,
            "release of F{} must ask for nothing",
            n + 1
        );
    }
}

#[test]
fn extended_left_arrow_moves_cursor_left() {
    let code = pack_extended(EXTENDED_PREFIX, 0x4B);
    assert_eq!(code, 0xE04B);
    let mut kb = test_keyboard();
    assert_eq!(kb.interpret(code), KeyAction::MoveCursor(Direction::Left));
    // The release of the same extended key does nothing.
    let release_code = pack_extended(EXTENDED_PREFIX, 0x4B | 0x80);
    assert_eq!(kb.interpret(release_code), KeyAction::NoAction);
}

#[test]
fn delete_emits_delete_control_character() {
    let mut kb = test_keyboard();
    assert_eq!(kb.interpret(press(IDX_DELETE)), KeyAction::EmitChar('\u{7f}'));
    assert_eq!(kb.interpret(release(IDX_DELETE)), KeyAction::NoAction);
}

#[test]
fn unmapped_dispatch_is_idempotent() {
    let mut kb = test_keyboard();
    let before = kb.key_modifier;
    assert_eq!(kb.interpret_keymapvalue(KeymapValue::Unmapped, true), KeyAction::NoAction);
    assert_eq!(kb.interpret_keymapvalue(KeymapValue::Unmapped, true), KeyAction::NoAction);
    assert_eq!(kb.key_modifier, before);
    assert_eq!(kb.interpret_keymapvalue(KeymapValue::Unmapped, false), KeyAction::NoAction);
    assert_eq!(kb.key_modifier, before);
}

#[test]
fn unrecognized_codes_are_ignored() {
    let mut kb = test_keyboard();
    // Not extended and above one byte: no table covers it.
    assert_eq!(kb.interpret(0x0200), KeyAction::NoAction);
    // Extended code without an extended-table entry.
    assert_eq!(kb.interpret(0xE01C), KeyAction::NoAction);
    // In range, but the layout maps nothing there.
    assert_eq!(kb.interpret(0x01), KeyAction::NoAction);
    let before = kb.key_modifier;
    assert_eq!(kb.key_modifier, before);
}

#[test]
fn scancode_to_keymapvalue_reads_without_mutating() {
    let kb = test_keyboard();
    assert_eq!(
        kb.scancode_to_keymapvalue(press(IDX_A)),
        Some(KeymapValue::Lowercase('a'))
    );
    assert_eq!(kb.scancode_to_keymapvalue(0x01), None);
    assert_eq!(kb.scancode_to_keymapvalue(0x0200), None);
}

#[test]
fn fifo_preserves_arrival_order() {
    let mut q = FifoBuffer::new();
    assert_eq!(q.pop(), None);
    assert!(q.push(1));
    assert!(q.push(2));
    assert!(q.push(3));
    assert_eq!(q.len(), 3);
    assert_eq!(q.pop(), Some(1));
    assert_eq!(q.pop(), Some(2));
    assert_eq!(q.pop(), Some(3));
    assert_eq!(q.pop(), None);
}

#[test]
fn fifo_full_drops_new_codes() {
    let mut q = FifoBuffer::new();
    for i in 0..FIFO_CAPACITY {
        assert!(q.push(i as u16));
    }
    assert!(!q.push(999));
    assert_eq!(q.len(), FIFO_CAPACITY);
    for i in 0..FIFO_CAPACITY {
        assert_eq!(q.pop(), Some(i as u16));
    }
    assert_eq!(q.pop(), None);
}

#[test]
fn overfilled_queue_interprets_exactly_the_retained_codes() {
    let mut kb = test_keyboard();
    // Fill the queue with letter presses, then try one more: a caps-lock
    // press that must be dropped.
    for _ in 0..FIFO_CAPACITY {
        assert!(kb.push_scancode(press(IDX_A)));
    }
    assert!(!kb.push_scancode(press(IDX_CAPS_LOCK)));
    let actions = kb.interpret_to_vga_text_mode();
    assert_eq!(actions.len(), FIFO_CAPACITY);
    for a in &actions {
        assert_eq!(*a, KeyAction::EmitChar('a'));
    }
    // The dropped caps-lock press left no trace.
    assert!(!kb.key_modifier.caps_lock);
    assert_eq!(kb.interpret(press(IDX_A)), KeyAction::EmitChar('a'));
}

#[test]
fn drain_processes_in_arrival_order_and_empties_the_queue() {
    let mut kb = test_keyboard();
    kb.push_scancode(press(IDX_LEFT_SHIFT));
    kb.push_scancode(press(IDX_A));
    kb.push_scancode(release(IDX_A));
    kb.push_scancode(release(IDX_LEFT_SHIFT));
    kb.push_scancode(press(IDX_A));
    let actions = kb.interpret_to_vga_text_mode();
    assert_eq!(
        actions,
        vec![
            KeyAction::NoAction,
            KeyAction::EmitChar('A'),
            KeyAction::NoAction,
            KeyAction::NoAction,
            KeyAction::EmitChar('a'),
        ]
    );
    assert_eq!(kb.buffer.len(), 0);
    let again = kb.interpret_to_vga_text_mode();
    assert_eq!(again.len(), 0);
}
