//! Scancode decoding for a PS/2 keyboard: a bounded queue of raw codes, a
//! scancode-set translator, a modifier state machine, a six-slot keymap
//! resolver, and a dispatcher that turns resolved key values into display
//! actions.

pub mod fifo;
pub mod keyboard;
pub mod keymap;
pub mod modifier;
pub mod scancode;
pub mod stack_text;
