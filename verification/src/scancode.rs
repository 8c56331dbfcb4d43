use vstd::prelude::*;

verus! {

/// The first byte of a two-byte extended scancode.
pub const EXTENDED_PREFIX: u16 = 0xE0;

/// The bit of the low scancode byte that marks a key release (break code).
pub const RELEASE_BIT: u16 = 0x80;

/// Bit 0 of the controller status byte says a data byte is waiting to be
/// read. The capture path polls this before every read.
pub fn has_data(status: u8) -> (r: bool)
    ensures
        r == (status & 0x1 == 0x1),
{
    status & 0x1 == 0x1
}

/// Packs the extended-code prefix and the byte that follows it into one raw
/// code: the prefix in the high byte, the second byte below it.
pub fn pack_extended(prefix: u16, second: u8) -> (r: u16)
    requires
        prefix <= 0xFF,
    ensures
        r == prefix << 8 | second as u16,
{
    prefix << 8 | second as u16
}

/// Scancode-set translation data: maps raw codes, with the release bit
/// stripped, to canonical key indices. Which physical scancode set the
/// hardware emits is fixed at construction by choosing these tables; the
/// driver's logic does not depend on it. `plain` covers single-byte codes,
/// `extended` the codes that arrive behind the `0xE0` prefix. An entry of
/// `None`, or a code beyond a table's length, is an unrecognized key.
pub struct ScanCodeSet {
    pub plain: Vec<Option<u8>>,
    pub extended: Vec<Option<u8>>,
}

impl ScanCodeSet {
    /// The canonical key index of a raw code: extended codes go through the
    /// extended table, single-byte codes through the plain table, anything
    /// else is unrecognized. Press and release codes of one key land on the
    /// same index because the release bit is masked off first.
    pub open spec fn spec_from(self, code: u16) -> Option<u8> {
        if code >> 8 == EXTENDED_PREFIX {
            let idx = (code & 0x7F) as int;
            if idx < self.extended@.len() {
                self.extended@[idx]
            } else {
                None
            }
        } else if code <= 0xFF {
            let idx = (code & 0x7F) as int;
            if idx < self.plain@.len() {
                self.plain@[idx]
            } else {
                None
            }
        } else {
            None
        }
    }

    pub fn from(&self, code: u16) -> (r: Option<u8>)
        ensures
            r == self.spec_from(code),
    {
        if code >> 8 == EXTENDED_PREFIX {
            let idx = (code & 0x7F) as usize;
            if idx < self.extended.len() {
                self.extended[idx]
            } else {
                None
            }
        } else if code <= 0xFF {
            let idx = (code & 0x7F) as usize;
            if idx < self.plain.len() {
                self.plain[idx]
            } else {
                None
            }
        } else {
            None
        }
    }
}

} // verus!
