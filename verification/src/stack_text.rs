use vstd::prelude::*;

verus! {

/// Whether a byte is a printable ASCII character: the range a memory dump
/// shows as itself rather than as a placeholder.
pub open spec fn spec_is_printable(c: u8) -> bool {
    0x20 <= c && c <= 0x7e
}

pub fn is_printable(c: u8) -> (r: bool)
    ensures
        r == spec_is_printable(c),
{
    0x20 <= c && c <= 0x7e
}

/// The character a memory-dump line shows for one byte: the byte itself when
/// printable, a dot otherwise.
pub open spec fn spec_dump_char(b: u8) -> char {
    if spec_is_printable(b) {
        b as char
    } else {
        '.'
    }
}

/// The text column of one 16-byte memory-dump line: each byte rendered as
/// `spec_dump_char` says.
pub fn render_stack_line(stack: &[u8; 16]) -> (r: Vec<char>)
    ensures
        r@.len() == 16,
        forall|i: int| 0 <= i < 16 ==> r@[i] == spec_dump_char(stack@[i]),
{
    let mut r: Vec<char> = Vec::new();
    let mut i: usize = 0;
    while i < 16
        invariant
            i <= 16,
            r@.len() == i,
            forall|j: int| 0 <= j < i ==> r@[j] == spec_dump_char(stack@[j]),
        decreases 16 - i,
    {
        let b = stack[i];
        if is_printable(b) {
            r.push(b as char);
        } else {
            r.push('.');
        }
        i += 1;
    }
    r
}

} // verus!
