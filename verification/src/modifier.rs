use vstd::prelude::*;

verus! {

/// The nine independent modifier flags of the keyboard: momentary keys
/// (shifts, controls, alts) and toggle keys (the three locks).
#[derive(Clone, Copy, PartialEq, Eq, Structural, Debug)]
pub struct KeyModifier {
    pub left_shift: bool,
    pub right_shift: bool,
    pub alt: bool,
    pub alt_gr: bool,
    pub left_control: bool,
    pub right_control: bool,
    pub caps_lock: bool,
    pub num_lock: bool,
    pub scroll_lock: bool,
}

impl KeyModifier {
    /// All flags off: the state a freshly constructed driver starts in.
    pub open spec fn all_clear(self) -> bool {
        &&& !self.left_shift
        &&& !self.right_shift
        &&& !self.alt
        &&& !self.alt_gr
        &&& !self.left_control
        &&& !self.right_control
        &&& !self.caps_lock
        &&& !self.num_lock
        &&& !self.scroll_lock
    }

    /// Effective shift: caps lock inverts, rather than adds to, physical shift.
    pub open spec fn spec_shift(self) -> bool {
        (self.left_shift || self.right_shift) != self.caps_lock
    }

    /// Effective alt: either alt key.
    pub open spec fn spec_alt(self) -> bool {
        self.alt || self.alt_gr
    }

    /// Effective control: either control key.
    pub open spec fn spec_control(self) -> bool {
        self.left_control || self.right_control
    }

    pub fn new() -> (r: KeyModifier)
        ensures
            r.all_clear(),
    {
        KeyModifier {
            left_shift: false,
            right_shift: false,
            alt: false,
            alt_gr: false,
            left_control: false,
            right_control: false,
            caps_lock: false,
            num_lock: false,
            scroll_lock: false,
        }
    }

    pub fn shift(&self) -> (r: bool)
        ensures
            r == self.spec_shift(),
    {
        (self.left_shift || self.right_shift) != self.caps_lock
    }

    pub fn alt(&self) -> (r: bool)
        ensures
            r == self.spec_alt(),
    {
        self.alt || self.alt_gr
    }

    pub fn control(&self) -> (r: bool)
        ensures
            r == self.spec_control(),
    {
        self.left_control || self.right_control
    }
}

} // verus!
