//! The identifier assembler: accumulates the digit characters of a tag scan
//! until the dispatch loop observes the terminator key and takes the
//! completed identifier.

use vstd::prelude::*;
use crate::ident::{is_digit, is_digit_char};

verus! {

/// Accumulates digit characters into the pending tag identifier. Owned by
/// the dispatch loop alone; reset to empty after each completed scan.
pub struct Assembler {
    /// The digit characters received since the last completed scan.
    pub buf: Vec<char>,
}

impl View for Assembler {
    type V = Seq<char>;

    open spec fn view(&self) -> Seq<char> {
        self.buf@
    }
}

/// What the pending buffer holds after a character is offered to it: digits
/// are appended, every other character is ignored without error.
pub open spec fn push_spec(buf: Seq<char>, c: char) -> Seq<char> {
    if is_digit_char(c) {
        buf.push(c)
    } else {
        buf
    }
}

impl Assembler {
    /// An assembler with an empty pending buffer.
    pub fn new() -> (r: Assembler)
        ensures
            r@ == Seq::<char>::empty(),
    {
        Assembler { buf: Vec::new() }
    }

    /// Offers one character: appends it when it is a digit, ignores it
    /// otherwise.
    pub fn push(&mut self, c: char)
        ensures
            final(self)@ == push_spec(old(self)@, c),
    {
        if is_digit(c) {
            self.buf.push(c);
        }
    }

    /// Returns the pending identifier and leaves the buffer empty.
    pub fn take_and_reset(&mut self) -> (r: Vec<char>)
        ensures
            r@ == old(self)@,
            final(self)@ == Seq::<char>::empty(),
    {
        let mut taken: Vec<char> = Vec::new();
        core::mem::swap(&mut self.buf, &mut taken);
        taken
    }
}

} // verus!
