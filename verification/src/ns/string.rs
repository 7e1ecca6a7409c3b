//! The immutable text object, modeled over a host string whose view is its
//! character sequence.

use vstd::prelude::*;

verus! {

/// An immutable native string. Its view is the sequence of characters it
/// holds; length and indexing speak of characters, not bytes.
#[derive(Debug)]
pub struct Str {
    s: String,
}

impl View for Str {
    type V = Seq<char>;

    closed spec fn view(&self) -> Seq<char> {
        self.s@
    }
}

impl Str {
    /// Builds a native string holding the given host text.
    pub fn with_str(text: &str) -> (r: Str)
        ensures
            r@ == text@,
    {
        Str { s: String::from_str(text) }
    }

    /// The number of characters held.
    pub fn len(&self) -> (n: usize)
        ensures
            n == self@.len(),
    {
        self.s.as_str().unicode_len()
    }

    pub fn is_empty(&self) -> (r: bool)
        ensures
            r == (self@.len() == 0),
    {
        self.len() == 0
    }

    /// The character at a position.
    pub fn char_at(&self, i: usize) -> (c: char)
        requires
            i < self@.len(),
        ensures
            c == self@[i as int],
    {
        self.s.as_str().get_char(i)
    }

    /// A second owner of the same text: observably an equal string.
    pub fn retained(&self) -> (r: Str)
        ensures
            r@ == self@,
    {
        Str { s: self.s.clone() }
    }

    /// The host view of the text.
    pub fn as_str(&self) -> (r: &str)
        ensures
            r@ == self@,
    {
        self.s.as_str()
    }

    /// Appends more text; only this crate's mutable wrappers reach it.
    pub(crate) fn push_str(&mut self, tail: &str)
        ensures
            final(self)@ == old(self)@ + tail@,
    {
        self.s.append(tail);
    }
}

impl PartialEq for Str {
    /// Two native strings are equal exactly when they hold the same
    /// characters.
    fn eq(&self, other: &Str) -> (r: bool) {
        self.s == other.s
    }
}

impl vstd::std_specs::cmp::PartialEqSpecImpl for Str {
    open spec fn obeys_eq_spec() -> bool {
        true
    }

    open spec fn eq_spec(&self, other: &Str) -> bool {
        self@ == other@
    }
}

} // verus!
