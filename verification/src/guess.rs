//! A guess bounded to the range 1..=100, established at construction.

use vstd::prelude::*;

verus! {

/// A value that is known, by construction, to lie between 1 and 100.
///
/// The field is private: the only way to obtain a `Guess` is through
/// [`Guess::new`], so every `Guess` in existence is in range.
pub struct Guess {
    value: i32,
}

impl Guess {
    /// The value held by this guess.
    pub closed spec fn spec_value(self) -> i32 {
        self.value
    }

    /// Every `Guess` in existence is in range: the constructor establishes
    /// this and no other way to build one exists.
    #[verifier::type_invariant]
    spec fn in_range(self) -> bool {
        1 <= self.value <= 100
    }

    /// Construct a guess. Out-of-range values are excluded up front, so a
    /// constructed `Guess` always carries a value between 1 and 100.
    pub fn new(value: i32) -> (g: Guess)
        requires
            1 <= value <= 100,
        ensures
            g.spec_value() == value,
    {
        Guess { value }
    }

    /// Read the value back; it is always within 1..=100.
    pub fn value(&self) -> (r: i32)
        ensures
            r == self.spec_value(),
            1 <= r <= 100,
    {
        proof {
            use_type_invariant(self);
        }
        self.value
    }
}

} // verus!
