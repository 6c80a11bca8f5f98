use vstd::prelude::*;

verus! {

/// The least value a guess may hold.
pub const GUESS_MIN: i32 = 1;

/// The greatest value a guess may hold.
pub const GUESS_MAX: i32 = 100;

/// A number between 1 and 100; no value outside that range can be held.
pub struct Guess {
    value: i32,
}

impl View for Guess {
    type V = int;

    closed spec fn view(&self) -> int {
        self.value as int
    }
}

/// `v` is a value that a guess may hold.
pub open spec fn in_guess_range(v: int) -> bool {
    GUESS_MIN <= v <= GUESS_MAX
}

impl Guess {
    #[verifier::type_invariant]
    spec fn in_range(&self) -> bool {
        in_guess_range(self.value as int)
    }

    /// Wraps `value`; a value out of range is the caller's error and is
    /// ruled out by the precondition.
    pub fn new(value: i32) -> (r: Guess)
        requires
            in_guess_range(value as int),
        ensures
            r@ == value as int,
    {
        Guess { value }
    }

    /// The wrapped number, exactly as it was given.
    pub fn value(&self) -> (r: i32)
        ensures
            r as int == self@,
            in_guess_range(r as int),
    {
        proof {
            use_type_invariant(self);
        }
        self.value
    }
}

} // verus!
