//! Registration tokens.

use vstd::prelude::*;

verus! {

/// An identifier that the application chooses for a registration, and that the
/// notifier hands back with every readiness event of that registration.
#[derive(Clone, Copy, Debug, PartialEq, Eq, Structural, Hash)]
pub struct Token(pub usize);

impl Token {
    /// The number that the application chose.
    pub fn value(&self) -> (n: usize)
        ensures
            n == self.0,
    {
        self.0
    }
}

} // verus!
