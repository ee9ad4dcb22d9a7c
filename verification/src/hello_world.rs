//! A trivial demonstration system: it does nothing to the world and only
//! produces a fixed greeting line for the caller to print.

use vstd::prelude::*;

verus! {

/// The no-op demonstration system.
pub struct HelloWorld;

impl HelloWorld {
    /// The one line this system emits each tick; writing it out is the
    /// caller's business.
    pub fn run(&self) -> (line: String)
        ensures
            line@ == "Hello World!"@,
    {
        String::from_str("Hello World!")
    }
}

} // verus!
