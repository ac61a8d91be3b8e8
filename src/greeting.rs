//! The greeting the front end shows on start.
use vstd::prelude::*;
use vstd::string::*;

verus! {

/// The greeting for `name`.
pub open spec fn greeting_for(name: Seq<char>) -> Seq<char> {
    "Hello, "@ + name + "! You've been greeted from Rust!"@
}

/// Greets `name`.
pub fn greet(name: &str) -> (r: String)
    ensures
        r@ == greeting_for(name@),
{
    String::from_str("Hello, ").concat(name).concat("! You've been greeted from Rust!")
}

} // verus!
