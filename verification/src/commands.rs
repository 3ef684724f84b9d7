//! Commands that the user interface can invoke.

use vstd::prelude::*;

verus! {

/// The greeting for `name`. Every name is accepted, the empty one too.
pub fn greet(name: &str) -> (greeting: String)
    ensures
        greeting@ == "Hello, "@ + name@ + "! You've been greeted from Rust!"@,
{
    let mut greeting = String::from_str("Hello, ");
    greeting.append(name);
    greeting.append("! You've been greeted from Rust!");
    greeting
}

} // verus!
