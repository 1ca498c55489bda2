//! Global-shortcut dispatch and screen-capture exclusion for a desktop
//! assistant: a registry from action identifiers to shortcut strings, the
//! decision of which action a pressed key combination triggers, and the
//! decisions around the window attribute that keeps the window out of
//! screen recordings.
pub mod capture;
pub mod screen_protection;
pub mod shortcuts;

use vstd::prelude::*;

verus! {

/// The greeting text for a name.
pub open spec fn greeting(name: Seq<char>) -> Seq<char> {
    "Hello, "@ + name + "! You've been greeted from Rust!"@
}

/// Greets a name.
pub fn greet(name: &str) -> (r: String)
    ensures
        r@ == greeting(name@),
{
    let mut s = "Hello, ".to_owned();
    s.append(name);
    s.append("! You've been greeted from Rust!");
    s
}

} // verus!
