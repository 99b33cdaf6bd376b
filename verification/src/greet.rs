//! The greeting echo command: a pure string template applied to a name.

use vstd::prelude::*;
use vstd::string::StringExecFns;

verus! {

/// The greeting built for `name`: the name spliced verbatim into the fixed
/// template, with no escaping or sanitization applied.
pub open spec fn greeting(name: Seq<char>) -> Seq<char> {
    "Hello, "@ + name + "! You've been greeted from Rust!"@
}

/// Returns the greeting for `name`.
pub fn greet(name: &str) -> (r: String)
    ensures
        r@ == greeting(name@),
{
    let mut message = String::from_str("Hello, ");
    message.append(name);
    message.append("! You've been greeted from Rust!");
    message
}

} // verus!
