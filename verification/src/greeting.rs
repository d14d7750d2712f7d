//! The greeting shown to a user who has given a name.

use vstd::prelude::*;
use vstd::string::*;

verus! {

/// The greeting for `name`: the name between a fixed opening and a fixed close.
pub open spec fn greeting_text(name: Seq<char>) -> Seq<char> {
    "Hello, "@ + name + "! Welcome to Nexus Encryption!"@
}

/// Greets `name`. Any name is accepted, the empty one too.
pub fn greet(name: &str) -> (text: String)
    ensures
        text@ == greeting_text(name@),
{
    let opening = String::from_str("Hello, ");
    let addressed = opening.concat(name);
    addressed.concat("! Welcome to Nexus Encryption!")
}

} // verus!
