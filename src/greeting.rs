use vstd::prelude::*;

verus! {

/// The text that the greeting command returns for `name`.
pub open spec fn greeting(name: Seq<char>) -> Seq<char> {
    "Hello, "@ + name + "! You've been greeted from Rust!"@
}

/// Greets `name`. The result is a function of the name alone: nothing else
/// is read or changed.
pub fn greet(name: &str) -> (r: String)
    ensures
        r@ == greeting(name@),
{
    let r = String::from_str("Hello, ");
    let r = r.concat(name);
    let r = r.concat("! You've been greeted from Rust!");
    proof {
        reveal_strlit("Hello, ");
        reveal_strlit("! You've been greeted from Rust!");
    }
    r
}

} // verus!
