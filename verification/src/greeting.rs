//! The greeting formatter: wraps a caller-supplied name in a fixed
//! salutation and sign-off.

use vstd::prelude::*;
use vstd::string::StringExecFns;

verus! {

/// The greeting built around `name`: the fixed salutation, the name
/// verbatim, and the fixed sign-off.
pub open spec fn greeting_seq(name: Seq<char>) -> Seq<char> {
    "Hello, "@ + name + "! You've been greeted from Rust!"@
}

/// Builds the greeting for `name`.
pub fn greet(name: &str) -> (r: String)
    ensures
        r@ == greeting_seq(name@),
{
    let mut r = "Hello, ".to_owned();
    r.append(name);
    r.append("! You've been greeted from Rust!");
    r
}

/// The name stands verbatim inside the greeting, surrounded by the fixed
/// salutation and sign-off and nothing else.
pub proof fn lemma_greeting_surrounds_name(name: Seq<char>)
    ensures
        greeting_seq(name).len() == name.len() + 39,
        greeting_seq(name).subrange(0, 7) == "Hello, "@,
        greeting_seq(name).subrange(7, 7 + name.len() as int) == name,
        greeting_seq(name).subrange(7 + name.len() as int, greeting_seq(name).len() as int)
            == "! You've been greeted from Rust!"@,
{
    reveal_strlit("Hello, ");
    reveal_strlit("! You've been greeted from Rust!");
    assert(greeting_seq(name).subrange(0, 7) =~= "Hello, "@);
    assert(greeting_seq(name).subrange(7, 7 + name.len() as int) =~= name);
    assert(greeting_seq(name).subrange(7 + name.len() as int, greeting_seq(name).len() as int)
        =~= "! You've been greeted from Rust!"@);
}

/// The greeting is a function of the name alone: two greetings of the same
/// name are equal character for character, so repeated calls agree.
pub proof fn lemma_greeting_deterministic(name: Seq<char>, r1: Seq<char>, r2: Seq<char>)
    requires
        r1 == greeting_seq(name),
        r2 == greeting_seq(name),
    ensures
        r1 == r2,
{
}

} // verus!
