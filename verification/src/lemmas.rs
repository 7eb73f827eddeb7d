//! What follows from the definition of the greeting's text, proved once so
//! that callers need not unfold the fixed parts themselves.

use vstd::prelude::*;

use crate::greeting;

verus! {

/// The greeting is twenty characters longer than the name: seven before it
/// and thirteen after it.
pub proof fn lemma_greeting_len(name: Seq<char>)
    ensures
        greeting(name).len() == name.len() + 20,
{
    reveal_strlit("Hello, ");
    reveal_strlit("! (from Rust)");
}

/// The greeting holds the name unchanged, between the fixed opening and the
/// fixed close: nothing of the name is dropped, added or replaced.
pub proof fn lemma_greeting_holds_name(name: Seq<char>)
    ensures
        greeting(name).take(7) == "Hello, "@,
        greeting(name).skip(7).take(name.len() as int) == name,
        greeting(name).skip(7).skip(name.len() as int) == "! (from Rust)"@,
{
    reveal_strlit("Hello, ");
    reveal_strlit("! (from Rust)");
    assert(greeting(name).take(7) =~= "Hello, "@);
    assert(greeting(name).skip(7).take(name.len() as int) =~= name);
    assert(greeting(name).skip(7).skip(name.len() as int) =~= "! (from Rust)"@);
}

/// Two names with the same greeting are the same name.
pub proof fn lemma_greeting_injective(a: Seq<char>, b: Seq<char>)
    requires
        greeting(a) == greeting(b),
    ensures
        a == b,
{
    lemma_greeting_len(a);
    lemma_greeting_len(b);
    lemma_greeting_holds_name(a);
    lemma_greeting_holds_name(b);
}

} // verus!
