//! Two small pure functions: a greeting formatter and an adder of unsigned
//! 64-bit integers, each with a contract that fixes its result exactly.

use vstd::prelude::*;

pub mod lemmas;

verus! {

/// The text of the greeting for `name`: a fixed opening, then `name` exactly
/// as given, then a fixed close.
pub open spec fn greeting(name: Seq<char>) -> Seq<char> {
    "Hello, "@ + name + "! (from Rust)"@
}

/// Greets a user by name.
///
/// Every string is accepted, and none is trimmed, escaped or checked: the
/// name stands in the greeting character for character.
pub fn greet(name: &str) -> (out: String)
    ensures
        out@ == greeting(name@),
{
    let mut out = String::from_str("Hello, ");
    out.append(name);
    out.append("! (from Rust)");
    out
}

/// The number of values a `u64` can take: two to the power of 64.
pub open spec fn u64_modulus() -> int {
    0x1_0000_0000_0000_0000
}

/// The sum of `a` and `b` as 64-bit unsigned arithmetic gives it: the
/// mathematical sum, reduced modulo two to the power of 64.
pub open spec fn wrapped_sum(a: u64, b: u64) -> int {
    (a + b) % u64_modulus()
}

/// Adds two unsigned integers.
///
/// The sum wraps around on overflow. Whenever the mathematical sum fits in
/// 64 bits, the result is that sum.
pub fn add(a: u64, b: u64) -> (sum: u64)
    ensures
        sum == wrapped_sum(a, b),
        a + b <= u64::MAX ==> sum == a + b,
        a + b > u64::MAX ==> sum == a + b - u64_modulus(),
{
    a.wrapping_add(b)
}

} // verus!
