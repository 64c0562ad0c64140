//! The service of the test payload.
use crate::text;
use vstd::prelude::*;
use vstd::string::StringExecFns;

verus! {

/// The sum of two integers.
pub open spec fn sum(a: int, b: int) -> int {
    a + b
}

/// The greeting that a message is answered with.
pub open spec fn greeting(message: Seq<char>) -> Seq<char> {
    "Hello "@ + message
}

/// The test payload.
#[derive(Debug)]
pub struct TestPayload {}

impl TestPayload {
    /// The sum of two integers that has to fit in an integer.
    pub fn add_integer(&self, a: i32, b: i32) -> (r: i32)
        requires
            i32::MIN <= a + b <= i32::MAX,
        ensures
            r == a + b,
            r == sum(a as int, b as int),
    {
        a + b
    }

    /// A greeting.
    pub fn hello(&self, message: &str) -> (r: String)
        ensures
            r@ == "Hello "@ + message@,
            r@ == greeting(message@),
    {
        "Hello ".to_owned().concat(message)
    }
}

/// A sum exceeds the first number by the second, and does not depend on their order.
pub proof fn sum_takes_both_numbers(a: int, b: int)
    ensures
        sum(a, b) - a == b,
        sum(a, b) == sum(b, a),
{
}

/// A greeting holds the message behind the word of greeting, unchanged: different messages
/// are answered differently.
pub proof fn greeting_ends_with_the_message(a: Seq<char>, b: Seq<char>)
    ensures
        text::has_prefix(greeting(a), "Hello "@),
        text::has_suffix(greeting(a), a),
        greeting(a).len() == "Hello "@.len() + a.len(),
        a != b ==> greeting(a) != greeting(b),
{
    let n = "Hello "@.len() as int;
    assert(greeting(a).take(n) =~= "Hello "@);
    assert(greeting(a).skip(n) =~= a);
    assert(greeting(b).skip(n) =~= b);
}

} // verus!
