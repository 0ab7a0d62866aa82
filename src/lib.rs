//! Borrowing in three small functions: one reads a string through a shared
//! reference, one extends it through an exclusive reference, and one returns
//! one of two borrowed slices that share a lifetime.

use vstd::prelude::*;
use vstd::string::StringExecFns;
use vstd::utf8::encode_utf8;

verus! {

/// The length in bytes of the UTF-8 encoding of `s`: what `str::len` reports.
pub open spec fn byte_len(s: Seq<char>) -> nat {
    encode_utf8(s).len()
}

/// The text that `change_string` appends.
pub open spec fn world_suffix() -> Seq<char> {
    seq![',', ' ', 'w', 'o', 'r', 'l', 'd', '!']
}

/// The slice that `longest` selects: the first when it is strictly longer in
/// bytes, else the second.
pub open spec fn longer_of(a: Seq<char>, b: Seq<char>) -> Seq<char> {
    if byte_len(a) > byte_len(b) {
        a
    } else {
        b
    }
}

/// Reads the length of a borrowed string, in bytes, without taking ownership.
pub fn calculate_length(s: &String) -> (r: usize)
    ensures
        r == byte_len(s@),
{
    s.as_str().as_bytes().len()
}

/// Appends ", world!" to a string held through an exclusive borrow.
pub fn change_string(s: &mut String)
    ensures
        final(s)@ == old(s)@ + world_suffix(),
{
    let suffix = ", world!";
    proof {
        reveal_strlit(", world!");
    }
    assert(suffix@ == world_suffix());
    s.append(suffix);
}

/// Returns whichever of two slices of one lifetime is longer in bytes; on a
/// tie the second one.
pub fn longest<'a>(s1: &'a str, s2: &'a str) -> (r: &'a str)
    ensures
        r@ == longer_of(s1@, s2@),
        byte_len(s1@) > byte_len(s2@) ==> r == s1,
        byte_len(s1@) <= byte_len(s2@) ==> r == s2,
{
    if s1.as_bytes().len() > s2.as_bytes().len() {
        s1
    } else {
        s2
    }
}

} // verus!
