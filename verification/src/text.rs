//! String comparison and message construction.
//!
//! Parsing compares an input string against stored canonical and alias
//! strings, either byte-for-byte or under case-folding equality; the
//! case-folding comparison is delegated to the `unicase` crate.

use vstd::prelude::*;
use vstd::string::StrSliceExecFns;
use vstd::string::StringExecFns;

verus! {

/// The Unicode case folding of a string, as the `unicase` crate computes it.
/// It depends on the characters of the string alone.
pub uninterp spec fn case_fold(s: Seq<char>) -> Seq<char>;

/// Relies on `unicase::eq` (unicase 2.10.0, `src/lib.rs`): equality of the
/// case foldings of the two strings, a function of their characters alone.
#[verifier::external_body]
pub fn eq_case_insensitive(a: &str, b: &str) -> (r: bool)
    ensures
        r == (case_fold(a@) == case_fold(b@)),
{
    unicase::eq(a, b)
}

/// Byte-for-byte string equality, decided character by character.
pub fn str_eq(a: &str, b: &str) -> (r: bool)
    ensures
        r == (a@ == b@),
{
    let alen = a.unicode_len();
    let blen = b.unicode_len();
    if alen != blen {
        return false;
    }
    let mut i: usize = 0;
    while i < alen
        invariant
            alen == a@.len(),
            blen == b@.len(),
            alen == blen,
            i <= alen,
            forall|j: int| 0 <= j < i ==> a@[j] == b@[j],
        decreases alen - i,
    {
        let ca = a.get_char(i);
        let cb = b.get_char(i);
        if ca != cb {
            return false;
        }
        i += 1;
    }
    proof {
        assert(a@ =~= b@);
    }
    true
}

/// The decode failure message for an unrecognized input, when allocation is
/// available.
pub fn invalid_message(ident: &str, input: &str) -> (r: String)
    ensures
        r@ == "invalid "@ + ident@ + ": "@ + input@,
{
    let mut m = String::from_str("invalid ");
    m.append(ident);
    m.append(": ");
    m.append(input);
    m
}

/// The description of what a deserializer expects, handed to the
/// framework's invalid-value error.
pub fn expecting_message(ident: &str) -> (r: String)
    ensures
        r@ == "a valid "@ + ident@ + " string value"@,
{
    let mut m = String::from_str("a valid ");
    m.append(ident);
    m.append(" string value");
    m
}

} // verus!
