//! What a field of a parameter record may be.
//!
//! The record that an animation is tuned with is a flat list of numbers.
//! The host reads and writes each of them across a boundary that knows six
//! kinds of number and no other.

use vstd::prelude::*;
use vstd::string::StrSliceExecFns;

verus! {

/// The name is that of one of the six kinds of number that a field of a
/// parameter record can have.
pub open spec fn param_type_named(name: Seq<char>) -> bool {
    ||| name == "u32"@
    ||| name == "u64"@
    ||| name == "i32"@
    ||| name == "i64"@
    ||| name == "f32"@
    ||| name == "f64"@
}

/// Whether two pieces of text hold the same characters.
fn same_text(a: &str, b: &str) -> (same: bool)
    ensures
        same == (a@ == b@),
{
    let n: usize = a.unicode_len();
    if b.unicode_len() != n {
        return false;
    }
    let mut i: usize = 0;
    while i < n
        invariant
            i <= n,
            n == a@.len(),
            n == b@.len(),
            forall|k: int| 0 <= k < i ==> a@[k] == b@[k],
        decreases n - i,
    {
        if a.get_char(i) != b.get_char(i) {
            return false;
        }
        i = i + 1;
    }
    assert(a@ =~= b@);
    true
}

/// Whether a field whose type is written `name` can stand in a parameter
/// record.
pub fn is_param_type(name: &str) -> (ok: bool)
    ensures
        ok == param_type_named(name@),
{
    same_text(name, "u32") || same_text(name, "u64") || same_text(name, "i32") || same_text(
        name,
        "i64",
    ) || same_text(name, "f32") || same_text(name, "f64")
}

} // verus!
