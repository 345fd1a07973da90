//! Comparing and joining text.

use vstd::prelude::*;
use vstd::std_specs::iter::IteratorSpec;
use vstd::string::StringExecFns;

verus! {

broadcast use vstd::string::group_string_axioms;

/// The characters of an optional string.
pub open spec fn text_of(s: Option<String>) -> Option<Seq<char>> {
    match s {
        Some(t) => Some(t@),
        None => None,
    }
}

/// Whether `a` and `b` hold the same characters.
pub fn same_text(a: &str, b: &str) -> (same: bool)
    ensures
        same == (a@ == b@),
{
    let mut left = a.chars();
    let mut right = b.chars();
    let ghost mut n: int = 0;
    loop
        invariant
            0 <= n <= a@.len(),
            n <= b@.len(),
            left.obeys_prophetic_iter_laws(),
            right.obeys_prophetic_iter_laws(),
            left.remaining() == a@.skip(n),
            right.remaining() == b@.skip(n),
            forall|i: int| 0 <= i < n ==> a@[i] == b@[i],
        decreases a@.len() - n,
    {
        let x = left.next();
        let y = right.next();
        match x {
            Some(c) => match y {
                Some(d) => {
                    if c != d {
                        assert(a@[n] != b@[n]);
                        return false;
                    }
                },
                None => {
                    assert(a@.len() != b@.len());
                    return false;
                },
            },
            None => match y {
                Some(_) => {
                    assert(a@.len() != b@.len());
                    return false;
                },
                None => {
                    assert(a@ =~= b@);
                    return true;
                },
            },
        }
        proof {
            n = n + 1;
        }
    }
}

/// The text `a` followed by `b` and then by `c`.
pub fn join3(a: &str, b: &str, c: &str) -> (joined: String)
    ensures
        joined@ == a@ + b@ + c@,
{
    let mut joined: String = String::from_str(a);
    joined.append(b);
    joined.append(c);
    joined
}

} // verus!
