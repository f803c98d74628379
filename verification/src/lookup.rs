//! First-match lookup in a list of named values.
//!
//! Both the query parameters of an inbound event and the raw fields of a
//! stored offer record arrive as lists of `(name, value)` pairs; the first
//! pair with a matching name wins.

use vstd::prelude::*;
use crate::strutil::str_eq;

verus! {

/// The value of the first pair whose name matches, if any.
pub open spec fn assoc_lookup<T>(pairs: Seq<(String, T)>, name: Seq<char>) -> Option<T>
    decreases pairs.len(),
{
    if pairs.len() == 0 {
        None
    } else if pairs[0].0@ == name {
        Some(pairs[0].1)
    } else {
        assoc_lookup(pairs.drop_first(), name)
    }
}

/// A match at `i` with no match before it settles the lookup.
proof fn lemma_assoc_lookup_skip<T>(pairs: Seq<(String, T)>, name: Seq<char>, i: int)
    requires
        0 <= i <= pairs.len(),
        forall|j: int| 0 <= j < i ==> pairs[j].0@ != name,
    ensures
        assoc_lookup(pairs, name) == assoc_lookup(pairs.skip(i), name),
    decreases i,
{
    if i > 0 {
        assert(pairs.skip(i - 1).drop_first() =~= pairs.skip(i));
        lemma_assoc_lookup_skip(pairs, name, i - 1);
    } else {
        assert(pairs.skip(0) =~= pairs);
    }
}

/// Returns the value of the first pair named `name`.
pub fn assoc_first<'a, T>(pairs: &'a Vec<(String, T)>, name: &str) -> (r: Option<&'a T>)
    ensures
        match r {
            Some(v) => assoc_lookup(pairs@, name@) == Some(*v),
            None => assoc_lookup(pairs@, name@) is None,
        },
{
    let n = pairs.len();
    let mut i: usize = 0;
    while i < n
        invariant
            i <= n,
            n == pairs@.len(),
            forall|j: int| 0 <= j < i ==> pairs@[j].0@ != name@,
        decreases n - i,
    {
        let pair = &pairs[i];
        if str_eq(pair.0.as_str(), name) {
            proof {
                lemma_assoc_lookup_skip(pairs@, name@, i as int);
                assert(pairs@.skip(i as int)[0] == pairs@[i as int]);
            }
            return Some(&pair.1);
        }
        i = i + 1;
    }
    proof {
        lemma_assoc_lookup_skip(pairs@, name@, n as int);
        assert(pairs@.skip(n as int) =~= Seq::<(String, T)>::empty());
    }
    None
}

} // verus!
