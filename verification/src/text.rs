//! Small verified text helpers shared by the storage monitor: the leaf of a
//! slash-separated path, and character-wise string comparison.

use vstd::prelude::*;
use vstd::string::StrSliceExecFns;
use vstd::string::StringExecFns;

verus! {

/// The leaf of a path: the characters after the last `/`. A string without
/// `/` is its own leaf; a string ending in `/` has an empty leaf.
pub open spec fn leaf_of(s: Seq<char>) -> Seq<char>
    decreases s.len(),
{
    if s.len() == 0 {
        s
    } else if s[s.len() - 1] == '/' {
        Seq::empty()
    } else {
        leaf_of(s.drop_last()).push(s[s.len() - 1])
    }
}

/// `leaf_of` returns the suffix that starts right after the last `/`.
proof fn lemma_leaf_of_suffix(s: Seq<char>, i: int)
    requires
        0 <= i <= s.len(),
        i == 0 || s[i - 1] == '/',
        forall|j: int| i <= j < s.len() ==> s[j] != '/',
    ensures
        leaf_of(s) == s.subrange(i, s.len() as int),
    decreases s.len(),
{
    if i == s.len() {
        assert(leaf_of(s) =~= s.subrange(i, s.len() as int));
    } else {
        lemma_leaf_of_suffix(s.drop_last(), i);
        assert(s.drop_last().subrange(i, s.len() - 1).push(s[s.len() - 1]) =~= s.subrange(
            i,
            s.len() as int,
        ));
    }
}

/// The leaf of `path`: the characters after the last `/`.
pub fn leaf_name(path: &str) -> (r: String)
    ensures
        r@ == leaf_of(path@),
{
    let n = path.unicode_len();
    let mut i = n;
    while i > 0 && path.get_char(i - 1) != '/'
        invariant
            i <= n,
            n == path@.len(),
            forall|j: int| i <= j < n ==> path@[j] != '/',
        decreases i,
    {
        i = i - 1;
    }
    proof {
        lemma_leaf_of_suffix(path@, i as int);
    }
    String::from_str(path.substring_char(i, n))
}

/// Character-wise string equality.
pub fn str_eq(a: &str, b: &str) -> (r: bool)
    ensures
        r == (a@ == b@),
{
    let n = a.unicode_len();
    if n != b.unicode_len() {
        return false;
    }
    let mut i: usize = 0;
    while i < n
        invariant
            i <= n,
            n == a@.len(),
            n == b@.len(),
            forall|j: int| 0 <= j < i ==> a@[j] == b@[j],
        decreases n - i,
    {
        if a.get_char(i) != b.get_char(i) {
            return false;
        }
        i = i + 1;
    }
    proof {
        assert(a@ =~= b@);
    }
    true
}

} // verus!
