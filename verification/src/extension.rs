//! Extension extraction: the suffix after the last `.` of a submitted name.

use vstd::prelude::*;
use vstd::string::*;

use crate::store::StoreError;

verus! {

/// Index of the last `.` in `s`, or -1 when there is none.
pub open spec fn last_dot(s: Seq<char>) -> int
    decreases s.len(),
{
    if s.len() == 0 {
        -1
    } else if s[s.len() - 1] == '.' {
        s.len() - 1
    } else {
        last_dot(s.drop_last())
    }
}

/// Whether `s` holds a `.` at all, so that an extension can be taken.
pub open spec fn has_extension(s: Seq<char>) -> bool {
    last_dot(s) >= 0
}

/// The extension of `s`: everything after the last `.`, possibly empty.
pub open spec fn extension_of(s: Seq<char>) -> Seq<char> {
    s.subrange(last_dot(s) + 1, s.len() as int)
}

/// `last_dot` is in range, points at a `.`, and nothing after it is a `.`.
pub proof fn lemma_last_dot(s: Seq<char>)
    ensures
        -1 <= last_dot(s) < s.len(),
        last_dot(s) >= 0 ==> s[last_dot(s)] == '.',
        forall|j: int| last_dot(s) < j < s.len() ==> s[j] != '.',
    decreases s.len(),
{
    if s.len() == 0 {
    } else if s[s.len() - 1] == '.' {
    } else {
        lemma_last_dot(s.drop_last());
        assert(forall|j: int|
            0 <= j < s.len() - 1 ==> s.drop_last()[j] == s[j]);
    }
}

/// A `.` with no later `.` after it is exactly where `last_dot` points.
pub proof fn lemma_last_dot_unique(s: Seq<char>, i: int)
    requires
        0 <= i < s.len(),
        s[i] == '.',
        forall|j: int| i < j < s.len() ==> s[j] != '.',
    ensures
        last_dot(s) == i,
    decreases s.len(),
{
    if i == s.len() - 1 {
    } else {
        assert(s[s.len() - 1] != '.');
        assert(forall|j: int|
            0 <= j < s.len() - 1 ==> s.drop_last()[j] == s[j]);
        lemma_last_dot_unique(s.drop_last(), i);
    }
}

/// An extension never holds a `.` itself: it sits after the last one.
pub proof fn lemma_extension_has_no_dot(s: Seq<char>)
    requires
        has_extension(s),
    ensures
        forall|i: int| 0 <= i < extension_of(s).len() ==> extension_of(s)[i] != '.',
{
    lemma_last_dot(s);
}

/// Splits `name` at its last `.` and returns the suffix after it, verbatim;
/// the suffix may be empty. A name without any `.` is a client input error.
pub fn extract_extension(name: &str) -> (r: Result<String, StoreError>)
    ensures
        match r {
            Ok(ext) => has_extension(name@) && ext@ == extension_of(name@) && (forall|i: int|
                0 <= i < ext@.len() ==> #[trigger] ext@[i] != '.'),
            Err(e) => e == StoreError::MissingExtension && !has_extension(name@),
        },
{
    let n: usize = name.unicode_len();
    let mut i: usize = n;
    while i > 0
        invariant
            i <= n,
            n == name@.len(),
            forall|j: int| i <= j < n ==> name@[j] != '.',
        decreases i,
    {
        i = i - 1;
        if name.get_char(i) == '.' {
            proof {
                lemma_last_dot_unique(name@, i as int);
                lemma_extension_has_no_dot(name@);
            }
            let ext = name.substring_char(i + 1, n);
            return Ok(ext.to_owned());
        }
    }
    proof {
        lemma_last_dot(name@);
    }
    Err(StoreError::MissingExtension)
}

} // verus!
