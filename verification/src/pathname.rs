//! The final segment of a path string: the characters after the last `/`,
//! or the whole string when it has none. A favorite whose path yields an
//! empty segment (a root path, or one ending in `/`) has no usable label
//! and is dropped from the navigation model.

use vstd::prelude::*;
use vstd::string::StrSliceExecFns;
use vstd::string::StringExecFns;

verus! {

/// Whether the path contains a separator.
pub open spec fn spec_has_slash(p: Seq<char>) -> bool {
    exists|i: int| 0 <= i < p.len() && p[i] == '/'
}

/// The characters after the last `/` of `p`; `p` itself when it has none.
/// Stepping past the first character at a time ends exactly after the last
/// separator.
///
/// This reads the string literally, a deliberately stricter rule than the
/// platform's path parsing: a path with a trailing separator has an empty
/// final segment and is dropped rather than labeled by its directory name,
/// and a path ending in `..` is labeled `..` rather than dropped.
pub open spec fn spec_basename(p: Seq<char>) -> Seq<char>
    decreases p.len(),
{
    if !spec_has_slash(p) {
        p
    } else {
        spec_basename(p.skip(1))
    }
}

/// With the last separator of `p` at `k`, the basename is everything after it.
pub proof fn lemma_basename_after_last_slash(p: Seq<char>, k: int)
    requires
        0 <= k < p.len(),
        p[k] == '/',
        forall|m: int| k < m < p.len() ==> p[m] != '/',
    ensures
        spec_basename(p) == p.skip(k + 1),
    decreases k,
{
    assert(spec_has_slash(p));
    assert(spec_basename(p) == spec_basename(p.skip(1)));
    if k == 0 {
        assert(forall|i: int| 0 <= i < p.skip(1).len() ==> p.skip(1)[i] == p[i + 1]);
        assert(!spec_has_slash(p.skip(1)));
        assert(spec_basename(p.skip(1)) == p.skip(1));
        assert(p.skip(1) == p.skip(k + 1));
    } else {
        let q = p.skip(1);
        assert(forall|i: int| 0 <= i < q.len() ==> q[i] == p[i + 1]);
        lemma_basename_after_last_slash(q, k - 1);
        assert(q.skip(k) =~= p.skip(k + 1));
    }
}

/// With no separator anywhere in `p`, the basename is `p` itself.
pub proof fn lemma_basename_no_slash(p: Seq<char>)
    requires
        forall|m: int| 0 <= m < p.len() ==> p[m] != '/',
    ensures
        spec_basename(p) == p,
{
    assert(!spec_has_slash(p));
}

/// The final segment of `path`, or `None` when that segment is empty and the
/// path therefore has no usable display label.
pub fn basename(path: &String) -> (r: Option<String>)
    ensures
        spec_basename(path@).len() > 0 ==> (r matches Some(s) && s@ == spec_basename(path@)),
        spec_basename(path@).len() == 0 ==> r is None,
{
    let s = path.as_str();
    let n = s.unicode_len();
    let mut idx: usize = 0;
    let mut j: usize = 0;
    while j < n
        invariant
            n == path@.len(),
            s@ == path@,
            j <= n,
            idx <= j,
            idx > 0 ==> path@[idx - 1] == '/',
            forall|m: int| idx <= m < j ==> path@[m] != '/',
        decreases n - j,
    {
        if s.get_char(j) == '/' {
            idx = j + 1;
        }
        j = j + 1;
    }
    proof {
        if idx == 0 {
            lemma_basename_no_slash(path@);
        } else {
            lemma_basename_after_last_slash(path@, idx - 1);
        }
        assert(path@.skip(idx as int) =~= path@.subrange(idx as int, n as int));
    }
    if idx == n {
        proof {
            if idx == 0 {
                assert(spec_basename(path@).len() == 0);
            } else {
                assert(spec_basename(path@) =~= Seq::<char>::empty());
            }
        }
        None
    } else {
        let sub = s.substring_char(idx, n);
        Some(sub.to_owned())
    }
}

} // verus!
