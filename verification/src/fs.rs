//! The computed part of the clone step: a clone of an identifier URL lands
//! in a directory named by the path component after the URL's last `/`.
//! Creating that directory and running the clone itself are side effects
//! that live outside the library.

use vstd::prelude::*;
use vstd::string::StrSliceExecFns;

verus! {

/// Index of the first character after the last `/` of `s`; `0` when `s`
/// holds no `/` at all.
pub open spec fn spec_name_start(s: Seq<char>) -> int
    decreases s.len(),
{
    if s.len() == 0 {
        0
    } else if s[s.len() - 1] == '/' {
        s.len() as int
    } else {
        spec_name_start(s.drop_last())
    }
}

/// The suffix of `s` after its last `/`: the whole of `s` when it holds no
/// `/`, and empty when it ends in `/`.
pub open spec fn spec_repo_name(s: Seq<char>) -> Seq<char> {
    s.subrange(spec_name_start(s), s.len() as int)
}

/// A position with a `/` just before it and none from it onward is exactly
/// where the name after the last `/` starts.
pub proof fn lemma_name_start_found(s: Seq<char>, i: int)
    requires
        0 <= i <= s.len(),
        forall|j: int| i <= j < s.len() ==> s[j] != '/',
        i > 0 ==> s[i - 1] == '/',
    ensures
        spec_name_start(s) == i,
    decreases s.len(),
{
    if s.len() == 0 {
    } else if s[s.len() - 1] == '/' {
        assert(i == s.len());
    } else {
        assert(i < s.len());
        lemma_name_start_found(s.drop_last(), i);
    }
}

/// The directory a clone of `url` lands in: the path component after the
/// last `/` of the identifier URL.
pub fn repo_name(url: &str) -> (r: String)
    ensures
        r@ == spec_repo_name(url@),
{
    let n: usize = url.unicode_len();
    let mut start: usize = 0;
    let mut j: usize = 0;
    while j < n
        invariant
            j <= n,
            start <= j,
            n == url@.len(),
            start > 0 ==> url@[start - 1] == '/',
            forall|k: int| start <= k < j ==> url@[k] != '/',
        decreases n - j,
    {
        if url.get_char(j) == '/' {
            start = j + 1;
        }
        j += 1;
    }
    proof {
        lemma_name_start_found(url@, start as int);
    }
    url.substring_char(start, n).to_owned()
}

} // verus!
