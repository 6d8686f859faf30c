//! Splitting a filename into a base name and an extension.

use vstd::prelude::*;

verus! {

/// No `.` among the characters of `s` at positions `lo .. hi`.
pub open spec fn no_dot(s: Seq<char>, lo: int, hi: int) -> bool {
    forall|i: int| lo <= i < hi ==> #[trigger] s[i] != '.'
}

/// `k` is the position of the first `.` of `s`.
pub open spec fn is_first_dot(s: Seq<char>, k: int) -> bool {
    0 <= k < s.len() && s[k] == '.' && no_dot(s, 0, k)
}

/// `k` is the position of the last `.` of `s`.
pub open spec fn is_last_dot(s: Seq<char>, k: int) -> bool {
    0 <= k < s.len() && s[k] == '.' && no_dot(s, k + 1, s.len() as int)
}

/// Where the name is split: the first `.` under the multi-extension policy,
/// the last one otherwise, and `s.len()` when there is no `.` at all.
pub open spec fn split_pos(s: Seq<char>, multi_ext: bool) -> int {
    if multi_ext {
        if exists|k: int| is_first_dot(s, k) {
            choose|k: int| is_first_dot(s, k)
        } else {
            s.len() as int
        }
    } else {
        if exists|k: int| is_last_dot(s, k) {
            choose|k: int| is_last_dot(s, k)
        } else {
            s.len() as int
        }
    }
}

/// The base name: everything before the split point.
pub open spec fn base_of(s: Seq<char>, multi_ext: bool) -> Seq<char> {
    s.subrange(0, split_pos(s, multi_ext))
}

/// The extension: everything after the split point, empty without a `.`.
pub open spec fn ext_of(s: Seq<char>, multi_ext: bool) -> Seq<char> {
    let k = split_pos(s, multi_ext);
    if k < s.len() {
        s.subrange(k + 1, s.len() as int)
    } else {
        Seq::empty()
    }
}

/// `s` holds exactly one `.`, at position `k`.
pub open spec fn only_dot_at(s: Seq<char>, k: int) -> bool {
    0 <= k < s.len() && s[k] == '.' && no_dot(s, 0, k) && no_dot(s, k + 1, s.len() as int)
}

/// A filename split into its base name and its extension.
pub struct DecomposedName {
    pub base: String,
    pub extension: String,
}

proof fn lemma_first_dot_unique(s: Seq<char>, k: int)
    requires
        is_first_dot(s, k),
    ensures
        split_pos(s, true) == k,
{
    let j = choose|j: int| is_first_dot(s, j);
    if j < k {
        assert(s[j] != '.');
    } else if k < j {
        assert(s[k] != '.');
    }
}

proof fn lemma_last_dot_unique(s: Seq<char>, k: int)
    requires
        is_last_dot(s, k),
    ensures
        split_pos(s, false) == k,
{
    let j = choose|j: int| is_last_dot(s, j);
    if j < k {
        assert(s[k] != '.');
    } else if k < j {
        assert(s[j] != '.');
    }
}

/// A filename without a `.` has an empty extension and is its own base name,
/// under either extension policy.
pub proof fn lemma_no_dot_whole_name(f: Seq<char>, multi_ext: bool)
    requires
        no_dot(f, 0, f.len() as int),
    ensures
        ext_of(f, multi_ext) == Seq::<char>::empty(),
        base_of(f, multi_ext) == f,
{
    assert(!exists|k: int| is_first_dot(f, k));
    assert(!exists|k: int| is_last_dot(f, k));
    assert(f.subrange(0, f.len() as int) =~= f);
}

/// With exactly one `.` in a filename, the single- and multi-extension
/// policies give the same base name and the same extension.
pub proof fn lemma_one_dot_policies_agree(f: Seq<char>, k: int)
    requires
        only_dot_at(f, k),
    ensures
        base_of(f, true) == base_of(f, false),
        ext_of(f, true) == ext_of(f, false),
{
    lemma_first_dot_unique(f, k);
    lemma_last_dot_unique(f, k);
}

/// Position of the first `.` in `s`, or its length when it has none.
fn find_first_dot(s: &str) -> (k: usize)
    ensures
        k == split_pos(s@, true),
        k <= s@.len(),
{
    let n = s.unicode_len();
    let mut i: usize = 0;
    while i < n
        invariant
            n == s@.len(),
            i <= n,
            no_dot(s@, 0, i as int),
        decreases n - i,
    {
        if s.get_char(i) == '.' {
            proof {
                lemma_first_dot_unique(s@, i as int);
            }
            return i;
        }
        i = i + 1;
    }
    i
}

/// Position of the last `.` in `s`, or its length when it has none.
fn find_last_dot(s: &str) -> (k: usize)
    ensures
        k == split_pos(s@, false),
        k <= s@.len(),
{
    let n = s.unicode_len();
    let mut i: usize = n;
    while i > 0
        invariant
            n == s@.len(),
            i <= n,
            no_dot(s@, i as int, n as int),
        decreases i,
    {
        if s.get_char(i - 1) == '.' {
            proof {
                lemma_last_dot_unique(s@, i - 1);
            }
            return i - 1;
        }
        i = i - 1;
    }
    n
}

/// Splits `file_name` at its first `.` (`multi_ext`) or its last `.`; the
/// characters keep their case.
pub fn decompose(file_name: &str, multi_ext: bool) -> (d: DecomposedName)
    ensures
        d.base@ == base_of(file_name@, multi_ext),
        d.extension@ == ext_of(file_name@, multi_ext),
{
    let n = file_name.unicode_len();
    let k = if multi_ext {
        find_first_dot(file_name)
    } else {
        find_last_dot(file_name)
    };
    let base = String::from_str(file_name.substring_char(0, k));
    let extension = if k < n {
        String::from_str(file_name.substring_char(k + 1, n))
    } else {
        String::new()
    };
    DecomposedName { base, extension }
}

} // verus!
