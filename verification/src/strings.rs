//! Character-level string helpers: equality, searching, splitting and path
//! stems, each specified over the `Seq<char>` view of the text.
use vstd::prelude::*;
use vstd::string::StrSliceExecFns;

verus! {

/// Index of the first occurrence of `c` in `s`; `s.len()` when `c` is absent.
pub open spec fn first_index_of(s: Seq<char>, c: char) -> int
    decreases s.len(),
{
    if s.len() == 0 {
        0
    } else if s[0] == c {
        0
    } else {
        1 + first_index_of(s.drop_first(), c)
    }
}

/// Index of the last occurrence of `c` in `s`; `-1` when `c` is absent.
pub open spec fn last_index_of(s: Seq<char>, c: char) -> int
    decreases s.len(),
{
    if s.len() == 0 {
        -1
    } else if s[s.len() - 1] == c {
        s.len() - 1
    } else {
        last_index_of(s.drop_last(), c)
    }
}

/// The first occurrence is pinned by a witness: a `c`-free prefix of length
/// `k`, followed by `c` (or by the end of the string).
pub proof fn lemma_first_index_of_witness(s: Seq<char>, c: char, k: int)
    requires
        0 <= k <= s.len(),
        forall|j: int| 0 <= j < k ==> s[j] != c,
        k < s.len() ==> s[k] == c,
    ensures
        first_index_of(s, c) == k,
    decreases s.len(),
{
    if s.len() > 0 && s[0] != c {
        assert(forall|j: int| 0 <= j < k - 1 ==> s.drop_first()[j] == s[j + 1] && s[j + 1] != c);
        lemma_first_index_of_witness(s.drop_first(), c, k - 1);
    }
}

pub proof fn lemma_last_index_of(s: Seq<char>, c: char)
    ensures
        -1 <= last_index_of(s, c) < s.len(),
        last_index_of(s, c) >= 0 ==> s[last_index_of(s, c)] == c,
        forall|j: int| last_index_of(s, c) < j < s.len() ==> s[j] != c,
    decreases s.len(),
{
    if s.len() > 0 && s[s.len() - 1] != c {
        lemma_last_index_of(s.drop_last(), c);
        assert(forall|j: int| 0 <= j < s.len() - 1 ==> s[j] == s.drop_last()[j]);
    }
}

/// Executable string equality, stated over the character views.
pub fn str_eq(a: &str, b: &str) -> (r: bool)
    ensures
        r == (a@ == b@),
{
    let sa: String = a.to_owned();
    let sb: String = b.to_owned();
    sa == sb
}

/// Whether `c` occurs in `s`.
pub fn contains_char(s: &str, c: char) -> (r: bool)
    ensures
        r == (first_index_of(s@, c) < s@.len()),
        r == s@.contains(c),
{
    let n = s.unicode_len();
    let mut i: usize = 0;
    while i < n
        invariant
            0 <= i <= n,
            n == s@.len(),
            forall|j: int| 0 <= j < i ==> s@[j] != c,
        decreases n - i,
    {
        if s.get_char(i) == c {
            proof {
                lemma_first_index_of_witness(s@, c, i as int);
            }
            return true;
        }
        i += 1;
    }
    proof {
        lemma_first_index_of_witness(s@, c, n as int);
    }
    false
}

/// The views of a sequence of strings.
pub open spec fn views_of(v: Seq<String>) -> Seq<Seq<char>> {
    v.map_values(|x: String| x@)
}

/// `s` split at every occurrence of `sep`, empty tokens kept, order preserved.
pub open spec fn spec_split(s: Seq<char>, sep: char) -> Seq<Seq<char>>
    decreases s.len(),
{
    let i = first_index_of(s, sep);
    if 0 <= i < s.len() {
        seq![s.subrange(0, i)] + spec_split(s.subrange(i + 1, s.len() as int), sep)
    } else {
        seq![s]
    }
}

/// Split `s` at every occurrence of `sep`, keeping empty tokens.
pub fn split_on(s: &str, sep: char) -> (r: Vec<String>)
    ensures
        views_of(r@) == spec_split(s@, sep),
        r@.len() >= 1,
{
    let n = s.unicode_len();
    let mut out: Vec<String> = Vec::new();
    let mut start: usize = 0;
    let mut i: usize = 0;
    proof {
        assert(s@.subrange(0, n as int) =~= s@);
        assert(views_of(out@) =~= Seq::<Seq<char>>::empty());
        assert(views_of(out@) + spec_split(s@, sep) =~= spec_split(s@, sep));
    }
    while i < n
        invariant
            0 <= start <= i <= n,
            n == s@.len(),
            forall|j: int| start <= j < i ==> s@[j] != sep,
            spec_split(s@, sep) == views_of(out@) + spec_split(
                s@.subrange(start as int, n as int),
                sep,
            ),
        decreases n - i,
    {
        if s.get_char(i) == sep {
            let tok = s.substring_char(start, i).to_owned();
            proof {
                let tail = s@.subrange(start as int, n as int);
                assert(forall|j: int|
                    0 <= j < i - start ==> tail[j] == s@[start + j] && s@[start + j] != sep);
                lemma_first_index_of_witness(tail, sep, i - start);
                assert(tail.subrange(0, i - start) =~= tok@);
                assert(tail.subrange(i - start + 1, tail.len() as int) =~= s@.subrange(
                    i + 1,
                    n as int,
                ));
                assert(views_of(out@.push(tok)) =~= views_of(out@) + seq![tok@]);
                assert(views_of(out@) + (seq![tok@] + spec_split(
                    s@.subrange(i + 1, n as int),
                    sep,
                )) =~= views_of(out@.push(tok)) + spec_split(s@.subrange(i + 1, n as int), sep));
            }
            out.push(tok);
            start = i + 1;
        }
        i += 1;
    }
    let tok = s.substring_char(start, n).to_owned();
    proof {
        let tail = s@.subrange(start as int, n as int);
        assert(forall|j: int|
            0 <= j < n - start ==> tail[j] == s@[start + j] && s@[start + j] != sep);
        lemma_first_index_of_witness(tail, sep, n - start);
        assert(spec_split(tail, sep) == seq![tail]);
        assert(tail =~= tok@);
        assert(views_of(out@.push(tok)) =~= views_of(out@) + seq![tok@]);
    }
    out.push(tok);
    out
}

/// Whether `prefix@` is a prefix of `s@`.
pub fn str_starts_with(s: &str, prefix: &str) -> (r: bool)
    ensures
        r == prefix@.is_prefix_of(s@),
{
    let n = s.unicode_len();
    let m = prefix.unicode_len();
    if m > n {
        assert(!prefix@.is_prefix_of(s@));
        return false;
    }
    let mut i: usize = 0;
    while i < m
        invariant
            0 <= i <= m <= n,
            n == s@.len(),
            m == prefix@.len(),
            forall|j: int| 0 <= j < i ==> s@[j] == prefix@[j],
        decreases m - i,
    {
        if s.get_char(i) != prefix.get_char(i) {
            assert(!prefix@.is_prefix_of(s@)) by {
                assert(s@.subrange(0, m as int)[i as int] == s@[i as int]);
            }
            return false;
        }
        i += 1;
    }
    assert(prefix@ =~= s@.subrange(0, m as int));
    true
}

/// The base name of `path`: the text after the last `/`, with the text from
/// the last `.` on (if any) removed.
pub open spec fn spec_leaf_base(path: Seq<char>) -> Seq<char> {
    let leaf = path.subrange(last_index_of(path, '/') + 1, path.len() as int);
    if last_index_of(leaf, '.') >= 0 {
        leaf.subrange(0, last_index_of(leaf, '.'))
    } else {
        leaf
    }
}

/// Last occurrence of `c` in `s`, scanned executably.
fn rfind_char(s: &str, c: char) -> (r: Option<usize>)
    ensures
        match r {
            Some(i) => i == last_index_of(s@, c),
            None => last_index_of(s@, c) == -1,
        },
{
    proof {
        lemma_last_index_of(s@, c);
    }
    let n = s.unicode_len();
    let mut i: usize = n;
    while i > 0
        invariant
            0 <= i <= n,
            n == s@.len(),
            forall|j: int| i <= j < n ==> s@[j] != c,
            -1 <= last_index_of(s@, c) < s@.len(),
            last_index_of(s@, c) >= 0 ==> s@[last_index_of(s@, c)] == c,
            forall|j: int| last_index_of(s@, c) < j < s@.len() ==> s@[j] != c,
        decreases i,
    {
        i -= 1;
        if s.get_char(i) == c {
            assert(i as int == last_index_of(s@, c));
            return Some(i);
        }
    }
    assert(last_index_of(s@, c) == -1);
    None
}

/// The file stem of a `/`-separated path: everything after the last `/`,
/// without the extension introduced by the last `.`.
pub fn leaf_base(path: &str) -> (r: String)
    ensures
        r@ == spec_leaf_base(path@),
{
    proof {
        lemma_last_index_of(path@, '/');
    }
    let n = path.unicode_len();
    let leaf_start: usize = match rfind_char(path, '/') {
        Some(i) => i + 1,
        None => 0,
    };
    let leaf = path.substring_char(leaf_start, n);
    proof {
        assert(leaf@ =~= path@.subrange(last_index_of(path@, '/') + 1, path@.len() as int));
        lemma_last_index_of(leaf@, '.');
    }
    match rfind_char(leaf, '.') {
        Some(i) => {
            let r = leaf.substring_char(0, i).to_owned();
            proof {
                assert(r@ =~= spec_leaf_base(path@));
            }
            r
        },
        None => {
            let r = leaf.to_owned();
            proof {
                assert(r@ =~= spec_leaf_base(path@));
            }
            r
        },
    }
}

} // verus!
