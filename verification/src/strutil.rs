//! Verified string utilities: equality, substring search, prefix and suffix
//! handling, and character search.  All contracts are stated over the
//! `Seq<char>` views of `str` and `String`.

use vstd::prelude::*;

verus! {

/// True when `needle` occurs contiguously inside `hay`.
pub open spec fn is_substring(needle: Seq<char>, hay: Seq<char>) -> bool {
    exists|i: int|
        0 <= i && i + needle.len() <= hay.len() && #[trigger] hay.subrange(i, i + needle.len())
            == needle
}

/// True when `prefix` is an initial segment of `s`.
pub open spec fn is_prefix(prefix: Seq<char>, s: Seq<char>) -> bool {
    prefix.len() <= s.len() && s.subrange(0, prefix.len() as int) == prefix
}

/// True when `suffix` is a final segment of `s`.
pub open spec fn is_suffix(suffix: Seq<char>, s: Seq<char>) -> bool {
    suffix.len() <= s.len() && s.subrange(s.len() - suffix.len(), s.len() as int) == suffix
}

/// Character-for-character equality of two string slices.
pub fn str_eq(a: &str, b: &str) -> (r: bool)
    ensures
        r == (a@ == b@),
{
    let sa: String = a.to_owned();
    let sb: String = b.to_owned();
    sa == sb
}

/// Whether `pat` occurs in `s` starting exactly at character position `i`.
pub fn matches_at(s: &str, i: usize, pat: &str) -> (r: bool)
    requires
        i + pat@.len() <= s@.len(),
    ensures
        r == (s@.subrange(i as int, i + pat@.len()) == pat@),
{
    let _n = s.unicode_len();
    let m = pat.unicode_len();
    let sub = s.substring_char(i, i + m);
    str_eq(sub, pat)
}

/// Substring search; mirrors `str::contains` for plain-text needles.
pub fn contains_sub(hay: &str, needle: &str) -> (r: bool)
    ensures
        r == is_substring(needle@, hay@),
{
    let n = hay.unicode_len();
    let m = needle.unicode_len();
    if m > n {
        assert(!is_substring(needle@, hay@));
        return false;
    }
    if m == 0 {
        proof {
            assert(hay@.subrange(0, 0 + needle@.len() as int) =~= needle@);
        }
        return true;
    }
    let mut i: usize = 0;
    loop
        invariant
            0 < m <= n,
            n == hay@.len(),
            m == needle@.len(),
            i <= n - m + 1,
            forall|j: int|
                0 <= j < i ==> #[trigger] hay@.subrange(j, j + needle@.len()) != needle@,
        decreases n - m + 1 - i,
    {
        if i > n - m {
            assert(!is_substring(needle@, hay@));
            return false;
        }
        if matches_at(hay, i, needle) {
            assert(is_substring(needle@, hay@));
            return true;
        }
        i = i + 1;
    }
}

/// Index of the first occurrence of `c` in `s`, if any.
pub fn find_char(s: &str, c: char) -> (r: Option<usize>)
    ensures
        match r {
            Some(i) => i < s@.len() && s@[i as int] == c && forall|j: int|
                0 <= j < i ==> s@[j] != c,
            None => forall|j: int| 0 <= j < s@.len() ==> s@[j] != c,
        },
{
    let n = s.unicode_len();
    let mut i: usize = 0;
    while i < n
        invariant
            n == s@.len(),
            i <= n,
            forall|j: int| 0 <= j < i ==> s@[j] != c,
        decreases n - i,
    {
        if s.get_char(i) == c {
            return Some(i);
        }
        i = i + 1;
    }
    None
}

/// Index of the last occurrence of `c` in `s`, if any.
pub fn rfind_char(s: &str, c: char) -> (r: Option<usize>)
    ensures
        match r {
            Some(i) => i < s@.len() && s@[i as int] == c && forall|j: int|
                i < j < s@.len() ==> s@[j] != c,
            None => forall|j: int| 0 <= j < s@.len() ==> s@[j] != c,
        },
{
    let n = s.unicode_len();
    let mut i: usize = n;
    while i > 0
        invariant
            n == s@.len(),
            i <= n,
            forall|j: int| i <= j < n ==> s@[j] != c,
        decreases i,
    {
        i = i - 1;
        if s.get_char(i) == c {
            return Some(i);
        }
    }
    None
}

/// Whether `s` begins with `prefix`.
pub fn starts_with_str(s: &str, prefix: &str) -> (r: bool)
    ensures
        r == is_prefix(prefix@, s@),
{
    let n = s.unicode_len();
    let m = prefix.unicode_len();
    if m > n {
        return false;
    }
    matches_at(s, 0, prefix)
}

/// The part of `s` after `prefix`, when `s` begins with `prefix`.
pub fn strip_prefix_str(s: &str, prefix: &str) -> (r: Option<String>)
    ensures
        match r {
            Some(rest) => is_prefix(prefix@, s@) && rest@ == s@.subrange(
                prefix@.len() as int,
                s@.len() as int,
            ),
            None => !is_prefix(prefix@, s@),
        },
{
    if starts_with_str(s, prefix) {
        let n = s.unicode_len();
        let m = prefix.unicode_len();
        Some(s.substring_char(m, n).to_owned())
    } else {
        None
    }
}

/// The characters of `s` from position `from` (inclusive) to `to` (exclusive),
/// as an owned string.
pub fn substring_of(s: &str, from: usize, to: usize) -> (r: String)
    requires
        from <= to <= s@.len(),
    ensures
        r@ == s@.subrange(from as int, to as int),
{
    s.substring_char(from, to).to_owned()
}

/// `str::replace` semantics: scan left to right, replacing each
/// non-overlapping occurrence of `from` with `to`.  An empty `from` matches
/// at every character boundary.
pub open spec fn spec_replace(s: Seq<char>, from: Seq<char>, to: Seq<char>) -> Seq<char>
    decreases s.len(),
{
    if from.len() == 0 {
        if s.len() == 0 {
            to
        } else {
            to + seq![s[0]] + spec_replace(s.skip(1), from, to)
        }
    } else if s.len() < from.len() {
        s
    } else if s.subrange(0, from.len() as int) == from {
        to + spec_replace(s.skip(from.len() as int), from, to)
    } else {
        seq![s[0]] + spec_replace(s.skip(1), from, to)
    }
}

/// Replaces every non-overlapping occurrence of `from` in `s` with `to`,
/// scanning left to right.
pub fn replace_str(s: &str, from: &str, to: &str) -> (r: String)
    ensures
        r@ == spec_replace(s@, from@, to@),
{
    let n = s.unicode_len();
    let m = from.unicode_len();
    let mut out = String::new();
    proof {
        assert(s@.skip(0) =~= s@);
        assert(out@ + spec_replace(s@, from@, to@) =~= spec_replace(s@, from@, to@));
    }
    if m == 0 {
        let mut i: usize = 0;
        while i < n
            invariant
                n == s@.len(),
                from@.len() == 0,
                i <= n,
                spec_replace(s@, from@, to@) == out@ + spec_replace(
                    s@.skip(i as int),
                    from@,
                    to@,
                ),
            decreases n - i,
        {
            proof {
                assert(s@.skip(i as int).len() > 0);
                assert(s@.skip(i as int)[0] == s@[i as int]);
                assert(s@.skip(i as int).skip(1) =~= s@.skip(i as int + 1));
                assert(out@ + spec_replace(s@.skip(i as int), from@, to@) =~= (out@ + to@
                    + seq![s@[i as int]]) + spec_replace(s@.skip(i as int + 1), from@, to@));
            }
            out.append(to);
            out.append(s.substring_char(i, i + 1));
            i = i + 1;
        }
        proof {
            assert(s@.skip(n as int).len() == 0);
            assert(spec_replace(s@.skip(n as int), from@, to@) == to@);
        }
        out.append(to);
        return out;
    }
    let mut i: usize = 0;
    while i < n
        invariant
            n == s@.len(),
            m == from@.len(),
            m >= 1,
            i <= n,
            spec_replace(s@, from@, to@) == out@ + spec_replace(s@.skip(i as int), from@, to@),
        decreases n - i,
    {
        proof {
            assert(s@.skip(i as int).len() == n - i);
            assert(s@.skip(i as int)[0] == s@[i as int]);
            assert(s@.skip(i as int).skip(1) =~= s@.skip(i as int + 1));
        }
        if m <= n - i && matches_at(s, i, from) {
            proof {
                assert(s@.skip(i as int).subrange(0, m as int) =~= s@.subrange(
                    i as int,
                    i + from@.len(),
                ));
                assert(s@.skip(i as int).skip(m as int) =~= s@.skip(i as int + m as int));
                assert(out@ + spec_replace(s@.skip(i as int), from@, to@) =~= (out@ + to@)
                    + spec_replace(s@.skip(i as int + m as int), from@, to@));
            }
            out.append(to);
            i = i + m;
        } else {
            proof {
                if m <= n - i {
                    assert(s@.skip(i as int).subrange(0, m as int) =~= s@.subrange(
                        i as int,
                        i + from@.len(),
                    ));
                }
                assert(out@ + spec_replace(s@.skip(i as int), from@, to@) =~= (out@
                    + seq![s@[i as int]]) + spec_replace(s@.skip(i as int + 1), from@, to@));
            }
            out.append(s.substring_char(i, i + 1));
            i = i + 1;
        }
    }
    proof {
        assert(s@.skip(n as int).len() == 0);
        assert(spec_replace(s@.skip(n as int), from@, to@) =~= Seq::<char>::empty());
        assert(out@ + spec_replace(s@.skip(n as int), from@, to@) =~= out@);
    }
    out
}

/// Repeatedly removes `suffix` from the end of `s`; the meaning of
/// `str::trim_end_matches` for plain-text patterns.
pub open spec fn spec_trim_end(s: Seq<char>, suffix: Seq<char>) -> Seq<char>
    decreases s.len(),
{
    if suffix.len() > 0 && is_suffix(suffix, s) {
        spec_trim_end(s.take(s.len() - suffix.len()), suffix)
    } else {
        s
    }
}

/// Removes every trailing repetition of `suffix` from `s`.
pub fn trim_end_matches_str(s: &str, suffix: &str) -> (r: String)
    ensures
        r@ == spec_trim_end(s@, suffix@),
{
    let mut cur: String = s.to_owned();
    loop
        invariant
            spec_trim_end(s@, suffix@) == spec_trim_end(cur@, suffix@),
        decreases cur@.len(),
    {
        let n = cur.unicode_len();
        let m = suffix.unicode_len();
        if m > 0 && m <= n && matches_at(cur.as_str(), n - m, suffix) {
            proof {
                assert(is_suffix(suffix@, cur@));
            }
            let shorter = substring_of(cur.as_str(), 0, n - m);
            proof {
                assert(shorter@ =~= cur@.take(cur@.len() - suffix@.len()));
            }
            cur = shorter;
        } else {
            proof {
                if m > 0 && m <= n {
                    assert(!is_suffix(suffix@, cur@));
                }
                assert(spec_trim_end(cur@, suffix@) == cur@);
            }
            return cur;
        }
    }
}

/// Index of the first occurrence of `c` in `s`, or `-1` when absent.
pub open spec fn first_index_of(s: Seq<char>, c: char) -> int
    decreases s.len(),
{
    if s.len() == 0 {
        -1
    } else if s[0] == c {
        0
    } else {
        let r = first_index_of(s.drop_first(), c);
        if r < 0 {
            -1
        } else {
            r + 1
        }
    }
}

pub proof fn lemma_first_index_of_witness(s: Seq<char>, c: char, i: int)
    requires
        0 <= i < s.len(),
        s[i] == c,
        forall|j: int| 0 <= j < i ==> s[j] != c,
    ensures
        first_index_of(s, c) == i,
    decreases s.len(),
{
    if i > 0 {
        let t = s.drop_first();
        assert(t[i - 1] == c);
        assert forall|j: int| 0 <= j < i - 1 implies t[j] != c by {
            assert(t[j] == s[j + 1]);
        }
        lemma_first_index_of_witness(t, c, i - 1);
    }
}

pub proof fn lemma_first_index_of_absent(s: Seq<char>, c: char)
    requires
        forall|j: int| 0 <= j < s.len() ==> s[j] != c,
    ensures
        first_index_of(s, c) == -1,
    decreases s.len(),
{
    if s.len() > 0 {
        lemma_first_index_of_absent(s.drop_first(), c);
    }
}

/// Index of the last occurrence of `c` in `s`, or `-1` when absent.
pub open spec fn last_index_of(s: Seq<char>, c: char) -> int
    decreases s.len(),
{
    if s.len() == 0 {
        -1
    } else if s[s.len() - 1] == c {
        s.len() - 1
    } else {
        last_index_of(s.take(s.len() - 1), c)
    }
}

pub proof fn lemma_last_index_of_witness(s: Seq<char>, c: char, i: int)
    requires
        0 <= i < s.len(),
        s[i] == c,
        forall|j: int| i < j < s.len() ==> s[j] != c,
    ensures
        last_index_of(s, c) == i,
    decreases s.len(),
{
    if i == s.len() - 1 {
    } else {
        assert(s[s.len() - 1] != c);
        let t = s.take(s.len() - 1);
        assert(t[i] == c);
        lemma_last_index_of_witness(t, c, i);
    }
}

pub proof fn lemma_last_index_of_absent(s: Seq<char>, c: char)
    requires
        forall|j: int| 0 <= j < s.len() ==> s[j] != c,
    ensures
        last_index_of(s, c) == -1,
    decreases s.len(),
{
    if s.len() > 0 {
        lemma_last_index_of_absent(s.take(s.len() - 1), c);
    }
}

/// `Path::with_file_name` on plain relative or absolute path strings: the
/// part after the last `/` is replaced with `name`.
pub open spec fn spec_with_file_name(path: Seq<char>, name: Seq<char>) -> Seq<char> {
    let k = last_index_of(path, '/');
    if k >= 0 {
        path.take(k + 1) + name
    } else {
        name
    }
}

/// Replaces the final path component of `path` with `name`.
pub fn with_file_name_str(path: &str, name: &str) -> (r: String)
    ensures
        r@ == spec_with_file_name(path@, name@),
{
    let _n = path.unicode_len();
    match rfind_char(path, '/') {
        Some(k) => {
            let mut out = substring_of(path, 0, k + 1);
            proof {
                lemma_last_index_of_witness(path@, '/', k as int);
            }
            out.append(name);
            out
        },
        None => {
            proof {
                lemma_last_index_of_absent(path@, '/');
            }
            name.to_owned()
        },
    }
}

} // verus!
