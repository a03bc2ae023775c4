//! Character-level utilities shared by the codec, the parsers and the
//! template engine: conversion between `str` and `Vec<char>`, trimming,
//! splitting and substring search, each against a recursive specification.

use vstd::prelude::*;
use vstd::string::StrSliceExecFns;

verus! {

/// The whitespace characters that trimming removes.
pub open spec fn is_space_char(c: char) -> bool {
    c == ' ' || c == '\t' || c == '\n' || c == '\r'
}

pub open spec fn trim_left_spec(s: Seq<char>) -> Seq<char>
    decreases s.len(),
{
    if s.len() > 0 && is_space_char(s[0]) {
        trim_left_spec(s.skip(1))
    } else {
        s
    }
}

pub open spec fn trim_right_spec(s: Seq<char>) -> Seq<char>
    decreases s.len(),
{
    if s.len() > 0 && is_space_char(s.last()) {
        trim_right_spec(s.drop_last())
    } else {
        s
    }
}

/// The sequence with leading and trailing whitespace removed.
pub open spec fn trim_spec(s: Seq<char>) -> Seq<char> {
    trim_right_spec(trim_left_spec(s))
}

/// The needle occurs in the haystack starting at position `i`.
pub open spec fn matches_at(hay: Seq<char>, needle: Seq<char>, i: int) -> bool {
    0 <= i && i + needle.len() <= hay.len() && hay.subrange(i, i + needle.len() as int) == needle
}

/// The needle occurs somewhere in the haystack.
pub open spec fn contains_seq(hay: Seq<char>, needle: Seq<char>) -> bool {
    exists|i: int| matches_at(hay, needle, i)
}

/// Relies on the standard library's `FromIterator<char> for String`:
/// collecting characters yields the string of exactly those characters.
#[verifier::external_body]
pub fn chars_to_string(v: &Vec<char>) -> (r: String)
    ensures
        r@ == v@,
{
    v.iter().collect()
}

/// The characters of `s`, in order.
pub fn str_chars(s: &str) -> (v: Vec<char>)
    ensures
        v@ == s@,
{
    let n = s.unicode_len();
    let mut v: Vec<char> = Vec::new();
    let mut i: usize = 0;
    while i < n
        invariant
            n == s@.len(),
            i <= n,
            v@ == s@.take(i as int),
        decreases n - i,
    {
        let c = s.get_char(i);
        v.push(c);
        proof {
            assert(s@.take(i + 1 as int) =~= s@.take(i as int).push(s@[i as int]));
        }
        i = i + 1;
    }
    proof {
        assert(v@ =~= s@);
    }
    v
}

pub fn is_space(c: char) -> (r: bool)
    ensures
        r == is_space_char(c),
{
    c == ' ' || c == '\t' || c == '\n' || c == '\r'
}

proof fn lemma_trim_left_index(s: Seq<char>, i: int)
    requires
        0 <= i <= s.len(),
        forall|j: int| 0 <= j < i ==> is_space_char(s[j]),
        i == s.len() || !is_space_char(s[i]),
    ensures
        trim_left_spec(s) == s.skip(i),
    decreases i,
{
    if i == 0 {
        if s.len() > 0 && is_space_char(s[0]) {
            assert(false);
        }
        assert(s.skip(0) =~= s);
    } else {
        assert(is_space_char(s[0]));
        lemma_trim_left_index(s.skip(1), i - 1);
        assert(s.skip(1).skip(i - 1) =~= s.skip(i));
    }
}

proof fn lemma_trim_right_index(s: Seq<char>, i: int)
    requires
        0 <= i <= s.len(),
        forall|j: int| i <= j < s.len() ==> is_space_char(s[j]),
        i == 0 || !is_space_char(s[i - 1]),
    ensures
        trim_right_spec(s) == s.take(i),
    decreases s.len() - i,
{
    if i == s.len() {
        if s.len() > 0 && is_space_char(s.last()) {
            assert(false);
        }
        assert(s.take(i) =~= s);
    } else {
        assert(is_space_char(s.last()));
        lemma_trim_right_index(s.drop_last(), i);
        assert(s.drop_last() =~= s.take(s.len() - 1));
        assert(s.take(s.len() - 1).take(i) =~= s.take(i));
    }
}

/// The slice of `v` with leading and trailing whitespace removed.
pub fn trim_chars(v: &Vec<char>) -> (r: Vec<char>)
    ensures
        r@ == trim_spec(v@),
{
    let n = v.len();
    let mut start: usize = 0;
    while start < n && is_space(v[start])
        invariant
            n == v@.len(),
            start <= n,
            forall|j: int| 0 <= j < start ==> is_space_char(v@[j]),
        decreases n - start,
    {
        start = start + 1;
    }
    let mut end: usize = n;
    while end > start && is_space(v[end - 1])
        invariant
            n == v@.len(),
            start <= end <= n,
            forall|j: int| end <= j < n ==> is_space_char(v@[j]),
        decreases end,
    {
        end = end - 1;
    }
    proof {
        lemma_trim_left_index(v@, start as int);
        if end == start {
            lemma_trim_right_index(v@.skip(start as int), 0);
        } else {
            lemma_trim_right_index(v@.skip(start as int), end - start);
        }
    }
    let mut r: Vec<char> = Vec::new();
    let mut i: usize = start;
    while i < end
        invariant
            start <= i <= end <= n,
            n == v@.len(),
            r@ == v@.subrange(start as int, i as int),
        decreases end - i,
    {
        let c = v[i];
        r.push(c);
        proof {
            assert(v@.subrange(start as int, i + 1 as int) =~= v@.subrange(
                start as int,
                i as int,
            ).push(v@[i as int]));
        }
        i = i + 1;
    }
    proof {
        assert(v@.skip(start as int).take((end - start) as int) =~= v@.subrange(
            start as int,
            end as int,
        ));
    }
    r
}

/// Whether two strings hold the same characters.
pub fn str_eq(a: &str, b: &str) -> (r: bool)
    ensures
        r == (a@ == b@),
{
    let va = str_chars(a);
    let vb = str_chars(b);
    let n = va.len();
    if n != vb.len() {
        return false;
    }
    let mut i: usize = 0;
    while i < n
        invariant
            n == va@.len(),
            n == vb@.len(),
            va@ == a@,
            vb@ == b@,
            i <= n,
            forall|j: int| 0 <= j < i ==> va@[j] == vb@[j],
        decreases n - i,
    {
        if va[i] != vb[i] {
            return false;
        }
        i = i + 1;
    }
    proof {
        assert(a@ =~= b@);
    }
    true
}

/// Append every character of `add` to `out`.
pub fn push_all(out: &mut Vec<char>, add: &Vec<char>)
    ensures
        final(out)@ == old(out)@ + add@,
{
    let m = add.len();
    let mut k: usize = 0;
    while k < m
        invariant
            m == add@.len(),
            k <= m,
            out@ == old(out)@ + add@.take(k as int),
        decreases m - k,
    {
        let c = add[k];
        out.push(c);
        proof {
            assert(add@.take(k + 1) =~= add@.take(k as int).push(add@[k as int]));
            assert(old(out)@ + add@.take(k as int).push(add@[k as int]) =~= (old(out)@
                + add@.take(k as int)).push(add@[k as int]));
        }
        k = k + 1;
    }
    proof {
        assert(add@.take(m as int) =~= add@);
    }
}

/// Whether the needle occurs at position `i` of the haystack.
pub(crate) fn matches_here(hay: &Vec<char>, needle: &Vec<char>, i: usize) -> (r: bool)
    requires
        i + needle@.len() <= hay@.len(),
    ensures
        r == matches_at(hay@, needle@, i as int),
{
    let n = hay.len();
    let m = needle.len();
    let mut k: usize = 0;
    while k < m
        invariant
            n == hay@.len(),
            m == needle@.len(),
            i + m <= n,
            k <= m,
            forall|j: int| 0 <= j < k ==> hay@[i + j] == needle@[j],
        decreases m - k,
    {
        if hay[i + k] != needle[k] {
            proof {
                assert(hay@.subrange(i as int, i + needle@.len() as int)[k as int] == hay@[i + k]);
            }
            return false;
        }
        k = k + 1;
    }
    proof {
        assert(hay@.subrange(i as int, i + needle@.len() as int) =~= needle@);
    }
    true
}

/// The position of the first occurrence of the needle, if any.
pub fn find_sub(hay: &Vec<char>, needle: &Vec<char>) -> (r: Option<usize>)
    ensures
        match r {
            Some(i) => matches_at(hay@, needle@, i as int) && forall|j: int|
                0 <= j < i ==> !matches_at(hay@, needle@, j),
            None => !contains_seq(hay@, needle@),
        },
{
    let n = hay.len();
    let m = needle.len();
    if m == 0 {
        proof {
            assert(hay@.subrange(0, 0) =~= needle@);
        }
        return Some(0);
    }
    if m > n {
        proof {
            assert(forall|j: int| matches_at(hay@, needle@, j) ==> j + m <= n);
        }
        return None;
    }
    let mut i: usize = 0;
    while i <= n - m
        invariant
            n == hay@.len(),
            m == needle@.len(),
            1 <= m <= n,
            i <= n - m + 1,
            forall|j: int| 0 <= j < i ==> !matches_at(hay@, needle@, j),
        decreases n - i,
    {
        if matches_here(hay, needle, i) {
            return Some(i);
        }
        i = i + 1;
    }
    proof {
        assert(forall|j: int| matches_at(hay@, needle@, j) ==> 0 <= j <= n - m);
    }
    None
}

/// Whether the needle occurs anywhere in the haystack.
pub fn contains_sub(hay: &Vec<char>, needle: &Vec<char>) -> (r: bool)
    ensures
        r == contains_seq(hay@, needle@),
{
    match find_sub(hay, needle) {
        Some(_) => true,
        None => false,
    }
}

/// The pieces of `s` between occurrences of `sep`; never empty, and empty
/// pieces are kept (splitting `"#a"` on `'#'` gives `["", "a"]`).
pub open spec fn split_char(s: Seq<char>, sep: char) -> Seq<Seq<char>>
    decreases s.len(),
{
    if s.len() == 0 {
        seq![Seq::<char>::empty()]
    } else if s[0] == sep {
        seq![Seq::<char>::empty()] + split_char(s.skip(1), sep)
    } else {
        let rest = split_char(s.skip(1), sep);
        seq![seq![s[0]] + rest[0]] + rest.skip(1)
    }
}

/// `lst` with `pre` prepended to its first element.
pub open spec fn prepend_first(pre: Seq<char>, lst: Seq<Seq<char>>) -> Seq<Seq<char>> {
    if lst.len() == 0 {
        seq![pre]
    } else {
        seq![pre + lst[0]] + lst.skip(1)
    }
}

pub proof fn lemma_split_char_len(s: Seq<char>, sep: char)
    ensures
        split_char(s, sep).len() >= 1,
    decreases s.len(),
{
    if s.len() > 0 {
        lemma_split_char_len(s.skip(1), sep);
    }
}

/// Splitting a separator-free sequence yields that sequence alone.
pub proof fn lemma_split_sep_free(s: Seq<char>, sep: char)
    requires
        forall|i: int| 0 <= i < s.len() ==> s[i] != sep,
    ensures
        split_char(s, sep) == seq![s],
    decreases s.len(),
{
    if s.len() == 0 {
        assert(split_char(s, sep) =~~= seq![s]);
    } else {
        lemma_split_sep_free(s.skip(1), sep);
        let rest = split_char(s.skip(1), sep);
        assert(rest == seq![s.skip(1)]);
        assert(seq![s[0]] + s.skip(1) =~= s);
        assert(rest.skip(1) =~~= Seq::<Seq<char>>::empty());
        assert(split_char(s, sep) =~~= seq![s]);
    }
}

/// Splitting around one separator splits the two sides independently when
/// the left side is separator-free.
pub proof fn lemma_split_around_sep(x: Seq<char>, y: Seq<char>, sep: char)
    requires
        forall|i: int| 0 <= i < x.len() ==> x[i] != sep,
    ensures
        split_char(x + seq![sep] + y, sep) == seq![x] + split_char(y, sep),
    decreases x.len(),
{
    let s = x + seq![sep] + y;
    if x.len() == 0 {
        assert(s[0] == sep);
        assert(s.skip(1) =~= y);
        assert(split_char(s, sep) == seq![Seq::<char>::empty()] + split_char(y, sep));
        assert(x =~= Seq::<char>::empty());
        assert(split_char(s, sep) =~~= seq![x] + split_char(y, sep));
    } else {
        assert(s[0] == x[0]);
        assert(s[0] != sep);
        assert(s.skip(1) =~= x.skip(1) + seq![sep] + y);
        lemma_split_around_sep(x.skip(1), y, sep);
        let rest = split_char(s.skip(1), sep);
        assert(rest == seq![x.skip(1)] + split_char(y, sep));
        lemma_split_char_len(y, sep);
        assert(rest[0] == x.skip(1));
        assert(seq![x[0]] + x.skip(1) =~= x);
        assert(rest.skip(1) =~~= split_char(y, sep));
        assert(split_char(s, sep) =~~= seq![x] + split_char(y, sep));
    }
}

/// Split `v` at every occurrence of `sep`.
pub fn split_on(v: &Vec<char>, sep: char) -> (parts: Vec<Vec<char>>)
    ensures
        parts.deep_view() == split_char(v@, sep),
{
    let n = v.len();
    let mut parts: Vec<Vec<char>> = Vec::new();
    let mut cur: Vec<char> = Vec::new();
    let mut i: usize = 0;
    proof {
        assert(v@.skip(0) =~= v@);
        lemma_split_char_len(v@, sep);
        assert(parts.deep_view() =~~= Seq::<Seq<char>>::empty());
        assert(prepend_first(cur@, split_char(v@, sep)) =~~= split_char(v@, sep));
        assert(parts.deep_view() + prepend_first(cur@, split_char(v@, sep)) =~~= split_char(
            v@,
            sep,
        ));
    }
    while i < n
        invariant
            n == v@.len(),
            i <= n,
            split_char(v@, sep) == parts.deep_view() + prepend_first(
                cur@,
                split_char(v@.skip(i as int), sep),
            ),
        decreases n - i,
    {
        let ghost old_parts_dv = parts.deep_view();
        let ghost old_cur = cur@;
        let ghost rest = v@.skip(i as int);
        let ghost tail = split_char(v@.skip(i + 1), sep);
        proof {
            assert(rest[0] == v@[i as int]);
            assert(rest.skip(1) =~= v@.skip(i + 1));
            lemma_split_char_len(v@.skip(i + 1), sep);
        }
        let c = v[i];
        if c == sep {
            proof {
                assert(split_char(rest, sep) == seq![Seq::<char>::empty()] + tail);
                assert(prepend_first(old_cur, split_char(rest, sep)) =~~= seq![old_cur]
                    + prepend_first(Seq::<char>::empty(), tail));
            }
            parts.push(cur);
            cur = Vec::new();
            proof {
                assert(parts.deep_view() =~~= old_parts_dv.push(old_cur));
                assert(old_parts_dv.push(old_cur) =~~= old_parts_dv + seq![old_cur]);
                assert(parts.deep_view() + prepend_first(cur@, tail) =~~= old_parts_dv + (
                seq![old_cur] + prepend_first(Seq::<char>::empty(), tail)));
            }
        } else {
            proof {
                let inner = split_char(rest, sep);
                assert(inner == seq![seq![rest[0]] + tail[0]] + tail.skip(1));
                assert(prepend_first(old_cur, inner) =~~= seq![old_cur + (seq![c] + tail[0])]
                    + tail.skip(1));
                assert(old_cur + (seq![c] + tail[0]) =~= (old_cur + seq![c]) + tail[0]);
                assert(old_cur.push(c) =~= old_cur + seq![c]);
            }
            cur.push(c);
            proof {
                assert(prepend_first(old_cur, split_char(rest, sep)) =~~= prepend_first(
                    cur@,
                    tail,
                ));
            }
        }
        i = i + 1;
    }
    proof {
        assert(v@.skip(n as int) =~= Seq::<char>::empty());
        assert(split_char(Seq::<char>::empty(), sep) == seq![Seq::<char>::empty()]);
        assert(prepend_first(cur@, seq![Seq::<char>::empty()]) =~~= seq![cur@]);
    }
    let ghost old_parts_dv = parts.deep_view();
    let ghost old_cur = cur@;
    parts.push(cur);
    proof {
        assert(parts.deep_view() =~~= old_parts_dv.push(old_cur));
        assert(old_parts_dv.push(old_cur) =~~= old_parts_dv + seq![old_cur]);
        assert(parts.deep_view() =~~= split_char(v@, sep));
    }
    parts
}

/// The prefix of `s` before the first occurrence of `c`; all of `s` when
/// `c` does not occur.
pub open spec fn until_char(s: Seq<char>, c: char) -> Seq<char>
    decreases s.len(),
{
    if s.len() == 0 {
        s
    } else if s[0] == c {
        Seq::<char>::empty()
    } else {
        seq![s[0]] + until_char(s.skip(1), c)
    }
}

/// Cutting at a character that does not occur keeps everything.
pub proof fn lemma_until_char_absent(s: Seq<char>, c: char)
    requires
        forall|i: int| 0 <= i < s.len() ==> s[i] != c,
    ensures
        until_char(s, c) == s,
    decreases s.len(),
{
    if s.len() > 0 {
        lemma_until_char_absent(s.skip(1), c);
        assert(seq![s[0]] + s.skip(1) =~= s);
    }
}

/// The prefix of `v` before the first occurrence of `c`.
pub fn until_first(v: &Vec<char>, c: char) -> (r: Vec<char>)
    ensures
        r@ == until_char(v@, c),
{
    let n = v.len();
    let mut out: Vec<char> = Vec::new();
    let mut i: usize = 0;
    proof {
        assert(v@.skip(0) =~= v@);
        assert(out@ + until_char(v@, c) =~= until_char(v@, c));
    }
    while i < n
        invariant
            n == v@.len(),
            i <= n,
            until_char(v@, c) == out@ + until_char(v@.skip(i as int), c),
            forall|j: int| 0 <= j < i ==> v@[j] != c,
        decreases n - i,
    {
        proof {
            let rest = v@.skip(i as int);
            assert(rest[0] == v@[i as int]);
            assert(rest.skip(1) =~= v@.skip(i + 1));
        }
        let d = v[i];
        if d == c {
            proof {
                assert(until_char(v@.skip(i as int), c) =~= Seq::<char>::empty());
                assert(out@ + Seq::<char>::empty() =~= out@);
            }
            return out;
        }
        out.push(d);
        i = i + 1;
    }
    proof {
        assert(v@.skip(n as int) =~= Seq::<char>::empty());
        assert(out@ + until_char(Seq::<char>::empty(), c) =~= out@);
    }
    out
}

/// The prefix of `s` before the first occurrence of the marker `m`; all
/// of `s` when the marker is absent.
pub open spec fn until_seq(s: Seq<char>, m: Seq<char>) -> Seq<char>
    decreases s.len(),
{
    if m.len() == 0 {
        s
    } else if s.len() < m.len() {
        s
    } else if s.take(m.len() as int) == m {
        Seq::<char>::empty()
    } else {
        seq![s[0]] + until_seq(s.skip(1), m)
    }
}

/// What the cut keeps is a prefix of the input.
pub proof fn lemma_until_seq_prefix(s: Seq<char>, m: Seq<char>)
    ensures
        until_seq(s, m).len() <= s.len(),
        until_seq(s, m) == s.take(until_seq(s, m).len() as int),
    decreases s.len(),
{
    if m.len() == 0 {
        assert(s.take(s.len() as int) =~= s);
    } else if s.len() < m.len() {
        assert(s.take(s.len() as int) =~= s);
    } else if s.take(m.len() as int) == m {
        assert(s.take(0) =~= Seq::<char>::empty());
    } else {
        lemma_until_seq_prefix(s.skip(1), m);
        let u = until_seq(s.skip(1), m);
        assert(until_seq(s, m) == seq![s[0]] + u);
        assert(u == s.skip(1).take(u.len() as int));
        assert(seq![s[0]] + u =~= s.take(u.len() as int + 1)) by {
            assert(forall|k: int| 0 <= k < u.len() ==> #[trigger] u[k] == s.skip(1)[k]);
            assert(forall|k: int| 0 <= k < u.len() ==> s.skip(1)[k] == s[k + 1]);
        }
    }
}

/// The cut text never carries the marker: everything before the first
/// occurrence is occurrence-free.
pub proof fn lemma_until_seq_clean(s: Seq<char>, m: Seq<char>)
    requires
        m.len() >= 1,
    ensures
        !contains_seq(until_seq(s, m), m),
    decreases s.len(),
{
    let u = until_seq(s, m);
    if s.len() < m.len() {
        assert(forall|i: int| !matches_at(u, m, i));
    } else if s.take(m.len() as int) == m {
        assert(u.len() == 0);
        assert(forall|i: int| !matches_at(u, m, i));
    } else {
        lemma_until_seq_clean(s.skip(1), m);
        let u1 = until_seq(s.skip(1), m);
        assert(u == seq![s[0]] + u1);
        assert forall|i: int| !matches_at(u, m, i) by {
            if 0 <= i && i + m.len() <= u.len() {
                if i == 0 {
                    lemma_until_seq_prefix(s, m);
                    assert(u == s.take(u.len() as int));
                    assert(u.subrange(0, m.len() as int) =~= s.take(m.len() as int));
                } else {
                    if u.subrange(i, i + m.len() as int) == m {
                        assert(u1.subrange(i - 1, i - 1 + m.len() as int) =~= u.subrange(
                            i,
                            i + m.len() as int,
                        ));
                        assert(matches_at(u1, m, i - 1));
                        assert(false);
                    }
                }
            }
        }
    }
}

/// The prefix of `v` before the first occurrence of the marker `m`.
pub fn until_first_seq(v: &Vec<char>, m: &Vec<char>) -> (r: Vec<char>)
    ensures
        r@ == until_seq(v@, m@),
{
    let n = v.len();
    let k = m.len();
    if k == 0 {
        let mut out: Vec<char> = Vec::new();
        push_all(&mut out, v);
        proof {
            assert(out@ =~= v@);
        }
        return out;
    }
    let mut out: Vec<char> = Vec::new();
    let mut i: usize = 0;
    proof {
        assert(v@.skip(0) =~= v@);
        assert(out@ + until_seq(v@, m@) =~= until_seq(v@, m@));
    }
    while i < n
        invariant
            n == v@.len(),
            k == m@.len(),
            1 <= k,
            i <= n,
            until_seq(v@, m@) == out@ + until_seq(v@.skip(i as int), m@),
        decreases n - i,
    {
        proof {
            let rest = v@.skip(i as int);
            assert(rest[0] == v@[i as int]);
            assert(rest.skip(1) =~= v@.skip(i + 1));
            if i + k <= n {
                assert(rest.take(k as int) =~= v@.subrange(i as int, i + k));
            }
        }
        if k <= n - i && matches_here(v, m, i) {
            proof {
                assert(until_seq(v@.skip(i as int), m@) =~= Seq::<char>::empty());
                assert(out@ + Seq::<char>::empty() =~= out@);
            }
            return out;
        }
        proof {
            if i + k <= n {
                assert(v@.skip(i as int).take(k as int) != m@);
            }
            assert(v@.skip(i as int) =~= seq![v@[i as int]] + v@.skip(i + 1));
        }
        let c = v[i];
        out.push(c);
        i = i + 1;
    }
    proof {
        assert(v@.skip(n as int) =~= Seq::<char>::empty());
        assert(out@ + until_seq(Seq::<char>::empty(), m@) =~= out@);
    }
    out
}

/// Trimming a space-free token with one trailing space yields the token;
/// more generally a space-free token is already trimmed.
pub proof fn lemma_trim_token(t: Seq<char>)
    requires
        forall|i: int| 0 <= i < t.len() ==> !is_space_char(t[i]),
    ensures
        trim_spec(t) == t,
        trim_spec(t + seq![' ']) == t,
    decreases t.len(),
{
    lemma_trim_right_no_space(t);
    if t.len() == 0 {
        let s = t + seq![' '];
        assert(s =~= seq![' ']);
        assert(is_space_char(s[0]));
        assert(s.skip(1) =~= Seq::<char>::empty());
        assert(trim_left_spec(s) == trim_left_spec(s.skip(1)));
        assert(trim_spec(t + seq![' ']) =~= t);
        assert(trim_spec(t) =~= t);
    } else {
        let s = t + seq![' '];
        assert(!is_space_char(s[0]));
        assert(trim_left_spec(s) == s);
        assert(is_space_char(s.last()));
        assert(s.drop_last() =~= t);
        assert(trim_right_spec(s) == trim_right_spec(t));
        assert(!is_space_char(t[0]));
        assert(trim_left_spec(t) == t);
    }
}

proof fn lemma_trim_right_no_space(t: Seq<char>)
    requires
        forall|i: int| 0 <= i < t.len() ==> !is_space_char(t[i]),
    ensures
        trim_right_spec(t) == t,
        trim_left_spec(t) == t,
{
    if t.len() > 0 {
        assert(!is_space_char(t.last()));
        assert(!is_space_char(t[0]));
    }
}

} // verus!
