//! Markdown codec: escaping of a fixed reserved-character set and its left
//! inverse. Generated text is escaped before it is handed to the chat
//! transport, and the unescaped form is what the transport renders; the
//! lifecycle coordinator compares rendered text through `unescape_chars`.

use vstd::prelude::*;
use crate::text::{chars_to_string, str_chars};

verus! {

/// The reserved markdown characters; each is escaped as `\c`.
pub open spec fn is_reserved_char(c: char) -> bool {
    c == '\\' || c == '*' || c == '_' || c == '`' || c == '{' || c == '}' || c == '[' || c == ']'
        || c == '(' || c == ')' || c == '#' || c == '+' || c == '-' || c == '.' || c == '!'
        || c == '|'
}

/// `s` with a backslash inserted before every reserved character.
pub open spec fn escape_chars(s: Seq<char>) -> Seq<char>
    decreases s.len(),
{
    if s.len() == 0 {
        Seq::<char>::empty()
    } else if is_reserved_char(s[0]) {
        seq!['\\', s[0]] + escape_chars(s.skip(1))
    } else {
        seq![s[0]] + escape_chars(s.skip(1))
    }
}

/// `s` with every backslash that introduces a reserved character removed.
/// A backslash before anything else is kept: unescaping is a total function
/// and only inverts the combinations that `escape_chars` produces.
pub open spec fn unescape_chars(s: Seq<char>) -> Seq<char>
    decreases s.len(),
{
    if s.len() == 0 {
        Seq::<char>::empty()
    } else if s.len() >= 2 && s[0] == '\\' && is_reserved_char(s[1]) {
        seq![s[1]] + unescape_chars(s.skip(2))
    } else {
        seq![s[0]] + unescape_chars(s.skip(1))
    }
}

/// Unescaping undoes escaping on every string, not only on reserved-free
/// ones: `escape_chars` is injective and `unescape_chars` is its left
/// inverse.
pub proof fn lemma_unescape_escape(s: Seq<char>)
    ensures
        unescape_chars(escape_chars(s)) == s,
    decreases s.len(),
{
    if s.len() == 0 {
    } else if is_reserved_char(s[0]) {
        let e = escape_chars(s.skip(1));
        let whole = seq!['\\', s[0]] + e;
        assert(escape_chars(s) == whole);
        assert(whole.len() >= 2 && whole[0] == '\\' && is_reserved_char(whole[1]));
        assert(whole.skip(2) =~= e);
        lemma_unescape_escape(s.skip(1));
        assert(seq![s[0]] + s.skip(1) =~= s);
    } else {
        let e = escape_chars(s.skip(1));
        let whole = seq![s[0]] + e;
        assert(escape_chars(s) == whole);
        assert(whole[0] != '\\');
        assert(whole.skip(1) =~= e);
        lemma_unescape_escape(s.skip(1));
        assert(seq![s[0]] + s.skip(1) =~= s);
    }
}

/// Escaping a string without backslashes leaves nothing to unescape; more
/// useful here: unescaping a string without backslashes changes nothing.
pub proof fn lemma_unescape_no_backslash(s: Seq<char>)
    requires
        forall|i: int| 0 <= i < s.len() ==> s[i] != '\\',
    ensures
        unescape_chars(s) == s,
    decreases s.len(),
{
    if s.len() == 0 {
    } else {
        lemma_unescape_no_backslash(s.skip(1));
        assert(seq![s[0]] + s.skip(1) =~= s);
    }
}

pub fn is_reserved(c: char) -> (r: bool)
    ensures
        r == is_reserved_char(c),
{
    c == '\\' || c == '*' || c == '_' || c == '`' || c == '{' || c == '}' || c == '[' || c == ']'
        || c == '(' || c == ')' || c == '#' || c == '+' || c == '-' || c == '.' || c == '!'
        || c == '|'
}

/// `v` with every reserved character backslash-escaped.
pub fn escape_char_vec(v: &Vec<char>) -> (r: Vec<char>)
    ensures
        r@ == escape_chars(v@),
{
    let n = v.len();
    let mut out: Vec<char> = Vec::new();
    let mut i: usize = 0;
    proof {
        assert(v@.skip(0) =~= v@);
        assert(out@ + escape_chars(v@) =~= escape_chars(v@));
    }
    while i < n
        invariant
            n == v@.len(),
            i <= n,
            escape_chars(v@) == out@ + escape_chars(v@.skip(i as int)),
        decreases n - i,
    {
        let c = v[i];
        proof {
            let rest = v@.skip(i as int);
            assert(rest[0] == v@[i as int]);
            assert(rest.skip(1) =~= v@.skip(i + 1));
            if is_reserved_char(c) {
                assert(escape_chars(rest) == seq!['\\', c] + escape_chars(v@.skip(i + 1)));
            } else {
                assert(escape_chars(rest) == seq![c] + escape_chars(v@.skip(i + 1)));
            }
        }
        if is_reserved(c) {
            out.push('\\');
            out.push(c);
        } else {
            out.push(c);
        }
        proof {
            assert(escape_chars(v@) == out@ + escape_chars(v@.skip(i + 1)));
        }
        i = i + 1;
    }
    proof {
        assert(v@.skip(n as int) =~= Seq::<char>::empty());
        assert(out@ + escape_chars(Seq::<char>::empty()) =~= out@);
    }
    out
}

/// `v` with every escape of a reserved character collapsed.
pub fn unescape_char_vec(v: &Vec<char>) -> (r: Vec<char>)
    ensures
        r@ == unescape_chars(v@),
{
    let n = v.len();
    let mut out: Vec<char> = Vec::new();
    let mut i: usize = 0;
    proof {
        assert(v@.skip(0) =~= v@);
        assert(out@ + unescape_chars(v@) =~= unescape_chars(v@));
    }
    while i < n
        invariant
            n == v@.len(),
            i <= n,
            unescape_chars(v@) == out@ + unescape_chars(v@.skip(i as int)),
        decreases n - i,
    {
        let c = v[i];
        proof {
            let rest = v@.skip(i as int);
            assert(rest[0] == v@[i as int]);
            if i + 1 < n {
                assert(rest[1] == v@[i + 1]);
                assert(rest.skip(2) =~= v@.skip(i + 2));
            }
            assert(rest.skip(1) =~= v@.skip(i + 1));
        }
        if c == '\\' && i + 1 < n && is_reserved(v[i + 1]) {
            out.push(v[i + 1]);
            i = i + 2;
        } else {
            out.push(c);
            i = i + 1;
        }
    }
    proof {
        assert(v@.skip(n as int) =~= Seq::<char>::empty());
        assert(out@ + unescape_chars(Seq::<char>::empty()) =~= out@);
    }
    out
}

/// Escape `text` for the markdown transport.
pub fn escape_md(text: &str) -> (r: String)
    ensures
        r@ == escape_chars(text@),
{
    let v = str_chars(text);
    let out = escape_char_vec(&v);
    chars_to_string(&out)
}

/// Undo `escape_md`; on arbitrary input, collapse exactly the escapes that
/// `escape_md` produces and keep everything else.
pub fn unescape_md(text: &str) -> (r: String)
    ensures
        r@ == unescape_chars(text@),
{
    let v = str_chars(text);
    let out = unescape_char_vec(&v);
    chars_to_string(&out)
}

} // verus!
