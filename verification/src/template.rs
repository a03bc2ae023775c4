//! Prompt template engine: every occurrence of `{{name}}` in a template is
//! replaced by the value bound to `name`; names without a binding stay as
//! they are. Pure text substitution, applied binding by binding.

use vstd::prelude::*;
use crate::text::{chars_to_string, matches_here, push_all, str_chars};

verus! {

/// `s` with every non-overlapping occurrence of `pat` replaced by `rep`,
/// scanning left to right. An empty pattern replaces nothing.
pub open spec fn replace_spec(s: Seq<char>, pat: Seq<char>, rep: Seq<char>) -> Seq<char>
    decreases s.len(),
{
    if pat.len() == 0 || s.len() < pat.len() {
        s
    } else if s.take(pat.len() as int) == pat {
        rep + replace_spec(s.skip(pat.len() as int), pat, rep)
    } else {
        seq![s[0]] + replace_spec(s.skip(1), pat, rep)
    }
}

/// The placeholder text that a binding for `name` replaces.
pub open spec fn placeholder_spec(name: Seq<char>) -> Seq<char> {
    seq!['{', '{'] + name + seq!['}', '}']
}

/// The bindings, seen as pairs of character sequences.
pub open spec fn bindings_view(values: Seq<(String, String)>) -> Seq<(Seq<char>, Seq<char>)> {
    values.map_values(|p: (String, String)| (p.0@, p.1@))
}

/// The template after substituting each binding in order.
pub open spec fn render_spec(
    template: Seq<char>,
    values: Seq<(Seq<char>, Seq<char>)>,
) -> Seq<char>
    decreases values.len(),
{
    if values.len() == 0 {
        template
    } else {
        render_spec(
            replace_spec(template, placeholder_spec(values[0].0), values[0].1),
            values.skip(1),
        )
    }
}

/// `v` with every occurrence of `pat` replaced by `rep`.
pub fn replace_chars(v: &Vec<char>, pat: &Vec<char>, rep: &Vec<char>) -> (r: Vec<char>)
    ensures
        r@ == replace_spec(v@, pat@, rep@),
{
    let n = v.len();
    let m = pat.len();
    if m == 0 {
        let mut out: Vec<char> = Vec::new();
        push_all(&mut out, v);
        proof {
            assert(out@ =~= v@);
        }
        return out;
    }
    let mut out: Vec<char> = Vec::new();
    let mut i: usize = 0;
    proof {
        assert(v@.skip(0) =~= v@);
        assert(out@ + replace_spec(v@, pat@, rep@) =~= replace_spec(v@, pat@, rep@));
    }
    while i < n
        invariant
            n == v@.len(),
            m == pat@.len(),
            1 <= m,
            i <= n,
            replace_spec(v@, pat@, rep@) == out@ + replace_spec(v@.skip(i as int), pat@, rep@),
        decreases n - i,
    {
        proof {
            let rest = v@.skip(i as int);
            assert(rest[0] == v@[i as int]);
            assert(rest.skip(1) =~= v@.skip(i + 1));
            if i + m <= n {
                assert(rest.take(m as int) =~= v@.subrange(i as int, i + m));
                assert(rest.skip(m as int) =~= v@.skip(i + m));
            }
        }
        if m <= n - i && matches_here(v, pat, i) {
            push_all(&mut out, rep);
            i = i + m;
        } else {
            proof {
                if i + m <= n {
                    assert(v@.skip(i as int).take(m as int) != pat@);
                }
            }
            let c = v[i];
            out.push(c);
            i = i + 1;
        }
        proof {
            assert(replace_spec(v@, pat@, rep@) == out@ + replace_spec(
                v@.skip(i as int),
                pat@,
                rep@,
            ));
        }
    }
    proof {
        assert(v@.skip(n as int) =~= Seq::<char>::empty());
        assert(out@ + replace_spec(Seq::<char>::empty(), pat@, rep@) =~= out@);
    }
    out
}

/// The characters `{{name}}`.
fn placeholder_chars(name: &str) -> (r: Vec<char>)
    ensures
        r@ == placeholder_spec(name@),
{
    let mut v: Vec<char> = Vec::new();
    v.push('{');
    v.push('{');
    let name_chars = str_chars(name);
    push_all(&mut v, &name_chars);
    v.push('}');
    v.push('}');
    proof {
        assert(v@ =~= placeholder_spec(name@));
    }
    v
}

/// Substitute each `(name, value)` binding into the template in order,
/// replacing every occurrence of `{{name}}` with `value`.
pub fn _parse_prompt(template: &str, values: &[(String, String)]) -> (r: String)
    ensures
        r@ == render_spec(template@, bindings_view(values@)),
{
    let mut cur = str_chars(template);
    let k = values.len();
    let mut i: usize = 0;
    proof {
        assert(bindings_view(values@).skip(0) =~= bindings_view(values@));
    }
    while i < k
        invariant
            k == values@.len(),
            i <= k,
            render_spec(template@, bindings_view(values@)) == render_spec(
                cur@,
                bindings_view(values@).skip(i as int),
            ),
        decreases k - i,
    {
        let pat = placeholder_chars(values[i].0.as_str());
        let rep = str_chars(values[i].1.as_str());
        proof {
            let bv = bindings_view(values@);
            assert(bv.skip(i as int)[0] == bv[i as int]);
            assert(bv.skip(i as int).skip(1) =~= bv.skip(i + 1));
        }
        cur = replace_chars(&cur, &pat, &rep);
        i = i + 1;
    }
    proof {
        assert(bindings_view(values@).skip(k as int) =~= Seq::<(Seq<char>, Seq<char>)>::empty());
    }
    chars_to_string(&cur)
}

} // verus!
