//! Command templates: `{source}` and `{output}` placeholders filled with the
//! names chosen for a job.
use vstd::prelude::*;
use vstd::string::*;
use crate::text::{push_text, same_text, starts_with, texts};

verus! {

pub open spec fn source_token() -> Seq<char> {
    "{source}"@
}

pub open spec fn output_token() -> Seq<char> {
    "{output}"@
}

/// `t` from index `i` on, read left to right, each `{source}` replaced by
/// `source` and each `{output}` by `output`.
pub open spec fn fill_from(t: Seq<char>, source: Seq<char>, output: Seq<char>, i: int) -> Seq<char>
    decreases t.len() - i,
{
    if i < 0 || i >= t.len() {
        Seq::empty()
    } else if starts_with(t.skip(i), source_token()) && source_token().len() > 0 {
        source + fill_from(t, source, output, i + source_token().len())
    } else if starts_with(t.skip(i), output_token()) && output_token().len() > 0 {
        output + fill_from(t, source, output, i + output_token().len())
    } else {
        seq![t[i]] + fill_from(t, source, output, i + 1)
    }
}

/// The template `t` with its placeholders filled.
pub open spec fn fill_spec(t: Seq<char>, source: Seq<char>, output: Seq<char>) -> Seq<char> {
    fill_from(t, source, output, 0)
}

/// Each template of `ts` filled.
pub open spec fn fill_all_spec(ts: Seq<Seq<char>>, source: Seq<char>, output: Seq<char>) -> Seq<Seq<char>> {
    ts.map_values(|t: Seq<char>| fill_spec(t, source, output))
}

fn token_at(t: &str, n: usize, i: usize, token: &str) -> (r: bool)
    requires
        n == t@.len(),
        i < n,
    ensures
        r == starts_with(t@.skip(i as int), token@),
{
    let m = token.unicode_len();
    if m > n - i {
        return false;
    }
    let piece = t.substring_char(i, i + m);
    assert(t@.skip(i as int).subrange(0, m as int) =~= t@.subrange(i as int, (i + m) as int));
    same_text(piece, token)
}

/// The template `t` with `{source}` and `{output}` filled, left to right.
pub fn fill(t: &str, source: &str, output: &str) -> (r: String)
    ensures
        r@ == fill_spec(t@, source@, output@),
{
    proof {
        reveal_strlit("{source}");
        reveal_strlit("{output}");
    }
    let n = t.unicode_len();
    let mut acc = String::new();
    let mut i: usize = 0;
    while i < n
        invariant
            i <= n,
            n == t@.len(),
            source_token().len() == 8,
            output_token().len() == 8,
            fill_spec(t@, source@, output@) == acc@ + fill_from(t@, source@, output@, i as int),
        decreases n - i,
    {
        if token_at(t, n, i, "{source}") {
            acc.append(source);
            i = i + 8;
        } else if token_at(t, n, i, "{output}") {
            acc.append(output);
            i = i + 8;
        } else {
            acc.append(t.substring_char(i, i + 1));
            i = i + 1;
        }
    }
    assert(acc@ =~= acc@ + fill_from(t@, source@, output@, i as int));
    acc
}

/// Each template of `ts` filled.
pub fn fill_all(ts: &Vec<String>, source: &str, output: &str) -> (r: Vec<String>)
    ensures
        texts(r@) == fill_all_spec(texts(ts@), source@, output@),
{
    let mut r: Vec<String> = Vec::new();
    let mut k: usize = 0;
    while k < ts.len()
        invariant
            k <= ts@.len(),
            texts(r@) =~= fill_all_spec(texts(ts@.subrange(0, k as int)), source@, output@),
        decreases ts@.len() - k,
    {
        push_text(&mut r, fill(ts[k].as_str(), source, output));
        assert(texts(ts@.subrange(0, (k + 1) as int)) =~= texts(ts@.subrange(0, k as int)).push(ts@[k as int]@));
        k = k + 1;
    }
    assert(ts@.subrange(0, k as int) =~= ts@);
    r
}

} // verus!
