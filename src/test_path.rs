//! Test file names: a `printf`-style `%0<n>d` placeholder filled with a
//! test's index.
use vstd::prelude::*;
use vstd::string::*;
use crate::pattern::{split_around_group, width_placeholder_pattern};
use crate::text::{all_digits, digits_value, is_digit, nat_str, nat_to_string, pad_zeros, zero_pad};

verus! {

/// The end of the run of ASCII digits starting at `i`.
pub open spec fn digit_run_end(s: Seq<char>, i: int) -> int
    decreases s.len() - i,
{
    if 0 <= i < s.len() && is_digit(s[i]) {
        digit_run_end(s, i + 1)
    } else {
        i
    }
}

/// The end of a match of `%0[0-9]+d` that starts at `p`, if one does.
pub open spec fn placeholder_end_at(s: Seq<char>, p: int) -> Option<int> {
    let e = digit_run_end(s, p + 2);
    if 0 <= p && p + 2 < s.len() && s[p] == '%' && s[p + 1] == '0' && e > p + 2 && e < s.len()
        && s[e] == 'd' {
        Some(e + 1)
    } else {
        None
    }
}

/// The leftmost match of `%0[0-9]+d` at or after `p`, as a range.
pub open spec fn placeholder_from(s: Seq<char>, p: int) -> Option<(int, int)>
    decreases s.len() - p,
{
    if p < 0 || p >= s.len() {
        None
    } else {
        match placeholder_end_at(s, p) {
            Some(e) => Some((p, e)),
            None => placeholder_from(s, p + 1),
        }
    }
}

/// The first placeholder of `s` split out: the text before it, its width
/// digits and the text after it.
pub open spec fn placeholder_split(s: Seq<char>) -> Option<(Seq<char>, Seq<char>, Seq<char>)> {
    match placeholder_from(s, 0) {
        Some((a, e)) => Some((s.subrange(0, a), s.subrange(a + 2, e - 1), s.subrange(e, s.len() as int))),
        None => None,
    }
}

/// `pattern` with its first `%0<n>d` replaced by `i` zero-padded to width
/// `n`; `None` when that width does not fit in `usize`.
pub open spec fn format_width_spec(pattern: Seq<char>, i: nat) -> Option<Seq<char>> {
    match placeholder_split(pattern) {
        None => Some(pattern),
        Some((a, w, b)) => if digits_value(w) <= usize::MAX {
            Some(a + zero_pad(nat_str(i), digits_value(w)) + b)
        } else {
            None
        },
    }
}

proof fn lemma_placeholder_digits(s: Seq<char>, p: int)
    requires
        placeholder_from(s, p) is Some,
        p >= 0,
    ensures
        ({
            let (a, e) = placeholder_from(s, p)->0;
            &&& 0 <= a && a + 2 < e - 1 + 1 && e <= s.len()
            &&& all_digits(s.subrange(a + 2, e - 1))
        }),
    decreases s.len() - p,
{
    if placeholder_end_at(s, p) is None {
        lemma_placeholder_digits(s, p + 1);
    } else {
        lemma_digit_run(s, p + 2);
    }
}

proof fn lemma_digit_run(s: Seq<char>, i: int)
    requires
        0 <= i <= s.len(),
    ensures
        i <= digit_run_end(s, i) <= s.len(),
        all_digits(s.subrange(i, digit_run_end(s, i))),
    decreases s.len() - i,
{
    if 0 <= i < s.len() && is_digit(s[i]) {
        lemma_digit_run(s, i + 1);
        assert(s.subrange(i, digit_run_end(s, i)) =~= seq![s[i]] + s.subrange(i + 1, digit_run_end(s, i + 1)));
    } else {
        assert(s.subrange(i, i) =~= Seq::<char>::empty());
    }
}

/// The value of a digit string, or `None` past `usize::MAX`.
fn width_value(w: &str) -> (r: Option<usize>)
    requires
        all_digits(w@),
    ensures
        r is Some <==> digits_value(w@) <= usize::MAX,
        r is Some ==> r->0 == digits_value(w@),
{
    let n = w.unicode_len();
    let mut v: usize = 0;
    let mut k: usize = 0;
    while k < n
        invariant
            k <= n,
            n == w@.len(),
            all_digits(w@),
            v == digits_value(w@.subrange(0, k as int)),
        decreases n - k,
    {
        let c = w.get_char(k);
        assert(is_digit(w@[k as int]));
        let d: usize = (c as u32 - '0' as u32) as usize;
        assert(w@.subrange(0, (k + 1) as int).drop_last() =~= w@.subrange(0, k as int));
        if v > (usize::MAX - d) / 10 {
            proof {
                crate::text::lemma_digits_value_mono(w@, (k + 1) as int);
                assert(digits_value(w@.subrange(0, (k + 1) as int)) == v * 10 + d);
                assert(v * 10 + d > usize::MAX) by (nonlinear_arith)
                    requires
                        v > (usize::MAX - d) / 10,
                        d <= 9,
                ;
            }
            return None;
        }
        assert(v * 10 + d <= usize::MAX) by (nonlinear_arith)
            requires
                v <= (usize::MAX - d) / 10,
                d <= 9,
        ;
        v = v * 10 + d;
        k = k + 1;
    }
    assert(w@.subrange(0, n as int) =~= w@);
    Some(v)
}

/// `pattern` with its first `%0<n>d` placeholder replaced by `i`
/// zero-padded to width `n`; a pattern without one is returned as it is.
/// `None` when the width does not fit in `usize`.
pub fn format_width(pattern: &str, i: usize) -> (r: Option<String>)
    ensures
        opt_view(r) == format_width_spec(pattern@, i as nat),
{
    assert("%0([0-9]+)d"@ == width_placeholder_pattern());
    match split_around_group("%0([0-9]+)d", 1, pattern) {
        None => Some(pattern.to_owned()),
        Some((x, w, z)) => {
            proof {
                lemma_placeholder_digits(pattern@, 0);
            }
            let xn = x.as_str().unicode_len();
            let zn = z.as_str().unicode_len();
            let before = x.as_str().substring_char(0, xn - 2);
            let after = z.as_str().substring_char(1, zn);
            match width_value(w.as_str()) {
                None => None,
                Some(width) => {
                    let digits = nat_to_string(i as u64);
                    let padded = pad_zeros(digits.as_str(), width);
                    let mut t = before.to_owned();
                    t.append(padded.as_str());
                    t.append(after);
                    Some(t)
                },
            }
        },
    }
}

/// The text of an optional string.
pub open spec fn opt_view(o: Option<String>) -> Option<Seq<char>> {
    match o {
        Some(s) => Some(s@),
        None => None,
    }
}

} // verus!
