//! Text primitives on character sequences: decimal rendering and parsing,
//! zero padding, searching and path pieces.
use vstd::prelude::*;
use vstd::string::*;

verus! {

/// The decimal digit character for `d < 10`.
pub open spec fn digit_char(d: nat) -> char {
    if d == 0 { '0' }
    else if d == 1 { '1' }
    else if d == 2 { '2' }
    else if d == 3 { '3' }
    else if d == 4 { '4' }
    else if d == 5 { '5' }
    else if d == 6 { '6' }
    else if d == 7 { '7' }
    else if d == 8 { '8' }
    else { '9' }
}

pub open spec fn is_digit(c: char) -> bool {
    '0' <= c && c <= '9'
}

pub open spec fn digit_value(c: char) -> nat {
    (c as nat - '0' as nat) as nat
}

/// Decimal representation of a natural number, without leading zeros.
pub open spec fn nat_str(n: nat) -> Seq<char>
    decreases n,
{
    if n < 10 {
        seq![digit_char(n)]
    } else {
        nat_str(n / 10).push(digit_char(n % 10))
    }
}

/// Decimal representation of an integer, with a leading `-` when negative.
pub open spec fn int_str(v: int) -> Seq<char> {
    if v < 0 {
        seq!['-'] + nat_str((-v) as nat)
    } else {
        nat_str(v as nat)
    }
}

/// `s` preceded by as many `'0'` as needed to reach width `w`.
pub open spec fn zero_pad(s: Seq<char>, w: nat) -> Seq<char> {
    if s.len() >= w {
        s
    } else {
        Seq::new((w - s.len()) as nat, |i: int| '0') + s
    }
}

/// An integer rendered with at least `w` characters, zeros inserted after
/// the sign (the behaviour of `{:0w}` formatting).
pub open spec fn padded_int_str(v: int, w: nat) -> Seq<char> {
    if v < 0 {
        seq!['-'] + zero_pad(nat_str((-v) as nat), if w >= 1 { (w - 1) as nat } else { 0 })
    } else {
        zero_pad(nat_str(v as nat), w)
    }
}

pub open spec fn all_digits(s: Seq<char>) -> bool {
    forall|i: int| 0 <= i < s.len() ==> is_digit(#[trigger] s[i])
}

/// The value of a sequence of decimal digits.
pub open spec fn digits_value(s: Seq<char>) -> nat
    decreases s.len(),
{
    if s.len() == 0 {
        0
    } else {
        digits_value(s.drop_last()) * 10 + digit_value(s.last())
    }
}

/// What `i32::from_str` accepts: an optional `+` or `-`, then one or more
/// ASCII digits, with a value inside the range of `i32`.
pub open spec fn parse_i32_spec(s: Seq<char>) -> Option<i32> {
    let neg = s.len() > 0 && s[0] == '-';
    let body = if s.len() > 0 && (s[0] == '-' || s[0] == '+') { s.skip(1) } else { s };
    let v: int = if neg { -(digits_value(body) as int) } else { digits_value(body) as int };
    if body.len() > 0 && all_digits(body) && i32::MIN <= v && v <= i32::MAX {
        Some(v as i32)
    } else {
        None
    }
}

/// Index of the first occurrence of `c` in `s` at or after `from`.
pub open spec fn first_char_from(s: Seq<char>, c: char, from: int) -> Option<int>
    decreases s.len() - from,
{
    if from < 0 || from >= s.len() {
        None
    } else if s[from] == c {
        Some(from)
    } else {
        first_char_from(s, c, from + 1)
    }
}

pub proof fn lemma_first_char_from(s: Seq<char>, c: char, from: int)
    requires
        0 <= from,
    ensures
        match first_char_from(s, c, from) {
            Some(i) => 0 <= from <= i < s.len() && s[i] == c
                && forall|j: int| from <= j < i ==> s[j] != c,
            None => forall|j: int| from <= j < s.len() && 0 <= j ==> s[j] != c,
        },
    decreases s.len() - from,
{
    if from < s.len() && s[from] != c {
        lemma_first_char_from(s, c, from + 1);
    }
}

pub proof fn lemma_digits_value_mono(s: Seq<char>, k: int)
    requires
        0 <= k <= s.len(),
    ensures
        digits_value(s.subrange(0, k)) <= digits_value(s),
    decreases s.len() - k,
{
    if k < s.len() {
        lemma_digits_value_mono(s, k + 1);
        assert(s.subrange(0, k + 1).drop_last() =~= s.subrange(0, k));
    } else {
        assert(s.subrange(0, k) =~= s);
    }
}

fn digit_str(d: u64) -> (r: &'static str)
    requires
        d < 10,
    ensures
        r@ == seq![digit_char(d as nat)],
{
    proof {
        reveal_strlit("0");
        reveal_strlit("1");
        reveal_strlit("2");
        reveal_strlit("3");
        reveal_strlit("4");
        reveal_strlit("5");
        reveal_strlit("6");
        reveal_strlit("7");
        reveal_strlit("8");
        reveal_strlit("9");
    }
    if d == 0 { "0" }
    else if d == 1 { "1" }
    else if d == 2 { "2" }
    else if d == 3 { "3" }
    else if d == 4 { "4" }
    else if d == 5 { "5" }
    else if d == 6 { "6" }
    else if d == 7 { "7" }
    else if d == 8 { "8" }
    else {
        assert(seq![digit_char(d as nat)] =~= seq!['9']);
        "9"
    }
}

/// Decimal text of `n`.
pub fn nat_to_string(n: u64) -> (r: String)
    ensures
        r@ == nat_str(n as nat),
{
    let mut acc = String::from_str(digit_str(n % 10));
    let mut m: u64 = n / 10;
    proof {
        if n < 10 {
            assert(acc@ =~= nat_str(n as nat));
        } else {
            assert(nat_str(n as nat) =~= nat_str(m as nat) + acc@);
        }
    }
    while m > 0
        invariant
            m > 0 ==> nat_str(n as nat) == nat_str(m as nat) + acc@,
            m == 0 ==> nat_str(n as nat) == acc@,
        decreases m,
    {
        let mut t = String::from_str(digit_str(m % 10));
        t.append(acc.as_str());
        proof {
            if m >= 10 {
                assert(nat_str((m / 10) as nat) + t@ =~= nat_str(m as nat) + acc@);
            } else {
                assert(t@ =~= nat_str(m as nat) + acc@);
            }
        }
        acc = t;
        m = m / 10;
    }
    acc
}


/// Decimal text of `v`, with a leading `-` when negative.
pub fn int_to_string(v: i32) -> (r: String)
    ensures
        r@ == int_str(v as int),
{
    if v < 0 {
        let a: i64 = -(v as i64);
        let digits = nat_to_string(a as u64);
        let mut t = String::from_str("-");
        proof {
            reveal_strlit("-");
        }
        t.append(digits.as_str());
        t
    } else {
        nat_to_string(v as u64)
    }
}

/// `s` preceded by `'0'` characters up to width `w`.
pub fn pad_zeros(s: &str, w: usize) -> (r: String)
    ensures
        r@ == zero_pad(s@, w as nat),
{
    let len = s.unicode_len();
    if len >= w {
        return s.to_owned();
    }
    let mut t = String::new();
    let mut k: usize = 0;
    proof {
        reveal_strlit("0");
    }
    while k < w - len
        invariant
            len < w,
            len == s@.len(),
            k <= w - len,
            t@ =~= Seq::new(k as nat, |i: int| '0'),
        decreases w - len - k,
    {
        proof {
            reveal_strlit("0");
        }
        t.append("0");
        k = k + 1;
    }
    t.append(s);
    t
}

/// `v` rendered with at least `w` characters, zeros after the sign.
pub fn padded_int_to_string(v: i32, w: usize) -> (r: String)
    ensures
        r@ == padded_int_str(v as int, w as nat),
{
    if v < 0 {
        let a: i64 = -(v as i64);
        let digits = nat_to_string(a as u64);
        let padded = pad_zeros(digits.as_str(), if w >= 1 { w - 1 } else { 0 });
        let mut t = String::from_str("-");
        proof {
            reveal_strlit("-");
        }
        t.append(padded.as_str());
        t
    } else {
        let digits = nat_to_string(v as u64);
        pad_zeros(digits.as_str(), w)
    }
}

/// Parses a decimal integer as `i32::from_str` does.
pub fn parse_i32(s: &str) -> (r: Option<i32>)
    ensures
        r == parse_i32_spec(s@),
{
    let n = s.unicode_len();
    let ghost neg = s@.len() > 0 && s@[0] == '-';
    let mut start: usize = 0;
    let mut negative = false;
    if n > 0 {
        let c = s.get_char(0);
        if c == '-' {
            negative = true;
            start = 1;
        } else if c == '+' {
            start = 1;
        }
    }
    let ghost body = if s@.len() > 0 && (s@[0] == '-' || s@[0] == '+') { s@.skip(1) } else { s@ };
    assert(body =~= s@.subrange(start as int, n as int));
    if start >= n {
        return None;
    }
    let mut val: i64 = 0;
    let mut k: usize = start;
    while k < n
        invariant
            start <= k <= n,
            n == s@.len(),
            body =~= s@.subrange(start as int, n as int),
            body == (if s@.len() > 0 && (s@[0] == '-' || s@[0] == '+') { s@.skip(1) } else { s@ }),
            all_digits(s@.subrange(start as int, k as int)),
            val as int == digits_value(s@.subrange(start as int, k as int)),
            0 <= val <= 0x8000_0000,
        decreases n - k,
    {
        let c = s.get_char(k);
        if !('0' <= c && c <= '9') {
            assert(!is_digit(body[k - start]));
            assert(!all_digits(body));
            return None;
        }
        let d: i64 = (c as u32 - '0' as u32) as i64;
        assert(s@.subrange(start as int, (k + 1) as int).drop_last() =~= s@.subrange(start as int, k as int));
        assert(s@.subrange(start as int, (k + 1) as int).last() == c);
        val = val * 10 + d;
        k = k + 1;
        if val > 0x8000_0000 {
            proof {
                lemma_digits_value_mono(body, (k - start) as int);
                assert(body.subrange(0, (k - start) as int) =~= s@.subrange(start as int, k as int));
                assert(digits_value(body) > 0x8000_0000);
            }
            return None;
        }
    }
    assert(s@.subrange(start as int, n as int) =~= body);
    assert(negative == neg);
    if negative {
        Some((-val) as i32)
    } else if val <= 0x7fff_ffff {
        Some(val as i32)
    } else {
        None
    }
}

/// First index of `c` in `s` at or after `from`.
pub fn find_char_from(s: &str, c: char, from: usize) -> (r: Option<usize>)
    requires
        from <= s@.len(),
    ensures
        r is Some <==> first_char_from(s@, c, from as int) is Some,
        r is Some ==> first_char_from(s@, c, from as int) == Some(r->0 as int),
        r is Some ==> from <= r->0 < s@.len() && s@[r->0 as int] == c,
{
    proof {
        lemma_first_char_from(s@, c, from as int);
    }
    let n = s.unicode_len();
    let mut k = from;
    while k < n
        invariant
            from <= k <= n,
            n == s@.len(),
            first_char_from(s@, c, from as int) == first_char_from(s@, c, k as int),
        decreases n - k,
    {
        if s.get_char(k) == c {
            return Some(k);
        }
        k = k + 1;
    }
    None
}


/// The character views of a sequence of strings.
pub open spec fn texts(v: Seq<String>) -> Seq<Seq<char>> {
    v.map_values(|s: String| s@)
}

/// `base` followed by the relative path `rel`, with one separator between.
pub open spec fn join_path_spec(base: Seq<char>, rel: Seq<char>) -> Seq<char> {
    if base.len() == 0 {
        rel
    } else if base.last() == '/' {
        base + rel
    } else {
        base + seq!['/'] + rel
    }
}

/// Quotient of `v / d` rounded toward zero, as Rust's integer division.
pub open spec fn trunc_div(v: int, d: int) -> int {
    if v >= 0 { v / d } else { -((-v) / d) }
}

/// Remainder matching `trunc_div`, as Rust's `%`.
pub open spec fn trunc_rem(v: int, d: int) -> int {
    if v >= 0 { v % d } else { -((-v) % d) }
}

/// Whether `s` begins with `p`.
pub open spec fn starts_with(s: Seq<char>, p: Seq<char>) -> bool {
    p.len() <= s.len() && s.subrange(0, p.len() as int) == p
}

pub fn push_text(v: &mut Vec<String>, s: String)
    ensures
        texts(final(v)@) == texts(old(v)@).push(s@),
{
    v.push(s);
    assert(texts(v@) =~= texts(old(v)@).push(s@));
}

pub fn push_str(v: &mut Vec<String>, s: &str)
    ensures
        texts(final(v)@) == texts(old(v)@).push(s@),
{
    push_text(v, s.to_owned());
}

/// `a` followed by `b`.
pub fn cat(a: &str, b: &str) -> (r: String)
    ensures
        r@ == a@ + b@,
{
    let mut t = a.to_owned();
    t.append(b);
    t
}

/// Whether two texts are equal, character by character.
pub fn same_text(a: &str, b: &str) -> (r: bool)
    ensures
        r == (a@ == b@),
{
    let n = a.unicode_len();
    let m = b.unicode_len();
    if n != m {
        return false;
    }
    let mut k: usize = 0;
    while k < n
        invariant
            k <= n,
            n == a@.len(),
            m == b@.len(),
            n == m,
            a@.subrange(0, k as int) =~= b@.subrange(0, k as int),
        decreases n - k,
    {
        if a.get_char(k) != b.get_char(k) {
            return false;
        }
        assert(a@.subrange(0, (k + 1) as int) =~= b@.subrange(0, (k + 1) as int));
        k = k + 1;
    }
    assert(a@ =~= a@.subrange(0, n as int));
    assert(b@ =~= b@.subrange(0, n as int));
    true
}

/// Whether `s` begins with `p`.
pub fn has_prefix(s: &str, p: &str) -> (r: bool)
    ensures
        r == starts_with(s@, p@),
{
    let n = s.unicode_len();
    let m = p.unicode_len();
    if m > n {
        return false;
    }
    let head = s.substring_char(0, m);
    same_text(head, p)
}

/// Joins `rel` onto `base` as a path component.
pub fn join_path(base: &str, rel: &str) -> (r: String)
    ensures
        r@ == join_path_spec(base@, rel@),
{
    let n = base.unicode_len();
    if n == 0 {
        rel.to_owned()
    } else if base.get_char(n - 1) == '/' {
        cat(base, rel)
    } else {
        let with_sep = cat(base, "/");
        proof {
            reveal_strlit("/");
        }
        cat(with_sep.as_str(), rel)
    }
}


/// The last index below `hi` holding `c`.
pub open spec fn last_index_below(s: Seq<char>, c: char, hi: int) -> Option<int>
    decreases hi,
{
    if hi <= 0 || hi > s.len() {
        None
    } else if s[hi - 1] == c {
        Some(hi - 1)
    } else {
        last_index_below(s, c, hi - 1)
    }
}

/// Where the last path component of `s` starts.
pub open spec fn file_name_start(s: Seq<char>) -> int {
    match last_index_below(s, '/', s.len() as int) {
        Some(i) => i + 1,
        None => 0,
    }
}

/// The last component of a path.
pub open spec fn base_name_spec(s: Seq<char>) -> Seq<char> {
    s.subrange(file_name_start(s), s.len() as int)
}

/// The path without its last component (`"/"` for a component right
/// under the root, empty for a bare name).
pub open spec fn parent_spec(s: Seq<char>) -> Seq<char> {
    match last_index_below(s, '/', s.len() as int) {
        Some(i) => if i == 0 { seq!['/'] } else { s.subrange(0, i) },
        None => Seq::empty(),
    }
}

/// The path without the extension of its last component: the text from
/// the component's last `.` on, unless that `.` starts the component.
pub open spec fn strip_extension_spec(s: Seq<char>) -> Seq<char> {
    let f = file_name_start(s);
    match last_index_below(s, '.', s.len() as int) {
        Some(d) => if d > f { s.subrange(0, d) } else { s },
        None => s,
    }
}

pub proof fn lemma_last_index_below(s: Seq<char>, c: char, hi: int)
    ensures
        match last_index_below(s, c, hi) {
            Some(i) => 0 <= i < hi <= s.len() && s[i] == c,
            None => true,
        },
    decreases hi,
{
    if hi > 0 && hi <= s.len() && s[hi - 1] != c {
        lemma_last_index_below(s, c, hi - 1);
    }
}

fn last_index(s: &str, n: usize, c: char) -> (r: Option<usize>)
    requires
        n == s@.len(),
    ensures
        match last_index_below(s@, c, n as int) {
            Some(i) => 0 <= i < n && r == Some(i as usize),
            None => r is None,
        },
{
    proof {
        lemma_last_index_below(s@, c, n as int);
    }
    let mut hi = n;
    while hi > 0
        invariant
            hi <= n,
            n == s@.len(),
            last_index_below(s@, c, n as int) == last_index_below(s@, c, hi as int),
        decreases hi,
    {
        if s.get_char(hi - 1) == c {
            return Some(hi - 1);
        }
        hi = hi - 1;
    }
    None
}

/// The last component of a path.
pub fn base_name(s: &str) -> (r: String)
    ensures
        r@ == base_name_spec(s@),
{
    let n = s.unicode_len();
    let start = match last_index(s, n, '/') {
        Some(i) => i + 1,
        None => 0,
    };
    s.substring_char(start, n).to_owned()
}

/// The path without its last component.
pub fn parent(s: &str) -> (r: String)
    ensures
        r@ == parent_spec(s@),
{
    let n = s.unicode_len();
    match last_index(s, n, '/') {
        Some(i) => if i == 0 {
            proof {
                reveal_strlit("/");
            }
            "/".to_owned()
        } else {
            s.substring_char(0, i).to_owned()
        },
        None => String::new(),
    }
}

/// The path without the extension of its last component.
pub fn strip_extension(s: &str) -> (r: String)
    ensures
        r@ == strip_extension_spec(s@),
{
    let n = s.unicode_len();
    let f = match last_index(s, n, '/') {
        Some(i) => i + 1,
        None => 0,
    };
    match last_index(s, n, '.') {
        Some(d) => if d > f {
            s.substring_char(0, d).to_owned()
        } else {
            s.to_owned()
        },
        None => s.to_owned(),
    }
}

} // verus!
