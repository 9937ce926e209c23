//! The regular expressions the library searches with, and the one search
//! it makes with them: the leftmost match, split around a capture group.
use vstd::prelude::*;
use crate::test_path::{digit_run_end, placeholder_from};

verus! {

/// A `%0<n>d` width placeholder; its group 1 is the width.
pub open spec fn width_placeholder_pattern() -> Seq<char> {
    "%0([0-9]+)d"@
}

/// A Java public class declaration; its group 2 is the class name.
pub open spec fn public_class_pattern() -> Seq<char> {
    "(?i)([^{}]*public\\s+class\\s+)(\\w+)"@
}

/// A `major.minor.patch` version number; its group 1 is the whole match.
pub open spec fn version_pattern() -> Seq<char> {
    "([0-9]+\\.[0-9]+\\.[0-9]+)"@
}

/// The end of a match of the version pattern starting at `p`, if one does;
/// each run of digits is taken whole.
pub open spec fn version_end_at(s: Seq<char>, p: int) -> Option<int> {
    let e1 = digit_run_end(s, p);
    let e2 = digit_run_end(s, e1 + 1);
    let e3 = digit_run_end(s, e2 + 1);
    if 0 <= p && e1 > p && e1 < s.len() && s[e1] == '.' && e2 > e1 + 1 && e2 < s.len() && s[e2] == '.'
        && e3 > e2 + 1 {
        Some(e3)
    } else {
        None
    }
}

/// The leftmost match of the version pattern at or after `p`, as a range.
pub open spec fn version_span_from(s: Seq<char>, p: int) -> Option<(int, int)>
    decreases s.len() - p,
{
    if p < 0 || p >= s.len() {
        None
    } else {
        match version_end_at(s, p) {
            Some(e) => Some((p, e)),
            None => version_span_from(s, p + 1),
        }
    }
}

/// The split of `hay` around its leftmost version number.
pub open spec fn version_group_split(hay: Seq<char>) -> Option<(Seq<char>, Seq<char>, Seq<char>)> {
    match version_span_from(hay, 0) {
        Some((a, e)) => Some((hay.subrange(0, a), hay.subrange(a, e), hay.subrange(e, hay.len() as int))),
        None => None,
    }
}

/// What the leftmost match of `public_class_pattern` splits a source into:
/// the text before the class name, the name, and the text after.
pub uninterp spec fn public_class_split(source: Seq<char>) -> Option<(Seq<char>, Seq<char>, Seq<char>)>;

/// The split of `hay` around group 1 of the leftmost width placeholder.
pub open spec fn width_group_split(hay: Seq<char>) -> Option<(Seq<char>, Seq<char>, Seq<char>)> {
    match placeholder_from(hay, 0) {
        Some((a, e)) => Some((hay.subrange(0, a + 2), hay.subrange(a + 2, e - 1), hay.subrange(e - 1, hay.len() as int))),
        None => None,
    }
}

pub open spec fn split_view(split: Option<(String, String, String)>) -> Option<(Seq<char>, Seq<char>, Seq<char>)> {
    match split {
        Some((a, n, b)) => Some((a@, n@, b@)),
        None => None,
    }
}

/// Relies on `regex::Regex::new` and `regex::Regex::captures`: the leftmost
/// match of `pattern` in `hay`, split into the haystack before capture
/// group `group`, the group, and the haystack after it. The patterns
/// admitted compile, and their groups take part in every match.
#[verifier::external_body]
pub(crate) fn split_around_group(pattern: &str, group: usize, hay: &str) -> (r: Option<(String, String, String)>)
    requires
        (pattern@ == width_placeholder_pattern() && group == 1) || (pattern@ == public_class_pattern() && group
            == 2) || (pattern@ == version_pattern() && group == 1),
    ensures
        pattern@ == version_pattern() ==> split_view(r) == version_group_split(hay@),
        pattern@ == width_placeholder_pattern() ==> split_view(r) == width_group_split(hay@),
        pattern@ == public_class_pattern() ==> split_view(r) == public_class_split(hay@),
        match r {
            Some((x, y, z)) => x@ + y@ + z@ == hay@,
            None => true,
        },
{
    let re = regex::Regex::new(pattern).unwrap();
    match re.captures(hay) {
        Some(caps) => {
            let m = caps.get(group).unwrap();
            Some((hay[..m.start()].to_string(), m.as_str().to_string(), hay[m.end()..].to_string()))
        },
        None => None,
    }
}

} // verus!
