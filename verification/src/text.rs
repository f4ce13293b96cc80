//! Whitespace trimming, answered by `str::trim` and `str::trim_end`.
use vstd::prelude::*;

verus! {

/// Whether `c` is whitespace as `char::is_whitespace` defines it: the characters with the
/// Unicode `White_Space` property.
pub open spec fn is_white_space(c: char) -> bool {
    let u = c as u32;
    ||| 0x9 <= u <= 0xD
    ||| u == 0x20
    ||| u == 0x85
    ||| u == 0xA0
    ||| u == 0x1680
    ||| 0x2000 <= u <= 0x200A
    ||| u == 0x2028
    ||| u == 0x2029
    ||| u == 0x202F
    ||| u == 0x205F
    ||| u == 0x3000
}

/// `s` with trailing whitespace removed.
pub open spec fn trimmed_end(s: Seq<char>) -> Seq<char>
    decreases s.len(),
{
    if s.len() > 0 && is_white_space(s.last()) {
        trimmed_end(s.drop_last())
    } else {
        s
    }
}

/// `s` with leading whitespace removed.
pub open spec fn trimmed_start(s: Seq<char>) -> Seq<char>
    decreases s.len(),
{
    if s.len() > 0 && is_white_space(s[0]) {
        trimmed_start(s.drop_first())
    } else {
        s
    }
}

/// `s` with leading and trailing whitespace removed.
pub open spec fn trimmed(s: Seq<char>) -> Seq<char> {
    trimmed_end(trimmed_start(s))
}

/// Calls `str::trim`.
///
/// Trusted: the result is `s` without its leading and trailing whitespace, whitespace being the
/// Unicode `White_Space` property, as std documents `trim`.
#[verifier::external_body]
pub(crate) fn trim(s: &str) -> (r: &str)
    ensures
        r@ == trimmed(s@),
{
    s.trim()
}

/// Calls `str::trim_end`.
///
/// Trusted: the result is `s` without its trailing whitespace, whitespace being the Unicode
/// `White_Space` property, as std documents `trim_end`.
#[verifier::external_body]
pub(crate) fn trim_end(s: &str) -> (r: &str)
    ensures
        r@ == trimmed_end(s@),
{
    s.trim_end()
}

/// A text of whitespace alone trims to nothing, from the start and from the end.
pub proof fn lemma_white_space_trims_away(s: Seq<char>)
    requires
        forall|i: int| 0 <= i < s.len() ==> is_white_space(#[trigger] s[i]),
    ensures
        trimmed_start(s).len() == 0,
        trimmed_end(s).len() == 0,
        trimmed(s).len() == 0,
    decreases s.len(),
{
    if s.len() > 0 {
        let t = s.drop_first();
        assert forall|i: int| 0 <= i < t.len() implies is_white_space(#[trigger] t[i]) by {
            assert(t[i] == s[i + 1]);
        }
        lemma_white_space_trims_away(t);
        let u = s.drop_last();
        assert forall|i: int| 0 <= i < u.len() implies is_white_space(#[trigger] u[i]) by {
            assert(u[i] == s[i]);
        }
        lemma_white_space_trims_away(u);
        assert(is_white_space(s[s.len() - 1]));
    }
    assert(trimmed_start(s).len() == 0);
    assert(trimmed_end(Seq::<char>::empty()).len() == 0);
}

} // verus!
