//! What the standard library knows of Unicode: white space and letter case.
//!
//! The three properties are taken from the standard library as they are; this
//! module gives each a name that contracts can speak of, and builds trimming
//! on top of the first.

use vstd::prelude::*;
use vstd::string::*;
use crate::text::chars_of;

verus! {

/// Whether `c` has the Unicode property `White_Space`.
pub uninterp spec fn is_whitespace_char(c: char) -> bool;

/// The lowercase form of `s` under the Unicode case mapping.
pub uninterp spec fn lowercase_text(s: Seq<char>) -> Seq<char>;

/// The uppercase form of `s` under the Unicode case mapping.
pub uninterp spec fn uppercase_text(s: Seq<char>) -> Seq<char>;

/// `char::is_whitespace` is taken on trust: its answer depends on the character
/// alone and is what `is_whitespace_char` names.
pub assume_specification[ char::is_whitespace ](c: char) -> (b: bool)
    ensures
        b == is_whitespace_char(c),
;

/// `str::to_lowercase` is taken on trust: the string it returns depends on the
/// characters of `s` alone and is what `lowercase_text` names.
pub assume_specification[ str::to_lowercase ](s: &str) -> (r: String)
    ensures
        r@ == lowercase_text(s@),
;

/// `str::to_uppercase` is taken on trust: the string it returns depends on the
/// characters of `s` alone and is what `uppercase_text` names.
pub assume_specification[ str::to_uppercase ](s: &str) -> (r: String)
    ensures
        r@ == uppercase_text(s@),
;

/// Every character of `s` is white space.
pub open spec fn all_whitespace(s: Seq<char>) -> bool {
    forall|i: int| 0 <= i < s.len() ==> is_whitespace_char(#[trigger] s[i])
}

/// How many white space characters `s` begins with.
pub open spec fn leading_whitespace(s: Seq<char>) -> nat
    decreases s.len(),
{
    if s.len() > 0 && is_whitespace_char(s[0]) {
        1 + leading_whitespace(s.drop_first())
    } else {
        0
    }
}

/// How many white space characters `s` ends with.
pub open spec fn trailing_whitespace(s: Seq<char>) -> nat
    decreases s.len(),
{
    if s.len() > 0 && is_whitespace_char(s.last()) {
        1 + trailing_whitespace(s.drop_last())
    } else {
        0
    }
}

/// `s` without the white space at its start.
pub open spec fn trimmed_start(s: Seq<char>) -> Seq<char> {
    s.skip(leading_whitespace(s) as int)
}

/// `s` without the white space at its start and at its end.
pub open spec fn trimmed(s: Seq<char>) -> Seq<char> {
    let rest = trimmed_start(s);
    rest.take(rest.len() - trailing_whitespace(rest))
}

/// A run of `count` white space characters at the start of `s` that ends at a
/// character of another kind, or at the end of `s`, is all the leading white space.
pub proof fn lemma_leading_whitespace(s: Seq<char>, count: int)
    requires
        0 <= count <= s.len(),
        all_whitespace(s.take(count)),
        count == s.len() || !is_whitespace_char(s[count]),
    ensures
        leading_whitespace(s) == count,
    decreases count,
{
    if count > 0 {
        assert(s.take(count)[0] == s[0]);
        let rest = s.drop_first();
        assert forall|i: int| 0 <= i < rest.take(count - 1).len() implies is_whitespace_char(
            #[trigger] rest.take(count - 1)[i],
        ) by {
            assert(s.take(count)[i + 1] == rest.take(count - 1)[i]);
        }
        lemma_leading_whitespace(rest, count - 1);
    }
}

/// A run of `count` white space characters at the end of `s` that begins after a
/// character of another kind, or at the start of `s`, is all the trailing white space.
pub proof fn lemma_trailing_whitespace(s: Seq<char>, count: int)
    requires
        0 <= count <= s.len(),
        all_whitespace(s.skip(s.len() - count)),
        count == s.len() || !is_whitespace_char(s[s.len() - count - 1]),
    ensures
        trailing_whitespace(s) == count,
    decreases count,
{
    if count > 0 {
        assert(s.skip(s.len() - count)[count - 1] == s.last());
        let rest = s.drop_last();
        assert forall|i: int| 0 <= i < rest.skip(rest.len() - (count - 1)).len() implies is_whitespace_char(
            #[trigger] rest.skip(rest.len() - (count - 1))[i],
        ) by {
            assert(s.skip(s.len() - count)[i] == rest.skip(rest.len() - (count - 1))[i]);
        }
        lemma_trailing_whitespace(rest, count - 1);
    }
}

/// Trimming leaves nothing exactly when every character is white space.
pub proof fn lemma_trimmed_empty(s: Seq<char>)
    ensures
        trimmed(s).len() == 0 <==> all_whitespace(s),
    decreases s.len(),
{
    if s.len() > 0 && is_whitespace_char(s[0]) {
        let rest = s.drop_first();
        lemma_trimmed_empty(rest);
        lemma_leading_whitespace_bound(rest);
        assert(trimmed_start(s) =~= trimmed_start(rest));
        assert(trimmed(s) =~= trimmed(rest));
        if all_whitespace(rest) {
            assert forall|i: int| 0 <= i < s.len() implies is_whitespace_char(#[trigger] s[i]) by {
                if i > 0 {
                    assert(rest[i - 1] == s[i]);
                }
            }
        }
        if all_whitespace(s) {
            assert forall|i: int| 0 <= i < rest.len() implies is_whitespace_char(
                #[trigger] rest[i],
            ) by {
                assert(rest[i] == s[i + 1]);
            }
        }
    } else if s.len() > 0 {
        assert(trimmed_start(s) =~= s);
        lemma_trailing_short(s);
    }
}

/// The leading white space of `s` is part of `s`.
pub proof fn lemma_leading_whitespace_bound(s: Seq<char>)
    ensures
        leading_whitespace(s) <= s.len(),
    decreases s.len(),
{
    if s.len() > 0 && is_whitespace_char(s[0]) {
        lemma_leading_whitespace_bound(s.drop_first());
    }
}

/// Trailing white space never reaches a first character that is none.
proof fn lemma_trailing_short(s: Seq<char>)
    requires
        s.len() > 0,
        !is_whitespace_char(s[0]),
    ensures
        trailing_whitespace(s) < s.len(),
    decreases s.len(),
{
    if s.len() > 1 && is_whitespace_char(s.last()) {
        lemma_trailing_short(s.drop_last());
    }
}

/// Finds where the text of `s` begins and ends once the white space at both
/// ends is left out.
pub fn trim_bounds(s: &Vec<char>) -> (bounds: (usize, usize))
    ensures
        bounds.0 <= bounds.1 <= s.len(),
        s@.subrange(bounds.0 as int, bounds.1 as int) == trimmed(s@),
{
    let n = s.len();
    let mut from: usize = 0;
    while from < n && s[from].is_whitespace()
        invariant
            from <= n,
            n == s.len(),
            all_whitespace(s@.take(from as int)),
        decreases n - from,
    {
        from += 1;
        assert forall|i: int| 0 <= i < s@.take(from as int).len() implies is_whitespace_char(
            #[trigger] s@.take(from as int)[i],
        ) by {
            if i < from - 1 {
                assert(s@.take(from - 1)[i] == s@.take(from as int)[i]);
            }
        }
    }
    proof {
        lemma_leading_whitespace(s@, from as int);
    }
    let ghost rest = s@.skip(from as int);
    let mut to: usize = n;
    while to > from && s[to - 1].is_whitespace()
        invariant
            from <= to <= n,
            n == s.len(),
            rest == s@.skip(from as int),
            all_whitespace(rest.skip(to - from)),
        decreases to,
    {
        to -= 1;
        assert forall|i: int| 0 <= i < rest.skip(to - from).len() implies is_whitespace_char(
            #[trigger] rest.skip(to - from)[i],
        ) by {
            if i > 0 {
                assert(rest.skip(to - from + 1)[i - 1] == rest.skip(to - from)[i]);
            }
        }
    }
    proof {
        lemma_trailing_whitespace(rest, n - to);
        assert(s@.subrange(from as int, to as int) =~= trimmed(s@));
    }
    (from, to)
}

/// Removes the white space at both ends of `s`.
pub fn trim(s: &str) -> (t: &str)
    ensures
        t@ == trimmed(s@),
{
    let chars = chars_of(s);
    let (from, to) = trim_bounds(&chars);
    s.substring_char(from, to)
}

} // verus!
