//! Comma-separated lists of tokens, as account patterns and method patterns are written.
//!
//! A list is cut at every comma. Each piece is a field; a field with the ASCII
//! whitespace around it taken off is a token. Empty tokens do not count: a list made of
//! nothing but commas and whitespace has no tokens and so selects nothing.

use crate::glob::{glob_match, glob_matches};
use vstd::prelude::*;
use vstd::slice::slice_subrange;

verus! {

/// The character that separates the fields of a list.
pub const SEPARATOR: char = ',';

/// The ASCII whitespace characters: space, tab, line feed, form feed, carriage return.
pub open spec fn is_ascii_whitespace(c: char) -> bool {
    c == ' ' || c == '\t' || c == '\n' || c == '\x0C' || c == '\r'
}

/// `s` without the ASCII whitespace it starts with.
pub open spec fn trim_start(s: Seq<char>) -> Seq<char>
    decreases s.len(),
{
    if s.len() > 0 && is_ascii_whitespace(s[0]) {
        trim_start(s.drop_first())
    } else {
        s
    }
}

/// `s` without the ASCII whitespace it ends with.
pub open spec fn trim_end(s: Seq<char>) -> Seq<char>
    decreases s.len(),
{
    if s.len() > 0 && is_ascii_whitespace(s.last()) {
        trim_end(s.drop_last())
    } else {
        s
    }
}

/// `s` without the ASCII whitespace around it.
pub open spec fn trim(s: Seq<char>) -> Seq<char> {
    trim_end(trim_start(s))
}

/// Whether `list[a..b]` is a field of `list`: a stretch without a comma that reaches
/// from the start of the list, or from just behind a comma, to the next comma or to
/// the end of the list.
pub open spec fn is_field(list: Seq<char>, a: int, b: int) -> bool {
    &&& 0 <= a <= b <= list.len()
    &&& a == 0 || list[a - 1] == SEPARATOR
    &&& b == list.len() || list[b] == SEPARATOR
    &&& forall|k: int| a <= k < b ==> list[k] != SEPARATOR
}

/// The token in the field `list[a..b]`.
pub open spec fn token_at(list: Seq<char>, a: int, b: int) -> Seq<char> {
    trim(list.subrange(a, b))
}

/// Whether `token` is one of the tokens of `list`. The empty token never is.
pub open spec fn has_token(list: Seq<char>, token: Seq<char>) -> bool {
    token.len() > 0 && exists|a: int, b: int| #[trigger]
        is_field(list, a, b) && token_at(list, a, b) == token
}

/// Whether some token of `list`, read as a glob, matches the whole of `text`.
pub open spec fn any_token_matches(list: Seq<char>, text: Seq<char>) -> bool {
    exists|a: int, b: int| #[trigger]
        is_field(list, a, b) && token_at(list, a, b).len() > 0 && glob_matches(
            token_at(list, a, b),
            text,
        )
}

/// A text that neither starts nor ends with whitespace is its own trimmed form.
pub proof fn trim_keeps_tight_text(s: Seq<char>)
    requires
        s.len() > 0 ==> !is_ascii_whitespace(s[0]) && !is_ascii_whitespace(s.last()),
    ensures
        trim(s) == s,
{
}

/// A list without a token selects nothing. The empty list is such a list, and so is
/// every list made of commas and whitespace alone.
pub proof fn blank_list_matches_nothing(list: Seq<char>, text: Seq<char>)
    requires
        forall|k: int|
            0 <= k < list.len() ==> list[k] == SEPARATOR || is_ascii_whitespace(#[trigger] list[k]),
    ensures
        !any_token_matches(list, text),
{
    assert forall|a: int, b: int| #[trigger] is_field(list, a, b) implies token_at(
        list,
        a,
        b,
    ).len() == 0 by {
        lemma_trim_start_blank(list.subrange(a, b));
    }
}

/// A list that is one token, with no comma in it and no whitespace around it, selects
/// what the token matches as a glob.
pub proof fn single_token_list(list: Seq<char>, text: Seq<char>)
    requires
        list.len() > 0,
        forall|k: int| 0 <= k < list.len() ==> list[k] != SEPARATOR,
        !is_ascii_whitespace(list[0]),
        !is_ascii_whitespace(list.last()),
    ensures
        any_token_matches(list, text) == glob_matches(list, text),
{
    assert(list.subrange(0, list.len() as int) =~= list);
    trim_keeps_tight_text(list);
    assert(is_field(list, 0, list.len() as int));
    assert forall|a: int, b: int| #[trigger] is_field(list, a, b) implies a == 0 && b
        == list.len() by {}
}

proof fn lemma_trim_start_blank(s: Seq<char>)
    requires
        forall|k: int| 0 <= k < s.len() ==> is_ascii_whitespace(#[trigger] s[k]),
    ensures
        trim(s).len() == 0,
    decreases s.len(),
{
    if s.len() > 0 {
        lemma_trim_start_blank(s.drop_first());
    }
}

/// Whether `c` is ASCII whitespace.
pub fn is_whitespace(c: char) -> (r: bool)
    ensures
        r == is_ascii_whitespace(c),
{
    c == ' ' || c == '\t' || c == '\n' || c == '\x0C' || c == '\r'
}

/// Where the field that starts at `start` ends: at the next comma, or at the end of
/// the list.
fn field_end(list: &[char], start: usize) -> (end: usize)
    requires
        start <= list@.len(),
    ensures
        start <= end <= list@.len(),
        end == list@.len() || list@[end as int] == SEPARATOR,
        forall|k: int| start <= k < end ==> list@[k] != SEPARATOR,
{
    let mut end = start;
    while end < list.len() && list[end] != SEPARATOR
        invariant
            start <= end <= list@.len(),
            forall|k: int| start <= k < end ==> list@[k] != SEPARATOR,
        decreases list@.len() - end,
    {
        end = end + 1;
    }
    end
}

/// The bounds of `list[a..b]` once the ASCII whitespace around it is taken off.
fn trim_bounds(list: &[char], a: usize, b: usize) -> (bounds: (usize, usize))
    requires
        a <= b <= list@.len(),
    ensures
        a <= bounds.0 <= bounds.1 <= b,
        list@.subrange(bounds.0 as int, bounds.1 as int) == trim(
            list@.subrange(a as int, b as int),
        ),
{
    let mut lo = a;
    while lo < b && is_whitespace(list[lo])
        invariant
            a <= lo <= b <= list@.len(),
            trim_start(list@.subrange(a as int, b as int)) == trim_start(
                list@.subrange(lo as int, b as int),
            ),
        decreases b - lo,
    {
        assert(list@.subrange(lo as int, b as int).drop_first() =~= list@.subrange(
            lo + 1,
            b as int,
        ));
        lo = lo + 1;
    }
    let mut hi = b;
    while lo < hi && is_whitespace(list[hi - 1])
        invariant
            a <= lo <= hi <= b <= list@.len(),
            trim(list@.subrange(a as int, b as int)) == trim_end(
                list@.subrange(lo as int, hi as int),
            ),
        decreases hi - lo,
    {
        assert(list@.subrange(lo as int, hi as int).drop_last() =~= list@.subrange(
            lo as int,
            hi - 1,
        ));
        hi = hi - 1;
    }
    (lo, hi)
}

/// Every field starts either at `start` or behind the comma that ends the field
/// starting there; and the field that starts at `start` ends where `field_end` says.
pub proof fn lemma_fields_in_order(list: Seq<char>, start: int, end: int, a: int, b: int)
    requires
        is_field(list, start, end),
        is_field(list, a, b),
        start <= a,
    ensures
        a == start ==> b == end,
        a != start ==> end < a,
{
}

/// Decides `any_token_matches`: the fields are visited from left to right, and the
/// first token that matches settles it.
pub fn matches_any_token(list: &[char], text: &[char]) -> (found: bool)
    ensures
        found == any_token_matches(list@, text@),
{
    let n = list.len();
    let mut start: usize = 0;
    loop
        invariant
            n == list@.len(),
            start <= n,
            start == 0 || list@[start - 1] == SEPARATOR,
            forall|a: int, b: int|
                #![trigger is_field(list@, a, b)]
                is_field(list@, a, b) && a < start ==> !(token_at(list@, a, b).len() > 0
                    && glob_matches(token_at(list@, a, b), text@)),
        decreases n - start,
    {
        let end = field_end(list, start);
        let (lo, hi) = trim_bounds(list, start, end);
        assert(is_field(list@, start as int, end as int));
        if lo < hi && glob_match(slice_subrange(list, lo, hi), text) {
            return true;
        }
        assert forall|a: int, b: int|
            #![trigger is_field(list@, a, b)]
            is_field(list@, a, b) && a < end + 1 implies !(token_at(list@, a, b).len() > 0
            && glob_matches(token_at(list@, a, b), text@)) by {
            if a >= start {
                lemma_fields_in_order(list@, start as int, end as int, a, b);
            }
        }
        if end == n {
            return false;
        }
        start = end + 1;
    }
}

/// Decides `has_token` for a `token` that is not empty: whether one of the tokens of
/// `list` equals `token`, character for character.
pub fn contains_token(list: &[char], token: &[char]) -> (found: bool)
    ensures
        found == has_token(list@, token@),
{
    if token.len() == 0 {
        return false;
    }
    let n = list.len();
    let mut start: usize = 0;
    loop
        invariant
            n == list@.len(),
            token@.len() > 0,
            start <= n,
            start == 0 || list@[start - 1] == SEPARATOR,
            forall|a: int, b: int|
                #![trigger is_field(list@, a, b)]
                is_field(list@, a, b) && a < start ==> token_at(list@, a, b) != token@,
        decreases n - start,
    {
        let end = field_end(list, start);
        let (lo, hi) = trim_bounds(list, start, end);
        assert(is_field(list@, start as int, end as int));
        if same_chars(slice_subrange(list, lo, hi), token) {
            return true;
        }
        assert forall|a: int, b: int|
            #![trigger is_field(list@, a, b)]
            is_field(list@, a, b) && a < end + 1 implies token_at(list@, a, b) != token@ by {
            if a >= start {
                lemma_fields_in_order(list@, start as int, end as int, a, b);
            }
        }
        if end == n {
            return false;
        }
        start = end + 1;
    }
}

/// Whether `a` and `b` hold the same characters.
pub fn same_chars(a: &[char], b: &[char]) -> (same: bool)
    ensures
        same == (a@ == b@),
{
    if a.len() != b.len() {
        return false;
    }
    let mut i: usize = 0;
    while i < a.len()
        invariant
            a@.len() == b@.len(),
            i <= a@.len(),
            forall|k: int| 0 <= k < i ==> a@[k] == b@[k],
        decreases a@.len() - i,
    {
        if a[i] != b[i] {
            return false;
        }
        i = i + 1;
    }
    assert(a@ =~= b@);
    true
}

} // verus!
