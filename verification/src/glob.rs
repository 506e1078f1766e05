//! Whole-string glob matching in which `*` is the only wildcard.

use vstd::prelude::*;

verus! {

/// The one wildcard: it stands for any run of characters, the empty run included.
pub const WILDCARD: char = '*';

/// Whether `pattern` matches the whole of `text`. A `*` in the pattern stands for any
/// run of characters; every other character stands for itself.
pub open spec fn glob_matches(pattern: Seq<char>, text: Seq<char>) -> bool
    decreases pattern.len(), text.len(),
{
    if pattern.len() == 0 {
        text.len() == 0
    } else if pattern[0] == WILDCARD {
        glob_matches(pattern.drop_first(), text) || (text.len() > 0 && glob_matches(
            pattern,
            text.drop_first(),
        ))
    } else {
        text.len() > 0 && text[0] == pattern[0] && glob_matches(
            pattern.drop_first(),
            text.drop_first(),
        )
    }
}

/// Whether what is left of `pattern` from `j` on matches what is left of `text` from `i` on.
pub open spec fn matches_from(pattern: Seq<char>, text: Seq<char>, j: int, i: int) -> bool {
    glob_matches(pattern.skip(j), text.skip(i))
}

/// One step of the definition, read at positions `j` and `i`.
pub proof fn lemma_matches_from_step(pattern: Seq<char>, text: Seq<char>, j: int, i: int)
    requires
        0 <= j <= pattern.len(),
        0 <= i <= text.len(),
    ensures
        matches_from(pattern, text, j, i) == (if j == pattern.len() {
            i == text.len()
        } else if pattern[j] == WILDCARD {
            matches_from(pattern, text, j + 1, i) || (i < text.len() && matches_from(
                pattern,
                text,
                j,
                i + 1,
            ))
        } else {
            i < text.len() && text[i] == pattern[j] && matches_from(pattern, text, j + 1, i + 1)
        }),
{
    if j < pattern.len() {
        assert(pattern.skip(j).drop_first() =~= pattern.skip(j + 1));
    }
    if i < text.len() {
        assert(text.skip(i).drop_first() =~= text.skip(i + 1));
    }
}

/// A wildcard that matches from `hi` on also matches from any earlier position: it
/// takes up the characters in between.
pub proof fn lemma_wildcard_absorbs(pattern: Seq<char>, text: Seq<char>, j: int, lo: int, hi: int)
    requires
        0 <= j < pattern.len(),
        pattern[j] == WILDCARD,
        0 <= lo <= hi <= text.len(),
        matches_from(pattern, text, j, hi),
    ensures
        matches_from(pattern, text, j, lo),
    decreases hi - lo,
{
    if lo < hi {
        lemma_wildcard_absorbs(pattern, text, j, lo + 1, hi);
        lemma_matches_from_step(pattern, text, j, lo);
    }
}

/// A wildcard that matches from `i` on hands over to the rest of the pattern at some
/// position at or after `i`.
pub proof fn lemma_wildcard_hands_over(pattern: Seq<char>, text: Seq<char>, j: int, i: int) -> (k:
    int)
    requires
        0 <= j < pattern.len(),
        pattern[j] == WILDCARD,
        0 <= i <= text.len(),
        matches_from(pattern, text, j, i),
    ensures
        i <= k <= text.len(),
        matches_from(pattern, text, j + 1, k),
    decreases text.len() - i,
{
    lemma_matches_from_step(pattern, text, j, i);
    if matches_from(pattern, text, j + 1, i) {
        i
    } else {
        lemma_wildcard_hands_over(pattern, text, j, i + 1)
    }
}

/// A stretch of the pattern without wildcards takes up exactly as many characters as
/// it is long.
pub proof fn lemma_literal_run(pattern: Seq<char>, text: Seq<char>, a: int, b: int, k: int)
    requires
        0 <= a <= b <= pattern.len(),
        0 <= k <= text.len(),
        forall|x: int| a <= x < b ==> pattern[x] != WILDCARD,
        matches_from(pattern, text, a, k),
    ensures
        k + (b - a) <= text.len(),
        matches_from(pattern, text, b, k + (b - a)),
    decreases b - a,
{
    if a < b {
        lemma_matches_from_step(pattern, text, a, k);
        lemma_literal_run(pattern, text, a + 1, b, k + 1);
    }
}

/// The pattern that is one wildcard matches every text.
pub proof fn wildcard_matches_everything(text: Seq<char>)
    ensures
        glob_matches(seq![WILDCARD], text),
    decreases text.len(),
{
    let pattern = seq![WILDCARD];
    assert(pattern.len() == 1 && pattern[0] == WILDCARD);
    if text.len() == 0 {
        assert(pattern.drop_first().len() == 0);
        assert(glob_matches(pattern.drop_first(), text));
    } else {
        wildcard_matches_everything(text.drop_first());
    }
}

/// A pattern without a wildcard matches itself and nothing else.
pub proof fn literal_matches_itself_only(pattern: Seq<char>, text: Seq<char>)
    requires
        forall|k: int| 0 <= k < pattern.len() ==> pattern[k] != WILDCARD,
    ensures
        glob_matches(pattern, text) == (pattern == text),
    decreases pattern.len(),
{
    if pattern.len() == 0 {
        assert(text.len() == 0 ==> pattern =~= text);
    } else if text.len() > 0 && text[0] == pattern[0] {
        let pattern_tail = pattern.drop_first();
        let text_tail = text.drop_first();
        assert forall|k: int| 0 <= k < pattern_tail.len() implies pattern_tail[k] != WILDCARD by {
            assert(pattern_tail[k] == pattern[k + 1]);
        }
        literal_matches_itself_only(pattern_tail, text_tail);
        if pattern_tail == text_tail {
            assert forall|k: int| 0 <= k < pattern.len() implies pattern[k] == text[k] by {
                if k > 0 {
                    assert(pattern[k] == pattern_tail[k - 1]);
                    assert(text[k] == text_tail[k - 1]);
                }
            }
            assert(pattern =~= text);
        }
    }
}

/// The empty pattern matches the empty text and nothing else.
pub proof fn empty_pattern_matches_empty_only(text: Seq<char>)
    ensures
        glob_matches(Seq::<char>::empty(), text) == (text.len() == 0),
{
}

/// Matches can be put end to end: where one pattern matches one text and another
/// pattern another text, the two patterns in a row match the two texts in a row.
pub proof fn matches_join(
    first_pattern: Seq<char>,
    first_text: Seq<char>,
    second_pattern: Seq<char>,
    second_text: Seq<char>,
)
    requires
        glob_matches(first_pattern, first_text),
        glob_matches(second_pattern, second_text),
    ensures
        glob_matches(first_pattern + second_pattern, first_text + second_text),
    decreases first_pattern.len(), first_text.len(),
{
    let pattern = first_pattern + second_pattern;
    let text = first_text + second_text;
    if first_pattern.len() == 0 {
        assert(pattern =~= second_pattern);
        assert(text =~= second_text);
    } else {
        assert(pattern.drop_first() =~= first_pattern.drop_first() + second_pattern);
        if first_text.len() > 0 {
            assert(text.drop_first() =~= first_text.drop_first() + second_text);
        }
        if first_pattern[0] == WILDCARD {
            if glob_matches(first_pattern.drop_first(), first_text) {
                matches_join(first_pattern.drop_first(), first_text, second_pattern, second_text);
            } else {
                matches_join(first_pattern, first_text.drop_first(), second_pattern, second_text);
            }
        } else {
            matches_join(
                first_pattern.drop_first(),
                first_text.drop_first(),
                second_pattern,
                second_text,
            );
        }
    }
}

/// Decides `glob_matches` in one pass over the text, going back to the last wildcard
/// seen whenever the characters after it fail to line up. Nothing is allocated.
pub fn glob_match(pattern: &[char], text: &[char]) -> (matched: bool)
    ensures
        matched == glob_matches(pattern@, text@),
{
    let m = pattern.len();
    let n = text.len();
    let mut i: usize = 0;
    let mut j: usize = 0;
    let mut seen_wildcard = false;
    let mut wildcard_at: usize = 0;
    let mut mark: usize = 0;
    assert(pattern@.skip(0) =~= pattern@ && text@.skip(0) =~= text@);
    while i < n
        invariant
            m == pattern@.len(),
            n == text@.len(),
            i <= n,
            j <= m,
            mark <= i,
            !seen_wildcard ==> mark == 0 && glob_matches(pattern@, text@) == matches_from(
                pattern@,
                text@,
                j as int,
                i as int,
            ),
            seen_wildcard ==> {
                &&& wildcard_at < j
                &&& pattern@[wildcard_at as int] == WILDCARD
                &&& i - mark == j - wildcard_at - 1
                &&& forall|x: int| wildcard_at < x < j ==> pattern@[x] != WILDCARD
                &&& glob_matches(pattern@, text@) == matches_from(
                    pattern@,
                    text@,
                    wildcard_at as int,
                    mark as int,
                )
                &&& matches_from(pattern@, text@, wildcard_at + 1, mark as int) == matches_from(
                    pattern@,
                    text@,
                    j as int,
                    i as int,
                )
            },
        decreases n - mark, n - i, m - j,
    {
        proof {
            lemma_matches_from_step(pattern@, text@, j as int, i as int);
        }
        if j < m && pattern[j] == WILDCARD {
            proof {
                if seen_wildcard {
                    lemma_matches_from_step(pattern@, text@, wildcard_at as int, mark as int);
                    if mark < n && matches_from(pattern@, text@, wildcard_at as int, mark + 1) {
                        let k = lemma_wildcard_hands_over(
                            pattern@,
                            text@,
                            wildcard_at as int,
                            mark + 1,
                        );
                        lemma_literal_run(pattern@, text@, wildcard_at + 1, j as int, k);
                        lemma_wildcard_absorbs(
                            pattern@,
                            text@,
                            j as int,
                            i as int,
                            k + (j - wildcard_at - 1),
                        );
                    }
                }
            }
            seen_wildcard = true;
            wildcard_at = j;
            mark = i;
            j = j + 1;
        } else if j < m && pattern[j] == text[i] {
            i = i + 1;
            j = j + 1;
        } else if seen_wildcard {
            proof {
                lemma_matches_from_step(pattern@, text@, wildcard_at as int, mark as int);
            }
            mark = mark + 1;
            i = mark;
            j = wildcard_at + 1;
        } else {
            return false;
        }
    }
    proof {
        if seen_wildcard {
            lemma_matches_from_step(pattern@, text@, wildcard_at as int, mark as int);
            if mark < n && matches_from(pattern@, text@, wildcard_at as int, mark + 1) {
                let k = lemma_wildcard_hands_over(pattern@, text@, wildcard_at as int, mark + 1);
                lemma_literal_run(pattern@, text@, wildcard_at + 1, j as int, k);
            }
        }
    }
    while j < m && pattern[j] == WILDCARD
        invariant
            m == pattern@.len(),
            n == text@.len(),
            i == n,
            j <= m,
            glob_matches(pattern@, text@) == matches_from(pattern@, text@, j as int, i as int),
        decreases m - j,
    {
        proof {
            lemma_matches_from_step(pattern@, text@, j as int, i as int);
        }
        j = j + 1;
    }
    proof {
        lemma_matches_from_step(pattern@, text@, j as int, i as int);
    }
    j == m
}

} // verus!
