//! Whitespace handling for raw table cells.
//!
//! Cells arrive exactly as they stand in the table. Everything that ends up in
//! a document, apart from the title, is trimmed first, and a cell that is
//! empty after trimming counts as absent.

use vstd::prelude::*;

verus! {

/// Whether `c` counts as whitespace for trimming: the answer that
/// `char::is_whitespace` gives for it (the Unicode `White_Space` property).
pub uninterp spec fn is_white_space(c: char) -> bool;

/// `s` without its leading whitespace characters.
pub open spec fn skip_leading(s: Seq<char>) -> Seq<char>
    decreases s.len(),
{
    if s.len() > 0 && is_white_space(s.first()) {
        skip_leading(s.drop_first())
    } else {
        s
    }
}

/// `s` without its trailing whitespace characters.
pub open spec fn skip_trailing(s: Seq<char>) -> Seq<char>
    decreases s.len(),
{
    if s.len() > 0 && is_white_space(s.last()) {
        skip_trailing(s.drop_last())
    } else {
        s
    }
}

/// `s` with surrounding whitespace removed; whitespace inside stays.
pub open spec fn trimmed(s: Seq<char>) -> Seq<char> {
    skip_trailing(skip_leading(s))
}

/// A text is blank when it is empty or holds whitespace only.
pub open spec fn is_blank(s: Seq<char>) -> bool {
    forall|i: int| 0 <= i < s.len() ==> is_white_space(#[trigger] s[i])
}

/// Calls `str::trim`. The standard library documents the result as the input
/// with leading and trailing whitespace removed, whitespace being what
/// `char::is_whitespace` accepts. The contract says that and nothing more:
/// the first clause gives the result, and the second, that neither end of
/// what is left is whitespace, follows from it (`lemma_trimmed_is_middle`).
#[verifier::external_body]
fn trim_str(s: &str) -> (t: &str)
    ensures
        t@ == trimmed(s@),
        t@.len() > 0 ==> !is_white_space(t@.first()) && !is_white_space(t@.last()),
{
    s.trim()
}

/// The cell's text with surrounding whitespace removed.
pub fn trim_text(s: &str) -> (t: String)
    ensures
        t@ == trimmed(s@),
{
    trim_str(s).to_owned()
}

/// What is left after skipping leading whitespace is the end of the text,
/// only whitespace stands before it, and unless it is empty it starts with a
/// character that is no whitespace.
pub proof fn lemma_skip_leading(s: Seq<char>)
    ensures
        skip_leading(s).len() <= s.len(),
        skip_leading(s) == s.skip(s.len() - skip_leading(s).len()),
        is_blank(s.take(s.len() - skip_leading(s).len())),
        skip_leading(s).len() > 0 ==> !is_white_space(skip_leading(s).first()),
    decreases s.len(),
{
    if s.len() > 0 && is_white_space(s.first()) {
        let rest = s.drop_first();
        lemma_skip_leading(rest);
        let k = s.len() - skip_leading(s).len();
        assert(rest.skip(k - 1) =~= s.skip(k));
        assert forall|i: int| 0 <= i < s.take(k).len() implies is_white_space(
            #[trigger] s.take(k)[i],
        ) by {
            if i > 0 {
                assert(s.take(k)[i] == rest.take(k - 1)[i - 1]);
            }
        }
    } else {
        assert(s.skip(0) =~= s);
    }
}

/// What is left after skipping trailing whitespace is the start of the text,
/// only whitespace stands behind it, and unless it is empty it ends with a
/// character that is no whitespace.
pub proof fn lemma_skip_trailing(s: Seq<char>)
    ensures
        skip_trailing(s).len() <= s.len(),
        skip_trailing(s) == s.take(skip_trailing(s).len() as int),
        is_blank(s.skip(skip_trailing(s).len() as int)),
        skip_trailing(s).len() > 0 ==> !is_white_space(skip_trailing(s).last()),
    decreases s.len(),
{
    if s.len() > 0 && is_white_space(s.last()) {
        let rest = s.drop_last();
        lemma_skip_trailing(rest);
        let k = skip_trailing(s).len() as int;
        assert(rest.take(k) =~= s.take(k));
        assert forall|i: int| 0 <= i < s.skip(k).len() implies is_white_space(
            #[trigger] s.skip(k)[i],
        ) by {
            if k + i < rest.len() {
                assert(s.skip(k)[i] == rest.skip(k)[i]);
            }
        }
    } else {
        assert(s.take(s.len() as int) =~= s);
    }
}

/// Trimming takes whitespace from the two ends and nothing else: the result
/// is a stretch of the text with only whitespace before and after it, and
/// unless it is empty it starts and ends with a character that is no
/// whitespace.
pub proof fn lemma_trimmed_is_middle(s: Seq<char>)
    ensures
        exists|from: int, to: int|
            0 <= from <= to <= s.len() && #[trigger] s.subrange(from, to) == trimmed(s)
                && is_blank(s.take(from)) && is_blank(s.skip(to)),
        trimmed(s).len() > 0 ==> !is_white_space(trimmed(s).first()) && !is_white_space(
            trimmed(s).last(),
        ),
{
    let tail = skip_leading(s);
    lemma_skip_leading(s);
    lemma_skip_trailing(tail);
    let from = s.len() - tail.len();
    let to = from + trimmed(s).len();
    assert(s.subrange(from, to) =~= trimmed(s));
    assert forall|i: int| 0 <= i < s.skip(to).len() implies is_white_space(
        #[trigger] s.skip(to)[i],
    ) by {
        assert(s.skip(to)[i] == tail.skip(trimmed(s).len() as int)[i]);
    }
    if trimmed(s).len() > 0 {
        assert(trimmed(s).first() == tail.first());
    }
}

/// Trimming leaves nothing exactly of the blank texts.
pub proof fn lemma_trimmed_empty_iff_blank(s: Seq<char>)
    ensures
        trimmed(s).len() == 0 <==> is_blank(s),
{
    lemma_trimmed_is_middle(s);
    let (from, to) = choose|from: int, to: int|
        0 <= from <= to <= s.len() && #[trigger] s.subrange(from, to) == trimmed(s) && is_blank(
            s.take(from),
        ) && is_blank(s.skip(to));
    if trimmed(s).len() == 0 {
        assert forall|i: int| 0 <= i < s.len() implies is_white_space(#[trigger] s[i]) by {
            if i < from {
                assert(s[i] == s.take(from)[i]);
            } else {
                assert(s[i] == s.skip(to)[i - to]);
            }
        }
    } else {
        assert(trimmed(s).first() == s[from]);
    }
}

} // verus!
