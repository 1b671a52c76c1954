//! What holds of the snake form and the pascal form for every name.

use vstd::prelude::*;
use crate::ident::{
    ends_in_word, lemma_forms_empty, lemma_forms_step, lemma_words_step, pascal_form, segments,
    snake_form, snake_words,
};
use crate::text::{
    capitalized, is_digit, is_lower, is_word_char, lemma_case_mapping, lower, lowered, upper,
};

verus! {

/// The words of a snake form are the lowered words of the name, and a snake
/// form that is not empty ends in a word character.
pub proof fn lemma_words_of_snake_form(s: Seq<char>)
    ensures
        segments(snake_form(s)) == snake_words(s),
        segments(s).len() > 0 ==> ends_in_word(snake_form(s)),
    decreases s.len(),
{
    if s.len() > 0 {
        let p = s.drop_last();
        let c = s.last();
        let f = snake_form(p);
        lemma_words_of_snake_form(p);
        lemma_forms_step(s);
        lemma_words_step(s);
        lemma_forms_empty(p);
        lemma_case_mapping(c);
        if is_word_char(c) {
            if ends_in_word(p) {
                // the last word goes on
                assert(f.push(lower(c)).drop_last() == f);
            } else if f.len() == 0 {
                // the first word begins
                assert(seq![lower(c)].drop_last() == Seq::<char>::empty());
            } else {
                // a later word begins behind an underscore
                let m = f.push('_');
                assert(m.drop_last() == f);
                assert(m.push(lower(c)).drop_last() == m);
                assert(segments(m) == segments(f));
            }
        }
    }
}

/// Taking the snake form twice gives what taking it once gives.
pub proof fn law_snake_form_idempotent(s: Seq<char>)
    ensures
        snake_form(snake_form(s)) == snake_form(s),
{
    lemma_words_of_snake_form(s);
    let once = snake_words(s);
    let twice = snake_words(snake_form(s));
    assert forall|i: int| 0 <= i < once.len() implies twice[i] == once[i] by {
        let w = segments(s)[i];
        assert forall|j: int| 0 <= j < w.len() implies lower(lower(w[j])) == lower(w[j]) by {
            lemma_case_mapping(w[j]);
        }
    }
    assert(twice == once);
}

/// Two names of one length that agree wherever either holds a word
/// character, and hold separators (of whatever kind) elsewhere.
pub open spec fn same_but_for_separators(a: Seq<char>, b: Seq<char>) -> bool {
    &&& a.len() == b.len()
    &&& forall|i: int|
        0 <= i < a.len() ==> if is_word_char(#[trigger] a[i]) {
            b[i] == a[i]
        } else {
            !is_word_char(b[i])
        }
}

/// Names that differ only in which separator characters they use have the
/// same words, and so the same snake form and the same pascal form.
pub proof fn law_separator_style_is_ignored(a: Seq<char>, b: Seq<char>)
    requires
        same_but_for_separators(a, b),
    ensures
        segments(a) == segments(b),
        snake_form(a) == snake_form(b),
        pascal_form(a) == pascal_form(b),
    decreases a.len(),
{
    if a.len() > 0 {
        let pa = a.drop_last();
        let pb = b.drop_last();
        assert forall|i: int| 0 <= i < pa.len() implies if is_word_char(#[trigger] pa[i]) {
            pb[i] == pa[i]
        } else {
            !is_word_char(pb[i])
        } by {}
        law_separator_style_is_ignored(pa, pb);
        if a.len() >= 2 {
            assert(is_word_char(a[a.len() - 2]) == is_word_char(b[b.len() - 2]));
        }
    }
}

/// Names with the same words have the same snake form and the same pascal
/// form, however their words are separated.
pub proof fn law_forms_depend_on_words_only(a: Seq<char>, b: Seq<char>)
    requires
        segments(a) == segments(b),
    ensures
        snake_form(a) == snake_form(b),
        pascal_form(a) == pascal_form(b),
{
}

/// A text of word characters only is one word.
pub proof fn lemma_one_word(t: Seq<char>)
    requires
        t.len() > 0,
        forall|j: int| 0 <= j < t.len() ==> is_word_char(#[trigger] t[j]),
    ensures
        segments(t) == seq![t],
    decreases t.len(),
{
    let q = t.drop_last();
    if q.len() == 0 {
        assert(seq![t.last()] == t);
        assert(segments(q) == Seq::<Seq<char>>::empty());
    } else {
        assert forall|j: int| 0 <= j < q.len() implies is_word_char(#[trigger] q[j]) by {}
        lemma_one_word(q);
        assert(q.push(t.last()) == t);
    }
}

/// The characters of a snake form are lower-case letters, digits and
/// underscores; those of a pascal form are letters and digits.
pub proof fn lemma_form_characters(s: Seq<char>)
    ensures
        forall|j: int|
            0 <= j < snake_form(s).len() ==> {
                let c = #[trigger] snake_form(s)[j];
                is_lower(c) || is_digit(c) || c == '_'
            },
        forall|j: int| 0 <= j < pascal_form(s).len() ==> is_word_char(#[trigger] pascal_form(s)[j]),
    decreases s.len(),
{
    if s.len() > 0 {
        lemma_form_characters(s.drop_last());
        lemma_forms_step(s);
        lemma_case_mapping(s.last());
    }
}

/// Every word of the name after its first begins with a digit.
pub open spec fn later_words_begin_with_digits(s: Seq<char>) -> bool {
    forall|i: int| 1 <= i < segments(s).len() ==> is_digit(#[trigger] segments(s)[i][0])
}

/// How `later_words_begin_with_digits` changes when one character is added
/// at the end of a name.
proof fn lemma_later_words_step(s: Seq<char>)
    requires
        s.len() > 0,
    ensures
        ({
            let p = s.drop_last();
            let c = s.last();
            if !is_word_char(c) || ends_in_word(p) {
                later_words_begin_with_digits(s) == later_words_begin_with_digits(p)
            } else {
                later_words_begin_with_digits(s) == (later_words_begin_with_digits(p) && (segments(
                    p,
                ).len() > 0 ==> is_digit(c)))
            }
        }),
{
    let p = s.drop_last();
    let c = s.last();
    let before = segments(p);
    let after = segments(s);
    if !is_word_char(c) {
        // the words are those of `p`
    } else if ends_in_word(p) {
        // the last word goes on, and begins as it began
        if later_words_begin_with_digits(s) {
            assert forall|i: int| 1 <= i < before.len() implies is_digit(
                #[trigger] before[i][0],
            ) by {
                assert(is_digit(after[i][0]));
            }
        }
    } else {
        // one more word, which begins with `c`
        if later_words_begin_with_digits(s) {
            assert forall|i: int| 1 <= i < before.len() implies is_digit(
                #[trigger] before[i][0],
            ) by {
                assert(after[i] == before[i]);
            }
            if before.len() > 0 {
                assert(after[before.len() as int][0] == c);
            }
        }
    }
}

/// Capitalising a pascal form leaves it as it is exactly where every word
/// of the name after its first begins with a digit.
proof fn lemma_pascal_form_capitalized(s: Seq<char>)
    ensures
        capitalized(pascal_form(s)) == pascal_form(s) <==> later_words_begin_with_digits(s),
    decreases s.len(),
{
    if s.len() == 0 {
        assert(capitalized(pascal_form(s)) == pascal_form(s));
    } else {
        let p = s.drop_last();
        let c = s.last();
        let x = pascal_form(p);
        let y = pascal_form(s);
        lemma_pascal_form_capitalized(p);
        lemma_later_words_step(s);
        lemma_forms_step(s);
        lemma_forms_empty(p);
        if is_word_char(c) {
            // the character that the pascal form grows by
            let d = if ends_in_word(p) {
                lower(c)
            } else {
                upper(lower(c))
            };
            assert(y.drop_last() == x);
            if x.len() == 0 {
                assert(capitalized(y) == y);
            } else {
                assert(capitalized(y) == capitalized(x).push(lower(d)));
                assert(capitalized(y).drop_last() == capitalized(x));
                assert(capitalized(y).last() == lower(d));
            }
        }
    }
}

/// The pascal form of a pascal form is its capitalisation.
proof fn lemma_pascal_form_twice(s: Seq<char>)
    ensures
        pascal_form(pascal_form(s)) == capitalized(pascal_form(s)),
{
    let once = pascal_form(s);
    lemma_form_characters(s);
    if once.len() > 0 {
        lemma_one_word(once);
    }
}

/// Taking the pascal form twice gives what taking it once gives, for every
/// name whose words after the first begin with a digit.
pub proof fn law_pascal_form_idempotent(s: Seq<char>)
    requires
        later_words_begin_with_digits(s),
    ensures
        pascal_form(pascal_form(s)) == pascal_form(s),
{
    lemma_pascal_form_twice(s);
    lemma_pascal_form_capitalized(s);
}

/// For any other name the second pascal form differs from the first: it
/// lowers the capital with which a later word began.
pub proof fn law_pascal_form_lowers_later_capitals(s: Seq<char>)
    requires
        !later_words_begin_with_digits(s),
    ensures
        pascal_form(pascal_form(s)) != pascal_form(s),
{
    lemma_pascal_form_twice(s);
    lemma_pascal_form_capitalized(s);
}

/// What stands between the words of a name: the run of separators before
/// the first word, between each two words, and behind the last.
pub open spec fn gaps(s: Seq<char>) -> Seq<Seq<char>>
    decreases s.len(),
{
    if s.len() == 0 {
        seq![Seq::empty()]
    } else {
        let before = gaps(s.drop_last());
        let c = s.last();
        if !is_word_char(c) {
            before.drop_last().push(before.last().push(c))
        } else if ends_in_word(s.drop_last()) {
            before
        } else {
            before.push(Seq::empty())
        }
    }
}

/// The text made of gaps and words in turn, beginning and ending with a
/// gap.
pub open spec fn interleaved(between: Seq<Seq<char>>, words: Seq<Seq<char>>) -> Seq<char>
    decreases words.len(),
{
    if words.len() == 0 || between.len() != words.len() + 1 {
        between[0]
    } else {
        interleaved(between.drop_last(), words.drop_last()) + words.last() + between.last()
    }
}

/// A name is its words with runs of separators between them, and in one
/// way only: the words are not empty and hold word characters only, what
/// stands between them holds separators only, and two words are never
/// adjacent.
pub proof fn law_name_is_words_between_separators(s: Seq<char>)
    ensures
        gaps(s).len() == segments(s).len() + 1,
        interleaved(gaps(s), segments(s)) == s,
        forall|i: int, j: int|
            0 <= i < gaps(s).len() && 0 <= j < gaps(s)[i].len() ==> !is_word_char(
                #[trigger] gaps(s)[i][j],
            ),
        forall|i: int| 0 < i < segments(s).len() ==> (#[trigger] gaps(s)[i]).len() > 0,
        forall|i: int| 0 <= i < segments(s).len() ==> (#[trigger] segments(s)[i]).len() > 0,
        forall|i: int, j: int|
            0 <= i < segments(s).len() && 0 <= j < segments(s)[i].len() ==> is_word_char(
                #[trigger] segments(s)[i][j],
            ),
        gaps(s).last().len() == 0 <==> s.len() == 0 || ends_in_word(s),
    decreases s.len(),
{
    if s.len() > 0 {
        let p = s.drop_last();
        let c = s.last();
        let g = gaps(p);
        let w = segments(p);
        law_name_is_words_between_separators(p);
        assert(p.push(c) == s);
        if !is_word_char(c) {
            let g2 = g.drop_last().push(g.last().push(c));
            assert(g2.drop_last() == g.drop_last());
        } else if ends_in_word(p) {
            let w2 = w.drop_last().push(w.last().push(c));
            assert(w2.drop_last() == w.drop_last());
        } else {
            let w2 = w.push(seq![c]);
            let g2 = g.push(Seq::<char>::empty());
            assert(w2.drop_last() == w);
            assert(g2.drop_last() == g);
        }
    }
}

} // verus!
