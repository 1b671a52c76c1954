//! Identifier normalisation: from a free-form name to its snake form and its
//! pascal form.
//!
//! A name is cut into words at every run of characters that are neither
//! ASCII letters nor digits. The snake form joins the lowered words with one
//! underscore; the pascal form concatenates the capitalised words.

use vstd::prelude::*;
use crate::text::{capitalized, is_word_char, lower, lowered, to_lower, to_upper, upper, word_char};

verus! {

broadcast use vstd::string::axiom_spec_iter;

/// The words of a name: its maximal runs of word characters, in order.
pub open spec fn segments(s: Seq<char>) -> Seq<Seq<char>>
    decreases s.len(),
{
    if s.len() == 0 {
        Seq::empty()
    } else {
        let before = segments(s.drop_last());
        let c = s.last();
        if !is_word_char(c) {
            before
        } else if s.len() >= 2 && is_word_char(s[s.len() - 2]) {
            before.drop_last().push(before.last().push(c))
        } else {
            before.push(seq![c])
        }
    }
}

/// The words one after another, with `sep` between each two of them.
pub open spec fn joined(words: Seq<Seq<char>>, sep: Seq<char>) -> Seq<char>
    decreases words.len(),
{
    if words.len() == 0 {
        Seq::empty()
    } else if words.len() == 1 {
        words[0]
    } else {
        joined(words.drop_last(), sep) + sep + words.last()
    }
}

/// The words of a name, each in lower case.
pub open spec fn snake_words(s: Seq<char>) -> Seq<Seq<char>> {
    Seq::new(segments(s).len(), |i: int| lowered(segments(s)[i]))
}

/// The words of a name, each capitalised.
pub open spec fn pascal_words(s: Seq<char>) -> Seq<Seq<char>> {
    Seq::new(segments(s).len(), |i: int| capitalized(segments(s)[i]))
}

/// The snake form of a name: its lowered words joined by one underscore.
pub open spec fn snake_form(s: Seq<char>) -> Seq<char> {
    joined(snake_words(s), seq!['_'])
}

/// The pascal form of a name: its capitalised words with nothing between.
pub open spec fn pascal_form(s: Seq<char>) -> Seq<char> {
    joined(pascal_words(s), Seq::empty())
}

/// Whether the last character of `s` is a word character.
pub open spec fn ends_in_word(s: Seq<char>) -> bool {
    s.len() > 0 && is_word_char(s.last())
}

/// Every word is non-empty and made of word characters only, and a name
/// that ends in a word character has a last word that ends with it.
pub proof fn lemma_segments_shape(s: Seq<char>)
    ensures
        forall|i: int|
            0 <= i < segments(s).len() ==> (#[trigger] segments(s)[i]).len() > 0,
        forall|i: int, j: int|
            0 <= i < segments(s).len() && 0 <= j < segments(s)[i].len() ==> is_word_char(
                #[trigger] segments(s)[i][j],
            ),
        ends_in_word(s) ==> segments(s).len() > 0 && segments(s).last().last() == s.last(),
    decreases s.len(),
{
    if s.len() > 0 {
        let p = s.drop_last();
        let before = segments(p);
        lemma_segments_shape(p);
    }
}

/// Joining after one more word: the word follows the separator, unless it
/// is the first.
pub proof fn lemma_joined_push(words: Seq<Seq<char>>, w: Seq<char>, sep: Seq<char>)
    ensures
        joined(words.push(w), sep) == if words.len() == 0 {
            w
        } else {
            joined(words, sep) + sep + w
        },
{
    assert(words.push(w).drop_last() == words);
}

/// Joining after the last word has grown by one character: the joined text
/// grows by that character.
pub proof fn lemma_joined_grow(words: Seq<Seq<char>>, c: char, sep: Seq<char>)
    requires
        words.len() > 0,
    ensures
        joined(words.drop_last().push(words.last().push(c)), sep) == joined(words, sep).push(c),
{
    let front = words.drop_last();
    let grown = words.last().push(c);
    lemma_joined_push(front, grown, sep);
}

/// How the words of a name change when one character is added at its end.
pub proof fn lemma_words_step(s: Seq<char>)
    requires
        s.len() > 0,
    ensures
        ({
            let p = s.drop_last();
            let c = s.last();
            if !is_word_char(c) {
                &&& snake_words(s) == snake_words(p)
                &&& pascal_words(s) == pascal_words(p)
            } else if ends_in_word(p) {
                &&& segments(p).len() > 0
                &&& snake_words(s) == snake_words(p).drop_last().push(
                    snake_words(p).last().push(lower(c)),
                )
                &&& pascal_words(s) == pascal_words(p).drop_last().push(
                    pascal_words(p).last().push(lower(c)),
                )
            } else {
                &&& snake_words(s) == snake_words(p).push(seq![lower(c)])
                &&& pascal_words(s) == pascal_words(p).push(seq![upper(lower(c))])
            }
        }),
{
    let p = s.drop_last();
    let c = s.last();
    let before = segments(p);
    if is_word_char(c) {
        if ends_in_word(p) {
            let grown = before.last().push(c);
            assert(lowered(grown) == lowered(before.last()).push(lower(c)));
            assert(capitalized(grown) == capitalized(before.last()).push(lower(c)));
        } else {
            assert(lowered(seq![c]) == seq![lower(c)]);
            assert(capitalized(seq![c]) == seq![upper(lower(c))]);
        }
    }
}

/// How the two forms of a name change when one character is added at its
/// end: a separator changes nothing; a word character goes on in lower
/// case, after an underscore (snake) or in upper case (pascal) where it
/// begins a word.
pub proof fn lemma_forms_step(s: Seq<char>)
    requires
        s.len() > 0,
    ensures
        ({
            let p = s.drop_last();
            let c = s.last();
            if !is_word_char(c) {
                &&& snake_form(s) == snake_form(p)
                &&& pascal_form(s) == pascal_form(p)
            } else if ends_in_word(p) {
                &&& snake_form(s) == snake_form(p).push(lower(c))
                &&& pascal_form(s) == pascal_form(p).push(lower(c))
            } else {
                &&& snake_form(s) == if snake_form(p).len() == 0 {
                    seq![lower(c)]
                } else {
                    snake_form(p).push('_').push(lower(c))
                }
                &&& pascal_form(s) == pascal_form(p).push(upper(lower(c)))
            }
        }),
        snake_form(s).len() == 0 <==> segments(s).len() == 0,
        pascal_form(s).len() == 0 <==> segments(s).len() == 0,
{
    let p = s.drop_last();
    let c = s.last();
    let us = seq!['_'];
    let none = Seq::<char>::empty();
    lemma_words_step(s);
    lemma_forms_empty(p);
    if is_word_char(c) {
        if ends_in_word(p) {
            lemma_joined_grow(snake_words(p), lower(c), us);
            lemma_joined_grow(pascal_words(p), lower(c), none);
        } else {
            lemma_joined_push(snake_words(p), seq![lower(c)], us);
            lemma_joined_push(pascal_words(p), seq![upper(lower(c))], none);
        }
    }
}

/// A form is empty exactly where the name has no word.
pub proof fn lemma_forms_empty(s: Seq<char>)
    ensures
        snake_form(s).len() == 0 <==> segments(s).len() == 0,
        pascal_form(s).len() == 0 <==> segments(s).len() == 0,
{
    lemma_segments_shape(s);
}

/// The snake form of a name: lower case, words joined by one underscore.
pub fn to_snake_case(input: &str) -> (out: String)
    ensures
        out@ == snake_form(input@),
{
    let mut out = String::new();
    let mut in_word = false;
    for c in it: input.chars()
        invariant
            it.seq() == input@,
            out@ == snake_form(input@.take(it.index())),
            in_word == ends_in_word(input@.take(it.index())),
    {
        proof {
            let s = input@.take(it.index() + 1);
            assert(s.drop_last() == input@.take(it.index()));
            lemma_forms_step(s);
        }
        if word_char(c) {
            if !in_word && !out.as_str().is_empty() {
                out.push('_');
            }
            out.push(to_lower(c));
            in_word = true;
        } else {
            in_word = false;
        }
    }
    assert(input@.take(input@.len() as int) == input@);
    out
}

/// The pascal form of a name: each word capitalised, nothing between them.
pub fn to_camel_case(input: &str) -> (out: String)
    ensures
        out@ == pascal_form(input@),
{
    let mut out = String::new();
    let mut in_word = false;
    for c in it: input.chars()
        invariant
            it.seq() == input@,
            out@ == pascal_form(input@.take(it.index())),
            in_word == ends_in_word(input@.take(it.index())),
    {
        proof {
            let s = input@.take(it.index() + 1);
            assert(s.drop_last() == input@.take(it.index()));
            lemma_forms_step(s);
        }
        if word_char(c) {
            if in_word {
                out.push(to_lower(c));
            } else {
                out.push(to_upper(to_lower(c)));
            }
            in_word = true;
        } else {
            in_word = false;
        }
    }
    assert(input@.take(input@.len() as int) == input@);
    out
}

} // verus!
