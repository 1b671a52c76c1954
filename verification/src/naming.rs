//! From normalised names to identifiers that can be emitted: the choice of
//! how words are found, the guard against empty names and leading digits,
//! and positional names.

use vstd::prelude::*;
use crate::ident::{snake_form, to_snake_case};
use crate::ident_laws::lemma_form_characters;
use crate::text::{digit_char, is_digit, is_word_char, word_char};

verus! {

broadcast use vstd::string::axiom_spec_iter;

/// How a name is cut into words for its snake form.
#[derive(Clone, Copy, Debug, PartialEq, Eq, Structural)]
pub enum WordRule {
    /// At runs of characters that are neither ASCII letters nor digits.
    Separators,
    /// At non-alphanumeric characters and also where the letter case
    /// changes inside a word, as the `heck` crate finds words.
    CaseAware,
}

/// What `heck` gives as the snake case of a text.
pub uninterp spec fn heck_snake_case(name: Seq<char>) -> Seq<char>;

/// Calls `heck::ToSnakeCase::to_snake_case` on the text. The conversion
/// reads nothing but its argument, so the result is that of the name
/// above; nothing else is claimed of it.
#[verifier::external_body]
fn case_aware_snake(name: &str) -> (out: String)
    ensures
        out@ == heck_snake_case(name@),
{
    heck::ToSnakeCase::to_snake_case(name)
}

/// The snake form of a name under a word rule, before any guard.
pub open spec fn raw_snake(rule: WordRule, name: Seq<char>) -> Seq<char> {
    match rule {
        WordRule::Separators => snake_form(name),
        WordRule::CaseAware => heck_snake_case(name),
    }
}

/// The snake form of a name under a word rule, before any guard.
pub fn snake_name(rule: WordRule, name: &str) -> (out: String)
    ensures
        out@ == raw_snake(rule, name@),
{
    match rule {
        WordRule::Separators => to_snake_case(name),
        WordRule::CaseAware => case_aware_snake(name),
    }
}

/// The letter put before a name that would begin with a digit.
pub const DIGIT_GUARD: char = 'n';

/// The identifier for a normalised name: none for the empty name; the name
/// behind the guard letter where it begins with a digit; else the name.
pub open spec fn guarded(raw: Seq<char>) -> Option<Seq<char>> {
    if raw.len() == 0 {
        None
    } else if is_digit(raw[0]) {
        Some(seq![DIGIT_GUARD] + raw)
    } else {
        Some(raw)
    }
}

/// A name that can stand as an identifier: not empty, no digit in front,
/// and only ASCII letters, digits and underscores.
pub open spec fn is_identifier(t: Seq<char>) -> bool {
    &&& t.len() > 0
    &&& !is_digit(t[0])
    &&& forall|j: int| 0 <= j < t.len() ==> is_word_char(#[trigger] t[j]) || t[j] == '_'
}

/// Guards a normalised name: `None` where it is empty, else the identifier
/// made from it.
pub fn guard_identifier(raw: String) -> (out: Option<String>)
    ensures
        out.deep_view() == guarded(raw@),
{
    if raw.as_str().is_empty() {
        None
    } else if digit_char(raw.as_str().get_char(0)) {
        let mut out = String::new();
        out.push(DIGIT_GUARD);
        out.append(raw.as_str());
        Some(out)
    } else {
        Some(raw)
    }
}

/// Whether a text can stand as an identifier.
pub fn check_identifier(name: &str) -> (ok: bool)
    ensures
        ok == is_identifier(name@),
{
    let mut seen: usize = 0;
    let mut ok = true;
    for c in it: name.chars()
        invariant
            it.seq() == name@,
            (seen == 0) == (it.index() == 0),
            ok == ((it.index() > 0 ==> !is_digit(name@[0])) && forall|j: int|
                0 <= j < it.index() ==> is_word_char(#[trigger] name@[j]) || name@[j] == '_'),
    {
        if seen == 0 {
            seen = 1;
            if digit_char(c) {
                ok = false;
            }
        }
        if !(word_char(c) || c == '_') {
            ok = false;
        }
    }
    ok && seen != 0
}

/// Under the separator rule a guarded name is an identifier, and only a
/// name without any word has none.
pub proof fn law_guarded_snake_is_identifier(name: Seq<char>)
    ensures
        guarded(snake_form(name)) is None <==> snake_form(name).len() == 0,
        guarded(snake_form(name)) matches Some(t) ==> is_identifier(t),
{
    lemma_form_characters(name);
}

} // verus!
