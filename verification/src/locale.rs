//! Which of the languages that have a catalogue the user reads.

use vstd::prelude::*;

verus! {

/// The languages that have a catalogue.
#[derive(Debug, Clone, Copy, PartialEq, Eq, Structural)]
pub enum SupportedLocale {
    /// English, as in the United States.
    EnUs,
    /// Burmese, as in Myanmar.
    MyMm,
}

/// Whether a character is `expected`, a small letter, in either case.
pub open spec fn is_letter(c: char, expected: char) -> bool {
    c == expected || (c as u32) + 32 == (expected as u32)
}

/// The language that a name of a locale stands for, whatever the case
/// of the name: Burmese for `my` and for names that begin with `my-`,
/// English for every other name.
pub open spec fn locale_of_name(name: Seq<char>) -> SupportedLocale {
    if name.len() >= 2 && is_letter(name[0], 'm') && is_letter(name[1], 'y') && (name.len() == 2
        || name[2] == '-') {
        SupportedLocale::MyMm
    } else {
        SupportedLocale::EnUs
    }
}

/// Where the first dot of a text stands, or the length of a text
/// without a dot.
pub open spec fn first_dot(text: Seq<char>) -> int
    decreases text.len(),
{
    if text.len() == 0 || text[0] == '.' {
        0
    } else {
        1 + first_dot(text.drop_first())
    }
}

/// The name of the locale in a value of `LANG`, such as
/// `en_US.UTF-8`: what stands before the first dot, with `-` for `_`.
pub open spec fn lang_name(lang: Seq<char>) -> Seq<char> {
    lang.take(first_dot(lang)).map_values(
        |c: char|
            if c == '_' {
                '-'
            } else {
                c
            },
    )
}

/// The first dot stands within the text; no dot stands before it.
pub proof fn lemma_first_dot(text: Seq<char>, seen: int)
    requires
        0 <= seen <= text.len(),
        forall|i: int| 0 <= i < seen ==> text[i] != '.',
        seen == text.len() || text[seen] == '.',
    ensures
        first_dot(text) == seen,
    decreases seen,
{
    if seen > 0 {
        let rest = text.drop_first();
        assert forall|i: int| 0 <= i < seen - 1 implies rest[i] != '.' by {
            assert(rest[i] == text[i + 1]);
        }
        lemma_first_dot(rest, seen - 1);
    }
}

/// Tells whether a character is `expected`, a small letter, in either
/// case.
fn letter(c: char, expected: char) -> (result: bool)
    requires
        'a' <= expected <= 'z',
    ensures
        result == is_letter(c, expected),
{
    c == expected || (c as u32) + 32 == (expected as u32)
}

/// The language that a name of a locale stands for.
pub fn locale_from_name(name: &str) -> (locale: SupportedLocale)
    ensures
        locale == locale_of_name(name@),
{
    let n = name.unicode_len();
    if n >= 2 && letter(name.get_char(0), 'm') && letter(name.get_char(1), 'y') && (n == 2
        || name.get_char(2) == '-') {
        SupportedLocale::MyMm
    } else {
        SupportedLocale::EnUs
    }
}

/// The language that a value of `LANG` stands for.
pub fn locale_from_lang(lang: &str) -> (locale: SupportedLocale)
    ensures
        locale == locale_of_name(lang_name(lang@)),
{
    let n = lang.unicode_len();
    let mut dot: usize = 0;
    while dot < n && lang.get_char(dot) != '.'
        invariant
            n == lang@.len(),
            dot <= n,
            forall|i: int| 0 <= i < dot ==> lang@[i] != '.',
        decreases n - dot,
    {
        dot += 1;
    }
    proof {
        lemma_first_dot(lang@, dot as int);
    }
    if dot >= 2 && letter(lang.get_char(0), 'm') && letter(lang.get_char(1), 'y') && (dot == 2
        || lang.get_char(2) == '-' || lang.get_char(2) == '_') {
        SupportedLocale::MyMm
    } else {
        SupportedLocale::EnUs
    }
}

/// The language of the user: that of `LANG` where it is set, else that
/// of the system where it is known, else English.
pub fn get_os_locale(lang: &Option<String>, system: &Option<String>) -> (locale: SupportedLocale)
    ensures
        locale == match (*lang, *system) {
            (Some(lang), _) => locale_of_name(lang_name(lang@)),
            (None, Some(system)) => locale_of_name(system@),
            (None, None) => SupportedLocale::EnUs,
        },
{
    match lang {
        Some(lang) => locale_from_lang(lang.as_str()),
        None => match system {
            Some(system) => locale_from_name(system.as_str()),
            None => SupportedLocale::EnUs,
        },
    }
}

} // verus!
