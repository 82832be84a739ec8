//! Capitals and small letters.

use vstd::prelude::*;
use vstd::utf8::*;
use crate::paths;
use crate::strings;

verus! {

/// The Unicode lower case of a text.
pub uninterp spec fn unicode_lowercase(text: Seq<char>) -> Seq<char>;

/// The lower case of an ASCII character.
pub open spec fn ascii_lower(c: char) -> char {
    if 'A' <= c <= 'Z' {
        (c as int + 32) as char
    } else {
        c
    }
}

/// The upper case of an ASCII character.
pub open spec fn ascii_upper(c: char) -> char {
    if 'a' <= c <= 'z' {
        (c as int - 32) as char
    } else {
        c
    }
}

/// A text with its letters A to Z in lower case.
pub open spec fn ascii_lowered(text: Seq<char>) -> Seq<char> {
    text.map_values(|c: char| ascii_lower(c))
}

/// A text with its letters a to z in upper case.
pub open spec fn ascii_uppered(text: Seq<char>) -> Seq<char> {
    text.map_values(|c: char| ascii_upper(c))
}

/// Whether two texts differ at most in the case of ASCII letters.
pub open spec fn same_but_case(a: Seq<char>, b: Seq<char>) -> bool {
    ascii_lowered(a) == ascii_lowered(b)
}

/// The lower case of a text: first of its ASCII letters, then of the others.
pub open spec fn lower_case(text: Seq<char>) -> Seq<char> {
    let lowered = ascii_lowered(text);
    if is_ascii_chars(lowered) {
        lowered
    } else {
        unicode_lowercase(lowered)
    }
}

/// Calls `str::to_lowercase`: the result is a function of the text; of a text of ASCII
/// characters it is the text with its letters A to Z in lower case.
#[verifier::external_body]
fn to_lower(text: &str) -> (lower: String)
    ensures
        lower@ == unicode_lowercase(text@),
        is_ascii_chars(text@) ==> lower@ == ascii_lowered(text@),
{
    text.to_lowercase()
}

/// The small letter of a capital.
fn small_letter(c: char) -> (letter: &'static str)
    requires
        'A' <= c <= 'Z',
    ensures
        letter@ == seq![ascii_lower(c)],
{
    let alphabet = "abcdefghijklmnopqrstuvwxyz";
    proof {
        reveal_strlit("abcdefghijklmnopqrstuvwxyz");
    }
    let i: usize = (c as u32 - 65) as usize;
    let letter = alphabet.substring_char(i, i + 1);
    assert(letter@ =~= seq![ascii_lower(c)]);
    letter
}

/// Puts the ASCII letters of a text in lower case, see [`ascii_lowered`].
pub fn to_ascii_lower(text: &str) -> (lower: String)
    ensures
        lower@ == ascii_lowered(text@),
{
    let chars = strings::chars_of(text);
    let mut lower = String::new();
    let mut start: usize = 0;
    let mut i: usize = 0;
    assert(ascii_lowered(text@.take(0)) =~= seq![]);
    while i < chars.len()
        invariant
            chars@ == text@,
            start <= i <= chars@.len(),
            lower@ + text@.subrange(start as int, i as int) == ascii_lowered(text@.take(i as int)),
        decreases chars@.len() - i,
    {
        let c = chars[i];
        assert(ascii_lowered(text@.take(i + 1)) =~= ascii_lowered(text@.take(i as int)).push(
            ascii_lower(c),
        ));
        let ghost before = lower@ + text@.subrange(start as int, i as int);
        if 'A' <= c && c <= 'Z' {
            lower.append(text.substring_char(start, i));
            lower.append(small_letter(c));
            start = i + 1;
        }
        assert(lower@ + text@.subrange(start as int, i + 1) =~= before.push(ascii_lower(c)));
        i = i + 1;
    }
    assert(text@.take(i as int) =~= text@);
    lower.append(text.substring_char(start, i));
    lower
}

/// The lower case of a text, see [`lower_case`]. The case of an ASCII letter has no influence on
/// what Unicode makes of the characters around it, so that this is the text's lower case in
/// Unicode too.
pub fn lower_case_of(text: &str) -> (lower: String)
    ensures
        lower@ == lower_case(text@),
{
    let lowered = to_ascii_lower(text);
    assert(ascii_lowered(lowered@) =~= lowered@);
    to_lower(lowered.as_str())
}

pub(crate) proof fn lemma_same_len(a: Seq<char>, b: Seq<char>)
    requires
        same_but_case(a, b),
    ensures
        a.len() == b.len(),
{
    assert(ascii_lowered(a).len() == a.len() && ascii_lowered(b).len() == b.len());
}

pub(crate) proof fn lemma_same_char(a: Seq<char>, b: Seq<char>, i: int)
    requires
        same_but_case(a, b),
        0 <= i < a.len(),
    ensures
        ascii_lower(a[i]) == ascii_lower(b[i]),
        paths::is_letter(a[i]) == paths::is_letter(b[i]),
        !paths::is_letter(a[i]) ==> a[i] == b[i],
{
    lemma_same_len(a, b);
    assert(ascii_lowered(a)[i] == ascii_lower(a[i]) && ascii_lowered(b)[i] == ascii_lower(b[i]));
}

pub(crate) proof fn lemma_same_part(a: Seq<char>, b: Seq<char>, from: int, to: int)
    requires
        same_but_case(a, b),
        0 <= from <= to <= a.len(),
    ensures
        same_but_case(a.subrange(from, to), b.subrange(from, to)),
{
    lemma_same_len(a, b);
    let part = a.subrange(from, to);
    let other = b.subrange(from, to);
    assert forall|i: int| 0 <= i < part.len() implies ascii_lowered(part)[i] == ascii_lowered(
        other,
    )[i] by {
        lemma_same_char(a, b, from + i);
    }
    assert(ascii_lowered(part) =~= ascii_lowered(other));
}

pub(crate) proof fn lemma_same_last_index(a: Seq<char>, b: Seq<char>, x: char, y: char)
    requires
        same_but_case(a, b),
        !paths::is_letter(x),
        !paths::is_letter(y),
    ensures
        paths::last_index(a, x, y) == paths::last_index(b, x, y),
    decreases a.len(),
{
    lemma_same_len(a, b);
    if a.len() > 0 {
        lemma_same_char(a, b, a.len() - 1);
        lemma_same_part(a, b, 0, a.len() - 1);
        lemma_same_last_index(a.drop_last(), b.drop_last(), x, y);
    }
}

/// The lower case of an ASCII text has its letters A to Z in lower case, and no other character
/// changes.
pub proof fn law_lower_case_of_ascii(text: Seq<char>)
    requires
        is_ascii_chars(text),
    ensures
        lower_case(text).len() == text.len(),
        forall|i: int|
            0 <= i < text.len() ==> {
                let lower = #[trigger] lower_case(text)[i];
                &&& 'A' <= text[i] <= 'Z' ==> lower as int == text[i] as int + 'a' as int
                    - 'A' as int
                &&& !('A' <= text[i] <= 'Z') ==> lower == text[i]
            },
{
    let lowered = ascii_lowered(text);
    assert forall|i: int| 0 <= i < lowered.len() implies (#[trigger] lowered[i] as nat) < 128 by {
        is_ascii_chars_nat_bound(text);
        assert((text[i] as nat) < 128);
    }
    assert(is_ascii_chars(lowered));
}

/// Texts that differ only in the case of ASCII letters have the same lower case.
pub proof fn law_lower_case_ignores_ascii_case(a: Seq<char>, b: Seq<char>)
    requires
        same_but_case(a, b),
    ensures
        lower_case(a) == lower_case(b),
{
}

/// The lower case of any other text is that of Unicode, once its ASCII letters are lowered.
pub proof fn law_lower_case_beyond_ascii(text: Seq<char>)
    requires
        !is_ascii_chars(ascii_lowered(text)),
    ensures
        lower_case(text) == unicode_lowercase(ascii_lowered(text)),
{
}

} // verus!
