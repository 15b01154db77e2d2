//! Text primitives that the rest of the library builds on.
//!
//! The standard library's string operations used here have no specification
//! in `vstd`, so this module states what each of them does. Those statements
//! are believed, not proved; everything else in the module is verified
//! against them.

use vstd::prelude::*;

verus! {

/// The lower-case form of a text, as `str::to_lowercase` computes it: the
/// Unicode lower-case mapping applied to the whole text.
pub uninterp spec fn lowercase(s: Seq<char>) -> Seq<char>;

/// Whether a character has the Unicode `White_Space` property, as
/// `char::is_whitespace` reports it. The Unicode Character Database gives
/// the property to 25 characters: the controls U+0009 to U+000D and U+0085,
/// and the spaces U+0020, U+00A0, U+1680, U+2000 to U+200A, U+2028, U+2029,
/// U+202F, U+205F and U+3000.
pub open spec fn is_white_space(c: char) -> bool {
    let n = c as u32;
    ||| 0x09 <= n <= 0x0d
    ||| n == 0x20
    ||| n == 0x85
    ||| n == 0xa0
    ||| n == 0x1680
    ||| 0x2000 <= n <= 0x200a
    ||| n == 0x2028
    ||| n == 0x2029
    ||| n == 0x202f
    ||| n == 0x205f
    ||| n == 0x3000
}

/// The number that `u32::from_str_radix` reads from a text in the given
/// radix, or `None` where it reports an error.
pub uninterp spec fn radix_value(digits: Seq<char>, radix: u32) -> Option<u32>;

/// The text that `str::replace` makes of `text` by putting `to` in the place
/// of every match of `from`.
pub uninterp spec fn replaced(text: Seq<char>, from: Seq<char>, to: Seq<char>) -> Seq<char>;

/// The parts into which `str::split` cuts `text` at every match of
/// `separator`, in order.
pub uninterp spec fn split_parts(text: Seq<char>, separator: Seq<char>) -> Seq<Seq<char>>;

/// The number that `str::parse::<usize>` reads from a text, or `None` where
/// it reports an error.
pub uninterp spec fn usize_value(digits: Seq<char>) -> Option<usize>;

/// A text without its leading white space.
pub open spec fn trim_start_of(s: Seq<char>) -> Seq<char>
    decreases s.len(),
{
    if s.len() > 0 && is_white_space(s.first()) {
        trim_start_of(s.drop_first())
    } else {
        s
    }
}

/// A text without its trailing white space.
pub open spec fn trim_end_of(s: Seq<char>) -> Seq<char>
    decreases s.len(),
{
    if s.len() > 0 && is_white_space(s.last()) {
        trim_end_of(s.drop_last())
    } else {
        s
    }
}

/// A text without its leading and trailing white space.
pub open spec fn trim_of(s: Seq<char>) -> Seq<char> {
    trim_end_of(trim_start_of(s))
}

/// The character of a decimal digit.
pub open spec fn digit_char(d: int) -> char {
    (48 + d) as char
}

/// A number written in decimal digits, without sign or leading zeros.
pub open spec fn decimal_text(n: nat) -> Seq<char>
    decreases n,
{
    if n < 10 {
        seq![digit_char(n as int)]
    } else {
        decimal_text(n / 10).push(digit_char((n % 10) as int))
    }
}

/// The model of a result: the model of what it holds, on either side.
pub open spec fn result_model<T: DeepView, E: DeepView>(outcome: Result<T, E>) -> Result<
    T::V,
    E::V,
> {
    match outcome {
        Ok(value) => Ok(value.deep_view()),
        Err(error) => Err(error.deep_view()),
    }
}

/// `needle` occurs in `haystack` as a contiguous run of characters.
pub open spec fn is_substring(needle: Seq<char>, haystack: Seq<char>) -> bool {
    exists|i: int|
        0 <= i && i + needle.len() <= haystack.len() && #[trigger] haystack.subrange(
            i,
            i + needle.len(),
        ) == needle
}

/// Every character of the text is white space (an empty text is blank).
pub open spec fn is_blank(s: Seq<char>) -> bool {
    forall|i: int| 0 <= i < s.len() ==> is_white_space(#[trigger] s[i])
}

/// `String::push` appends one character.
pub assume_specification[ String::push ](s: &mut String, ch: char)
    ensures
        final(s)@ == old(s)@.push(ch),
;

/// `String::pop` removes the last character and returns it, or returns `None`
/// and leaves an empty string empty.
pub assume_specification[ String::pop ](s: &mut String) -> (popped: Option<char>)
    ensures
        old(s)@.len() == 0 ==> popped.is_none() && final(s)@ == old(s)@,
        old(s)@.len() > 0 ==> popped == Some(old(s)@.last()) && final(s)@ == old(s)@.drop_last(),
;

/// `String::clear` removes every character.
pub assume_specification[ String::clear ](s: &mut String)
    ensures
        final(s)@ == Seq::<char>::empty(),
;

/// `str::to_lowercase` returns the lower-case form of the text.
pub assume_specification[ str::to_lowercase ](s: &str) -> (lower: String)
    ensures
        lower@ == lowercase(s@),
;

/// `char::is_whitespace` tells whether the character has the `White_Space`
/// property of the Unicode Character Database.
pub assume_specification[ char::is_whitespace ](c: char) -> (white: bool)
    ensures
        white == is_white_space(c),
;

/// `==` on string slices compares them character by character.
pub assume_specification[ <str as PartialEq>::eq ](a: &str, b: &str) -> (same: bool)
    ensures
        same == (a@ == b@),
;

/// `str::contains` with a string pattern: whether the pattern occurs in the
/// text. The empty pattern occurs in every text.
#[verifier::external_body]
pub(crate) fn str_contains(haystack: &str, needle: &str) -> (found: bool)
    ensures
        found == is_substring(needle@, haystack@),
{
    haystack.contains(needle)
}

/// `str::strip_prefix` with a string pattern: the text after the prefix, or
/// `None` if the text does not start with the prefix.
#[verifier::external_body]
pub(crate) fn str_strip_prefix<'a>(text: &'a str, prefix: &str) -> (rest: Option<&'a str>)
    ensures
        match rest {
            Some(rest) => text@ == prefix@ + rest@,
            None => !prefix@.is_prefix_of(text@),
        },
{
    text.strip_prefix(prefix)
}

/// `str::trim` returns the text without its leading and trailing white
/// space.
pub assume_specification[ str::trim ](s: &str) -> (trimmed: &str)
    ensures
        trimmed@ == trim_of(s@),
;

/// `str::split` with a string pattern, its parts collected in order.
#[verifier::external_body]
pub(crate) fn str_split<'a>(text: &'a str, separator: &str) -> (parts: Vec<&'a str>)
    ensures
        parts.deep_view() == split_parts(text@, separator@),
{
    text.split(separator).collect()
}

/// `str::parse::<usize>`, with its error dropped.
#[verifier::external_body]
pub(crate) fn parse_usize(digits: &str) -> (value: Option<usize>)
    ensures
        value == usize_value(digits@),
{
    match digits.parse::<usize>() {
        Ok(value) => Some(value),
        Err(_) => None,
    }
}

/// `str::replace` with a string pattern.
#[verifier::external_body]
pub(crate) fn str_replace(text: &str, from: &str, to: &str) -> (result: String)
    ensures
        result@ == replaced(text@, from@, to@),
{
    text.replace(from, to)
}

/// `u32::from_str_radix`, with its error dropped.
#[verifier::external_body]
pub(crate) fn parse_radix(digits: &str, radix: u32) -> (value: Option<u32>)
    requires
        2 <= radix <= 36,
    ensures
        value == radix_value(digits@, radix),
{
    match u32::from_str_radix(digits, radix) {
        Ok(value) => Some(value),
        Err(_) => None,
    }
}

fn digit(d: u64) -> (c: char)
    requires
        d < 10,
    ensures
        c == digit_char(d as int),
{
    (48u8 + d as u8) as char
}

/// Appends a number in decimal digits to a text.
pub fn push_decimal(out: &mut String, n: u64)
    ensures
        final(out)@ == old(out)@ + decimal_text(n as nat),
    decreases n,
{
    if n >= 10 {
        push_decimal(out, n / 10);
    }
    out.push(digit(n % 10));
}

/// A number in decimal digits.
pub fn decimal_string(n: u64) -> (text: String)
    ensures
        text@ == decimal_text(n as nat),
{
    let mut text = String::new();
    push_decimal(&mut text, n);
    text
}

/// Whether two texts are the same, character for character.
pub fn same_text(a: &str, b: &str) -> (same: bool)
    ensures
        same == (a@ == b@),
{
    *a == *b
}

/// Whether a text holds nothing but white space, so that trimming it would
/// leave nothing.
pub fn text_is_blank(s: &str) -> (blank: bool)
    ensures
        blank == is_blank(s@),
        blank == (trim_of(s@).len() == 0),
{
    proof {
        lemma_blank_iff_trim_is_empty(s@);
    }
    let mut blank = true;
    for c in it: s.chars()
        invariant
            it.seq() == s@,
            blank == is_blank(s@.take(it.index() as int)),
    {
        if !c.is_whitespace() {
            blank = false;
        }
        assert(s@.take(it.index() + 1)[it.index() as int] == c);
    }
    assert(s@.take(s@.len() as int) == s@);
    blank
}

/// Trimming leading white space leaves nothing exactly of a blank text, and
/// what it leaves is blank exactly when the text is.
pub proof fn lemma_trim_start_of_blank(s: Seq<char>)
    ensures
        trim_start_of(s).len() == 0 <==> is_blank(s),
        is_blank(trim_start_of(s)) <==> is_blank(s),
    decreases s.len(),
{
    if s.len() > 0 && is_white_space(s.first()) {
        let rest = s.drop_first();
        lemma_trim_start_of_blank(rest);
        if is_blank(rest) {
            assert forall|i: int| 0 <= i < s.len() implies is_white_space(#[trigger] s[i]) by {
                if i > 0 {
                    assert(s[i] == rest[i - 1]);
                }
            }
        }
        if is_blank(s) {
            assert forall|i: int| 0 <= i < rest.len() implies is_white_space(
                #[trigger] rest[i],
            ) by {
                assert(rest[i] == s[i + 1]);
            }
        }
    } else if s.len() > 0 {
        assert(!is_white_space(s[0]));
    }
}

/// Trimming trailing white space leaves nothing exactly of a blank text.
pub proof fn lemma_trim_end_of_blank(s: Seq<char>)
    ensures
        trim_end_of(s).len() == 0 <==> is_blank(s),
    decreases s.len(),
{
    if s.len() > 0 && is_white_space(s.last()) {
        let rest = s.drop_last();
        lemma_trim_end_of_blank(rest);
        if is_blank(rest) {
            assert forall|i: int| 0 <= i < s.len() implies is_white_space(#[trigger] s[i]) by {
                if i < s.len() - 1 {
                    assert(s[i] == rest[i]);
                }
            }
        }
        if is_blank(s) {
            assert forall|i: int| 0 <= i < rest.len() implies is_white_space(
                #[trigger] rest[i],
            ) by {
                assert(rest[i] == s[i]);
            }
        }
    } else if s.len() > 0 {
        assert(!is_white_space(s[s.len() - 1]));
    }
}

/// A text is blank exactly when trimming it leaves nothing.
pub proof fn lemma_blank_iff_trim_is_empty(s: Seq<char>)
    ensures
        is_blank(s) <==> trim_of(s).len() == 0,
{
    lemma_trim_start_of_blank(s);
    lemma_trim_end_of_blank(trim_start_of(s));
}

/// Whether `text` contains `query` when both are compared in lower case.
pub open spec fn contains_ignoring_case(text: Seq<char>, query: Seq<char>) -> bool {
    is_substring(lowercase(query), lowercase(text))
}

} // verus!
