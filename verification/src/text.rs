//! Text helpers: numbers in decimal, suffixes of names, and what the
//! standard library tells of characters.

use vstd::prelude::*;
use vstd::utf8::encode_utf8;

verus! {

/// The decimal digit for `value`, which is less than ten.
pub open spec fn digit_char(value: int) -> char
    recommends
        0 <= value < 10,
{
    "0123456789"@[value]
}

/// The decimal digits of `value`, most significant first, without leading
/// zeros.
pub open spec fn decimal_digits(value: nat) -> Seq<char>
    decreases value,
{
    if value < 10 {
        seq![digit_char(value as int)]
    } else {
        decimal_digits(value / 10) + seq![digit_char((value % 10) as int)]
    }
}

/// `value` in decimal, with a minus sign where it is negative.
pub open spec fn decimal(value: int) -> Seq<char> {
    if value < 0 {
        seq!['-'] + decimal_digits((-value) as nat)
    } else {
        decimal_digits(value as nat)
    }
}

/// Appends the decimal digits of `value` to `text`.
fn push_decimal_digits(text: &mut String, value: u64)
    ensures
        final(text)@ == old(text)@ + decimal_digits(value as nat),
    decreases value,
{
    if value >= 10 {
        push_decimal_digits(text, value / 10);
    }
    let digit = (value % 10) as usize;
    proof {
        reveal_strlit("0123456789");
    }
    let digit_text = "0123456789".substring_char(digit, digit + 1);
    assert(digit_text@ =~= seq![digit_char(digit as int)]);
    text.append(digit_text);
    assert(text@ =~= old(text)@ + decimal_digits(value as nat));
}

/// Appends `value` in decimal to `text`.
pub(crate) fn push_decimal(text: &mut String, value: i64)
    ensures
        final(text)@ == old(text)@ + decimal(value as int),
{
    if value < 0 {
        proof {
            reveal_strlit("-");
        }
        text.append("-");
        assert(text@ =~= old(text)@ + seq!['-']);
        let magnitude = (-(value + 1)) as u64 + 1;
        push_decimal_digits(text, magnitude);
        assert(text@ =~= old(text)@ + decimal(value as int));
    } else {
        push_decimal_digits(text, value as u64);
    }
}

/// Whether `text` ends with the characters of `suffix`.
pub open spec fn ends_with(text: Seq<char>, suffix: Seq<char>) -> bool {
    suffix.len() <= text.len() && text.subrange(text.len() - suffix.len(), text.len() as int)
        == suffix
}

/// `text` without `suffix` at its end, as often as it stands there.
pub open spec fn trimmed_end(text: Seq<char>, suffix: Seq<char>) -> Seq<char>
    decreases text.len(),
{
    if suffix.len() > 0 && ends_with(text, suffix) {
        trimmed_end(text.take(text.len() - suffix.len()), suffix)
    } else {
        text
    }
}

/// The characters of `text`, one by one.
pub(crate) fn chars_of(text: &str) -> (chars: Vec<char>)
    ensures
        chars@ == text@,
{
    let mut chars: Vec<char> = Vec::new();
    for c in it: text.chars()
        invariant
            chars@ == it.seq().take(it.index()),
            it.seq() == text@,
    {
        chars.push(c);
    }
    chars
}

/// Whether the first `len` characters of `text` end with `suffix`.
pub(crate) fn prefix_ends_with(text: &[char], len: usize, suffix: &[char]) -> (found: bool)
    requires
        len <= text@.len(),
    ensures
        found == ends_with(text@.take(len as int), suffix@),
{
    let ghost head = text@.take(len as int);
    if suffix.len() > len {
        return false;
    }
    let start = len - suffix.len();
    let mut i: usize = 0;
    while i < suffix.len()
        invariant
            i <= suffix@.len() <= len <= text@.len(),
            start == len - suffix@.len(),
            head == text@.take(len as int),
            forall|j: int| 0 <= j < i ==> text@[start + j] == suffix@[j],
        decreases suffix@.len() - i,
    {
        if text[start + i] != suffix[i] {
            assert(head.subrange(head.len() - suffix@.len(), head.len() as int)[i as int]
                != suffix@[i as int]);
            return false;
        }
        i += 1;
    }
    assert(head.subrange(head.len() - suffix@.len(), head.len() as int) =~= suffix@);
    true
}

/// The number of characters that are left of the first `len` characters of
/// `text` when `suffix` is taken from their end as often as it stands there.
pub(crate) fn trimmed_len(text: &[char], len: usize, suffix: &[char]) -> (kept: usize)
    requires
        len <= text@.len(),
    ensures
        kept <= len,
        text@.take(kept as int) == trimmed_end(text@.take(len as int), suffix@),
{
    let mut kept = len;
    if suffix.len() == 0 {
        return kept;
    }
    while prefix_ends_with(text, kept, suffix)
        invariant
            kept <= len <= text@.len(),
            suffix@.len() > 0,
            trimmed_end(text@.take(kept as int), suffix@) == trimmed_end(
                text@.take(len as int),
                suffix@,
            ),
        decreases kept,
    {
        assert(text@.take(kept as int).take(kept - suffix@.len()) =~= text@.take(
            kept - suffix@.len(),
        ));
        kept = kept - suffix.len();
    }
    kept
}

/// The number of bytes that `text` takes in UTF-8.
pub open spec fn byte_len(text: Seq<char>) -> nat {
    encode_utf8(text).len()
}

/// Whether `text` ends with `suffix`.
pub fn ends_with_text(text: &str, suffix: &str) -> (found: bool)
    ensures
        found == ends_with(text@, suffix@),
{
    let chars = chars_of(text);
    let suffix_chars = chars_of(suffix);
    assert(chars@.take(chars@.len() as int) =~= chars@);
    prefix_ends_with(chars.as_slice(), chars.len(), suffix_chars.as_slice())
}

/// Whether `c` is a letter or a digit by the rules of Unicode, as
/// `char::is_alphanumeric` tells.
pub uninterp spec fn alphanumeric(c: char) -> bool;

/// Asks `char::is_alphanumeric`. Trusted: the answer is a function of the
/// character alone.
#[verifier::external_body]
pub(crate) fn is_alphanumeric(c: char) -> (yes: bool)
    ensures
        yes == alphanumeric(c),
{
    c.is_alphanumeric()
}

/// The lower-case form of `text` by the rules of Unicode, as
/// `str::to_lowercase` gives it.
pub uninterp spec fn lowercase(text: Seq<char>) -> Seq<char>;

/// Lower-cases `text` with `str::to_lowercase`. Trusted: the result is a
/// function of the characters of `text` alone.
#[verifier::external_body]
pub(crate) fn to_lowercase(text: &str) -> (lower: String)
    ensures
        lower@ == lowercase(text@),
{
    text.to_lowercase()
}

/// Whether `left` and `right` hold the same characters.
pub(crate) fn same_text(left: &str, right: &str) -> (same: bool)
    ensures
        same == (left@ == right@),
{
    String::from_str(left) == String::from_str(right)
}

} // verus!
