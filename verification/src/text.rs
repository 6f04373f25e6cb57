//! Text: surrounding white space, decimal numbers and bytes that may not be UTF-8.

use vstd::arithmetic::power::pow;
use vstd::prelude::*;
use vstd::utf8::{decode_utf8, encode_utf8, encode_utf8_decode_utf8, encode_utf8_valid_utf8};
use vstd::utf8::valid_utf8;

verus! {

/// The characters with the Unicode property White_Space.
pub open spec fn is_white_space(c: char) -> bool {
    let code = c as u32;
    ||| 0x9 <= code <= 0xd
    ||| code == 0x20
    ||| code == 0x85
    ||| code == 0xa0
    ||| code == 0x1680
    ||| 0x2000 <= code <= 0x200a
    ||| code == 0x2028
    ||| code == 0x2029
    ||| code == 0x202f
    ||| code == 0x205f
    ||| code == 0x3000
}

/// `text` without the white space at its two ends.
pub open spec fn trimmed(text: Seq<char>) -> Seq<char>
    decreases text.len(),
{
    if text.len() == 0 {
        text
    } else if is_white_space(text[0]) {
        trimmed(text.drop_first())
    } else if is_white_space(text.last()) {
        trimmed(text.drop_last())
    } else {
        text
    }
}

/// `str::trim` takes leading and trailing white space away, where white space is what has the
/// Unicode property White_Space.
pub assume_specification[ str::trim ](s: &str) -> (result: &str)
    ensures
        result@ == trimmed(s@),
;

/// What `String::from_utf8_lossy` makes of bytes that are not valid UTF-8.
pub uninterp spec fn utf8_repaired(bytes: Seq<u8>) -> Seq<char>;

/// The text of `bytes`, with what is not UTF-8 in them replaced.
pub open spec fn lossy_text(bytes: Seq<u8>) -> Seq<char> {
    if valid_utf8(bytes) {
        decode_utf8(bytes)
    } else {
        utf8_repaired(bytes)
    }
}

/// Calls `String::from_utf8_lossy`. Its result depends on the bytes alone, and is the text that
/// they encode where they are valid UTF-8.
#[verifier::external_body]
pub(crate) fn decode_lossy(bytes: &[u8]) -> (result: String)
    ensures
        valid_utf8(bytes@) ==> result@ == decode_utf8(bytes@),
        !valid_utf8(bytes@) ==> result@ == utf8_repaired(bytes@),
{
    String::from_utf8_lossy(bytes).into_owned()
}

/// The number that decimal digits stand for. There is none where there is no digit, or anything
/// else than digits.
pub open spec fn decimal(digits: Seq<char>) -> Option<int>
    decreases digits.len(),
{
    if digits.len() == 0 || !('0' <= digits.last() <= '9') {
        None
    } else {
        let last = digits.last() as int - '0' as int;
        if digits.len() == 1 {
            Some(last)
        } else {
            match decimal(digits.drop_last()) {
                Some(front) => Some(10 * front + last),
                None => None,
            }
        }
    }
}

/// The number that digits with at most one sign before them stand for.
pub open spec fn signed_decimal(text: Seq<char>) -> Option<int> {
    if text.len() > 0 && text[0] == '-' {
        match decimal(text.drop_first()) {
            Some(size) => Some(-size),
            None => None,
        }
    } else if text.len() > 0 && text[0] == '+' {
        decimal(text.drop_first())
    } else {
        decimal(text)
    }
}

/// The number that `text` stands for where it is an `i32`.
pub open spec fn parsed_i32(text: Seq<char>) -> Option<i32> {
    match signed_decimal(text) {
        Some(number) => if i32::MIN <= number <= i32::MAX {
            Some(number as i32)
        } else {
            None
        },
        None => None,
    }
}

/// Calls `str::parse::<i32>`: it takes an optional sign followed by decimal digits only, and
/// fails on anything else and on numbers that an `i32` cannot hold.
#[verifier::external_body]
pub(crate) fn parse_i32(text: &str) -> (result: Option<i32>)
    ensures
        result == parsed_i32(text@),
{
    text.parse::<i32>().ok()
}

/// Whether two byte strings are the same.
pub(crate) fn same_bytes(first: &[u8], second: &[u8]) -> (result: bool)
    ensures
        result == (first@ == second@),
{
    if first.len() != second.len() {
        return false;
    }
    let mut i: usize = 0;
    while i < first.len()
        invariant
            i <= first.len(),
            first.len() == second.len(),
            forall|j: int| 0 <= j < i ==> first@[j] == second@[j],
        decreases first.len() - i,
    {
        if first[i] != second[i] {
            return false;
        }
        i = i + 1;
    }
    assert(first@ =~= second@);
    true
}

/// Whether two texts are the same.
pub(crate) fn same_text(first: &str, second: &str) -> (result: bool)
    ensures
        result == (first@ == second@),
{
    proof {
        encode_utf8_decode_utf8(first@);
        encode_utf8_decode_utf8(second@);
    }
    same_bytes(first.as_bytes(), second.as_bytes())
}

/// A text with no white space at its ends stays as it is.
pub proof fn law_trimmed_keeps(text: Seq<char>)
    requires
        text.len() > 0 ==> !is_white_space(text[0]) && !is_white_space(text.last()),
    ensures
        trimmed(text) == text,
{
}

/// What is left after trimming has no white space at its ends, so trimming again changes
/// nothing.
pub proof fn law_trimmed_ends(text: Seq<char>)
    ensures
        trimmed(text).len() > 0 ==> !is_white_space(trimmed(text)[0]) && !is_white_space(
            trimmed(text).last(),
        ),
        trimmed(trimmed(text)) == trimmed(text),
    decreases text.len(),
{
    if text.len() > 0 {
        if is_white_space(text[0]) {
            law_trimmed_ends(text.drop_first());
        } else if is_white_space(text.last()) {
            law_trimmed_ends(text.drop_last());
        }
    }
}

/// Trimming takes away white space only, and only at the ends: what is left is a part of the text,
/// and all that is before and after it is white space.
pub proof fn law_trimmed_is_the_middle(text: Seq<char>) -> (start: int)
    ensures
        0 <= start,
        start + trimmed(text).len() <= text.len(),
        trimmed(text) == text.subrange(start, start + trimmed(text).len()),
        forall|i: int|
            0 <= i < start || start + trimmed(text).len() <= i < text.len() ==> is_white_space(
                #[trigger] text[i],
            ),
    decreases text.len(),
{
    if text.len() == 0 {
        assert(trimmed(text) =~= text.subrange(0, 0));
        0
    } else if is_white_space(text[0]) {
        let rest = text.drop_first();
        let inner = law_trimmed_is_the_middle(rest);
        let end = inner + trimmed(text).len();
        assert(rest.subrange(inner, end) =~= text.subrange(inner + 1, end + 1));
        assert forall|i: int|
            0 <= i < inner + 1 || end + 1 <= i < text.len() implies is_white_space(
            #[trigger] text[i],
        ) by {
            if i > 0 {
                assert(rest[i - 1] == text[i]);
            }
        }
        inner + 1
    } else if is_white_space(text.last()) {
        let rest = text.drop_last();
        let inner = law_trimmed_is_the_middle(rest);
        let end = inner + trimmed(text).len();
        assert(rest.subrange(inner, end) =~= text.subrange(inner, end));
        assert forall|i: int| 0 <= i < inner || end <= i < text.len() implies is_white_space(
            #[trigger] text[i],
        ) by {
            if i < text.len() - 1 {
                assert(rest[i] == text[i]);
            }
        }
        inner
    } else {
        assert(trimmed(text) =~= text.subrange(0, text.len() as int));
        0
    }
}

/// Two runs of digits in a row stand for the number of the first, moved up by as many places as the
/// second has, and the number of the second. Each single digit stands for itself, and nothing else
/// stands for a number.
pub proof fn law_digits_have_their_places(first: Seq<char>, second: Seq<char>, c: char)
    ensures
        decimal(Seq::<char>::empty()) is None,
        decimal(seq![c]) == if '0' <= c <= '9' {
            Some(c as int - '0' as int)
        } else {
            None
        },
        first.len() > 0 && second.len() > 0 ==> match (decimal(first), decimal(second)) {
            (Some(high), Some(low)) => decimal(first + second) == Some(
                high * pow(10, second.len()) + low,
            ),
            _ => decimal(first + second) is None,
        },
    decreases second.len(),
{
    assert(seq![c].drop_last() =~= Seq::<char>::empty());
    assert(seq![c].last() == c);
    if first.len() > 0 && second.len() > 0 {
        let both = first + second;
        let shorter = second.drop_last();
        assert(both.drop_last() =~= first + shorter);
        assert(both.last() == second.last());
        reveal(pow);
        if second.len() == 1 {
            assert(first + shorter =~= first);
            assert(pow(10, 1) == 10) by {
                reveal_with_fuel(pow, 2);
            }
            if decimal(first) is Some {
                let high = decimal(first)->0;
                assert(high * pow(10, second.len()) == 10 * high);
            }
        } else {
            law_digits_have_their_places(first, shorter, c);
            if decimal(first) is Some && decimal(shorter) is Some {
                let high = decimal(first)->0;
                let power = pow(10, shorter.len());
                assert(pow(10, second.len()) == 10 * power);
                assert(10 * (high * power) == high * (10 * power)) by (nonlinear_arith);
            }
        }
    }
}

/// A sign may stand before the digits, and a minus makes the number negative. What an `i32` cannot
/// hold is no number.
pub proof fn law_sign_stands_before_digits(digits: Seq<char>, number: int)
    requires
        decimal(digits) == Some(number),
    ensures
        signed_decimal(digits) == Some(number),
        signed_decimal(seq!['+'] + digits) == Some(number),
        signed_decimal(seq!['-'] + digits) == Some(-number),
        number <= i32::MAX ==> (parsed_i32(digits) matches Some(n) && n == number),
        number > i32::MAX ==> parsed_i32(digits) is None,
        -number >= i32::MIN ==> (parsed_i32(seq!['-'] + digits) matches Some(n) && n == -number),
        -number < i32::MIN ==> parsed_i32(seq!['-'] + digits) is None,
{
    lemma_decimal_digits(digits);
    assert((seq!['+'] + digits).drop_first() =~= digits);
    assert((seq!['-'] + digits).drop_first() =~= digits);
}

/// What stands for a number starts with a digit, and the number is not negative.
proof fn lemma_decimal_digits(digits: Seq<char>)
    requires
        decimal(digits) is Some,
    ensures
        digits.len() > 0,
        '0' <= digits[0] <= '9',
        decimal(digits)->0 >= 0,
    decreases digits.len(),
{
    if digits.len() > 1 {
        lemma_decimal_digits(digits.drop_last());
    }
}

/// The bytes of a text stand for that text.
pub proof fn law_text_of_its_bytes(text: Seq<char>)
    ensures
        lossy_text(encode_utf8(text)) == text,
{
    encode_utf8_valid_utf8(text);
    encode_utf8_decode_utf8(text);
}

} // verus!
