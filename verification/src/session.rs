//! The name of a session's state directory, which is a short hash of its socket's path.

use crate::error::FailureKind;
use crate::paths::{join, joined};
use vstd::arithmetic::div_mod::{lemma_div_denominator, lemma_mod_breakdown};
use vstd::arithmetic::power::{lemma_pow_positive, pow};
use vstd::prelude::*;

verus! {

/// How many letters a session hash has.
pub const SESSION_HASH_LEN: usize = 12;

/// A session hash, as ASCII letters.
pub type SessionHash = [u8; SESSION_HASH_LEN];

/// What `seahash::hash` gives for `bytes`.
pub uninterp spec fn sea_hash(bytes: Seq<u8>) -> u64;

/// `seahash::hash` has a fixed seed and reads its buffer in little-endian order on every
/// machine, so its result depends on the bytes alone.
pub assume_specification[ seahash::hash ](buf: &[u8]) -> (result: u64)
    ensures
        result == sea_hash(buf@),
;

/// The letter that stands for a digit in base four.
pub open spec fn letter(digit: int) -> u8 {
    if digit == 0 {
        'h' as u8
    } else if digit == 1 {
        'e' as u8
    } else if digit == 2 {
        'r' as u8
    } else {
        'd' as u8
    }
}

/// The digit of `number` in base four at `place`, counted from the lowest one.
pub open spec fn digit(number: int, place: int) -> int
    decreases place,
{
    if place <= 0 {
        number % 4
    } else {
        digit(number / 4, place - 1)
    }
}

/// The letters of a hash value: its twelve lowest digits in base four, lowest first.
pub open spec fn hash_letters(hash_value: u64) -> Seq<u8> {
    Seq::new(SESSION_HASH_LEN as nat, |i: int| letter(digit(hash_value as int, i)))
}

/// Spells a hash value with the letters of "herd".
pub fn spell_hash(hash_value: u64) -> (result: SessionHash)
    ensures
        result@ == hash_letters(hash_value),
{
    let charset: [u8; 4] = ['h' as u8, 'e' as u8, 'r' as u8, 'd' as u8];
    let mut output: SessionHash = [0u8; SESSION_HASH_LEN];
    let mut rest: u64 = hash_value;
    let mut i: usize = 0;
    while i < SESSION_HASH_LEN
        invariant
            i <= SESSION_HASH_LEN,
            charset@ == seq!['h' as u8, 'e' as u8, 'r' as u8, 'd' as u8],
            forall|j: int|
                i <= j ==> #[trigger] digit(hash_value as int, j) == digit(rest as int, j - i),
            forall|j: int| 0 <= j < i ==> output@[j] == letter(digit(hash_value as int, j)),
        decreases SESSION_HASH_LEN - i,
    {
        let place: usize = (rest % 4) as usize;
        output[i] = charset[place];
        assert(digit(hash_value as int, i as int) == digit(rest as int, 0));
        rest = rest / 4;
        i = i + 1;
    }
    assert(output@ =~= hash_letters(hash_value));
    output
}

/// The hash of a session whose socket has the path `socket_path`.
#[must_use]
pub fn session_hash(socket_path: &[u8]) -> (result: SessionHash)
    ensures
        result@ == hash_letters(sea_hash(socket_path@)),
{
    spell_hash(seahash::hash(socket_path))
}

/// The directory below `state_root` that holds the state of the session whose socket has the
/// path `socket_path`.
pub fn session_dir(state_root: &[u8], socket_path: &[u8]) -> (result: Vec<u8>)
    ensures
        result@ == joined(state_root@, hash_letters(sea_hash(socket_path@))),
{
    let hash = session_hash(socket_path);
    join(state_root, hash.as_slice())
}

/// Whether the directory of a session is there after it was to be created: it is also where it was
/// there before.
pub fn is_dir_ready(created: Result<(), FailureKind>) -> (result: bool)
    ensures
        result == match created {
            Ok(_) => true,
            Err(kind) => kind is AlreadyExists,
        },
{
    match created {
        Ok(_) => true,
        Err(kind) => matches!(kind, FailureKind::AlreadyExists),
    }
}

/// A session hash has twelve letters, each of them one of "herd": it is ASCII text, and a plain
/// file name.
pub proof fn law_session_hash_alphabet(hash_value: u64)
    ensures
        hash_letters(hash_value).len() == SESSION_HASH_LEN,
        forall|i: int|
            0 <= i < SESSION_HASH_LEN ==> {
                let byte = #[trigger] hash_letters(hash_value)[i];
                byte == 'h' as u8 || byte == 'e' as u8 || byte == 'r' as u8 || byte == 'd' as u8
            },
{
}

/// Two hash values are spelled alike exactly where their lowest 24 bits agree.
pub proof fn law_session_hash_distinguishes(first: u64, second: u64)
    ensures
        hash_letters(first) == hash_letters(second) <==> first % 0x100_0000
            == second % 0x100_0000,
{
    lemma_digits_agree(first as int, second as int, 12);
    assert(pow(4, 12) == 0x100_0000) by {
        reveal_with_fuel(pow, 13);
    }
    let a = hash_letters(first);
    let b = hash_letters(second);
    if a == b {
        assert forall|i: int| 0 <= i < 12 implies #[trigger] digit(first as int, i) == digit(
            second as int,
            i,
        ) by {
            assert(a[i] == b[i]);
            lemma_digit_range(first as int, i);
            lemma_digit_range(second as int, i);
        }
    }
    if forall|i: int| 0 <= i < 12 ==> #[trigger] digit(first as int, i) == digit(second as int, i) {
        assert(a =~= b);
    }
}

/// A digit in base four is less than four.
proof fn lemma_digit_range(number: int, place: int)
    ensures
        0 <= digit(number, place) < 4,
    decreases place,
{
    if place > 0 {
        lemma_digit_range(number / 4, place - 1);
    }
}

/// Two numbers agree in their `places` lowest digits exactly where their remainders agree.
proof fn lemma_digits_agree(first: int, second: int, places: nat)
    requires
        first >= 0,
        second >= 0,
    ensures
        (forall|i: int|
            0 <= i < places ==> #[trigger] digit(first, i) == digit(second, i)) <==> first % pow(
            4,
            places,
        ) == second % pow(4, places),
    decreases places,
{
    reveal(pow);
    if places > 0 {
        let rest = (places - 1) as nat;
        lemma_pow_positive(4, rest);
        lemma_digits_agree(first / 4, second / 4, rest);
        lemma_mod_breakdown(first, 4, pow(4, rest));
        lemma_mod_breakdown(second, 4, pow(4, rest));
        if forall|i: int| 0 <= i < places ==> #[trigger] digit(first, i) == digit(second, i) {
            assert(digit(first, 0) == digit(second, 0));
            assert forall|i: int| 0 <= i < rest implies #[trigger] digit(first / 4, i) == digit(
                second / 4,
                i,
            ) by {
                assert(digit(first, i + 1) == digit(second, i + 1));
            }
        }
        if first % pow(4, places) == second % pow(4, places) {
            assert forall|i: int| 0 <= i < places implies #[trigger] digit(first, i) == digit(
                second,
                i,
            ) by {
                if i > 0 {
                    assert(digit(first / 4, i - 1) == digit(second / 4, i - 1));
                }
            }
        }
    }
}

/// A session hash spells the hash value in base four, the lowest digit first, with the letters of
/// "herd" for the digits from zero to three.
pub proof fn law_session_hash_is_base_four(hash_value: u64, place: nat)
    requires
        place < 12,
    ensures
        hash_letters(hash_value).len() == 12,
        hash_letters(hash_value)[place as int] == seq!['h' as u8, 'e' as u8, 'r' as u8, 'd' as u8][(
        hash_value as int / pow(4, place)) % 4],
{
    lemma_digit_is_quotient(hash_value as int, place);
}

/// The digit at a place is what is left of the quotient by the power of four.
proof fn lemma_digit_is_quotient(number: int, place: nat)
    requires
        number >= 0,
    ensures
        digit(number, place as int) == (number / pow(4, place)) % 4,
    decreases place,
{
    reveal(pow);
    if place > 0 {
        let rest = (place - 1) as nat;
        lemma_pow_positive(4, rest);
        lemma_digit_is_quotient(number / 4, rest);
        lemma_div_denominator(number, 4, pow(4, rest));
    }
}

} // verus!
