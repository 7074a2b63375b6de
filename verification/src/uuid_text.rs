//! The text form of the keys that identify workers.
use vstd::arithmetic::div_mod::{lemma_basic_div, lemma_div_denominator};
use vstd::arithmetic::power::{lemma_pow0, lemma_pow1, lemma_pow_adds, lemma_pow_positive, pow};
use vstd::prelude::*;

verus! {

/// The lower-case hexadecimal digit of `n`.
pub open spec fn hex_digit(n: int) -> char {
    if n < 10 {
        (0x30 + n) as char
    } else {
        (0x61 + n - 10) as char
    }
}

/// The hexadecimal digit of `key` at `place`, counted from the most significant of the 32.
pub open spec fn digit_at(key: u128, place: int) -> char {
    hex_digit((key as int / pow(16, (31 - place) as nat)) % 16)
}

/// The 32 hexadecimal digits of `key` in groups of eight, four, four, four and twelve, with hyphens
/// between them.
pub open spec fn uuid_text(key: u128) -> Seq<char> {
    Seq::new(
        36,
        |i: int|
            if i == 8 || i == 13 || i == 18 || i == 23 {
                '-'
            } else if i < 8 {
                digit_at(key, i)
            } else if i < 13 {
                digit_at(key, i - 1)
            } else if i < 18 {
                digit_at(key, i - 2)
            } else if i < 23 {
                digit_at(key, i - 3)
            } else {
                digit_at(key, i - 4)
            },
    )
}

/// `to_string` of the `uuid::Uuid` that `Uuid::from_u128` makes of `key`: its lower-case hyphenated
/// form.
#[verifier::external_body]
pub(crate) fn uuid_to_string(key: u128) -> (text: String)
    ensures
        text@ == uuid_text(key),
{
    uuid::Uuid::from_u128(key).to_string()
}

proof fn lemma_key_below_power(key: u128)
    ensures
        key < pow(16, 32),
{
    lemma_pow1(16);
    lemma_pow_adds(16, 1, 1);
    assert(pow(16, 2) == 0x100);
    lemma_pow_adds(16, 2, 2);
    assert(pow(16, 4) == 0x100 * 0x100);
    lemma_pow_adds(16, 4, 4);
    assert(pow(16, 8) == 0x1_0000 * 0x1_0000);
    lemma_pow_adds(16, 8, 8);
    assert(pow(16, 16) == 0x1_0000_0000 * 0x1_0000_0000);
    lemma_pow_adds(16, 16, 16);
    assert(pow(16, 32) == 0x1_0000_0000_0000_0000 * 0x1_0000_0000_0000_0000);
}

/// The text shows each of the 32 digits.
proof fn lemma_text_shows_digit(a: u128, b: u128, place: int)
    requires
        uuid_text(a) == uuid_text(b),
        0 <= place < 32,
    ensures
        (a as int / pow(16, (31 - place) as nat)) % 16 == (b as int / pow(16, (31 - place) as nat))
            % 16,
{
    let i = if place < 8 {
        place
    } else if place < 12 {
        place + 1
    } else if place < 16 {
        place + 2
    } else if place < 20 {
        place + 3
    } else {
        place + 4
    };
    assert(uuid_text(a)[i] == digit_at(a, place));
    assert(uuid_text(b)[i] == digit_at(b, place));
}

/// Keys with the same text agree in their first `count` digits.
proof fn lemma_same_digits(a: u128, b: u128, count: nat)
    requires
        uuid_text(a) == uuid_text(b),
        count <= 32,
    ensures
        a as int / pow(16, (32 - count) as nat) == b as int / pow(16, (32 - count) as nat),
    decreases count,
{
    if count == 0 {
        lemma_key_below_power(a);
        lemma_key_below_power(b);
        lemma_basic_div(a as int, pow(16, 32));
        lemma_basic_div(b as int, pow(16, 32));
    } else {
        let rest = (32 - count) as nat;
        let unit = pow(16, rest);
        lemma_same_digits(a, b, (count - 1) as nat);
        lemma_text_shows_digit(a, b, count - 1);
        lemma_pow_positive(16, rest);
        lemma_pow1(16);
        lemma_pow_adds(16, rest, 1);
        lemma_div_denominator(a as int, unit, 16);
        lemma_div_denominator(b as int, unit, 16);
    }
}

/// Different keys have different texts, so no two workers are known under the same one.
pub proof fn texts_tell_keys_apart(a: u128, b: u128)
    requires
        uuid_text(a) == uuid_text(b),
    ensures
        a == b,
{
    lemma_same_digits(a, b, 32);
    lemma_pow0(16);
}

/// The text has 36 characters: hyphens after the eighth, twelfth, sixteenth and twentieth digit, and
/// otherwise the digits from 0 to f of the key to the base of sixteen, the most significant first.
pub proof fn text_shows_the_digits_in_order(key: u128, place: int)
    requires
        0 <= place < 32,
    ensures
        uuid_text(key).len() == 36,
        uuid_text(key)[8] == '-',
        uuid_text(key)[13] == '-',
        uuid_text(key)[18] == '-',
        uuid_text(key)[23] == '-',
        ({
            let digit = (key as int / pow(16, (31 - place) as nat)) % 16;
            let hyphens = if place < 8 {
                0int
            } else if place < 12 {
                1
            } else if place < 16 {
                2
            } else if place < 20 {
                3
            } else {
                4
            };
            0 <= digit < 16 && uuid_text(key)[place + hyphens] == "0123456789abcdef"@[digit]
        }),
{
    reveal_strlit("0123456789abcdef");
}

} // verus!
