//! Video identifiers and the text they are written as in file names.

use vstd::prelude::*;

verus! {

/// A 128-bit video identifier.
#[derive(Clone, Copy, Debug, PartialEq, Eq, Structural, Hash)]
pub struct VideoId {
    pub raw: u128,
}

/// The lower-case hexadecimal digit for `n` in `0..16`.
pub open spec fn hex_digit(n: int) -> char {
    seq!['0', '1', '2', '3', '4', '5', '6', '7', '8', '9', 'a', 'b', 'c', 'd', 'e', 'f'][n]
}

/// The `digits` least significant hexadecimal digits of `value`, most
/// significant first.
pub open spec fn lower_hex(value: nat, digits: nat) -> Seq<char>
    decreases digits,
{
    if digits == 0 {
        Seq::empty()
    } else {
        lower_hex(value / 16, (digits - 1) as nat).push(hex_digit((value % 16) as int))
    }
}

/// The canonical text of an identifier: its 32 hexadecimal digits in groups
/// of 8, 4, 4, 4 and 12, separated by hyphens.
pub open spec fn hyphenated(raw: u128) -> Seq<char> {
    let digits = lower_hex(raw as nat, 32);
    digits.subrange(0, 8) + seq!['-'] + digits.subrange(8, 12) + seq!['-'] + digits.subrange(
        12,
        16,
    ) + seq!['-'] + digits.subrange(16, 20) + seq!['-'] + digits.subrange(20, 32)
}

/// Whether `raw` carries the version and variant marks of a randomly
/// generated identifier.
pub open spec fn is_random_id(raw: u128) -> bool {
    &&& (raw as nat / 0x1000_0000_0000_0000_0000) % 16 == 4
    &&& (raw as nat / 0x4000_0000_0000_0000) % 4 == 2
}

/// Calls `uuid::Uuid::new_v4` and keeps the identifier's 128 bits
/// (`Uuid::as_u128`). The call draws 128 random bits and overwrites the
/// version nibble with 4 and the two variant bits with binary 10; nothing
/// else is claimed of the outcome.
#[verifier::external_body]
fn random_id() -> (raw: u128)
    ensures
        is_random_id(raw),
{
    uuid::Uuid::new_v4().as_u128()
}

/// Calls `uuid::Uuid::from_u128(raw).hyphenated().to_string()`, which writes
/// the 16 bytes of `raw`, most significant first, as lower-case hexadecimal
/// digits with hyphens after the 8th, 12th, 16th and 20th digit.
#[verifier::external_body]
fn hyphenated_text(raw: u128) -> (text: String)
    ensures
        text@ == hyphenated(raw),
{
    uuid::Uuid::from_u128(raw).hyphenated().to_string()
}

impl VideoId {
    /// Draws a fresh random identifier.
    pub fn generate() -> (id: VideoId)
        ensures
            is_random_id(id.raw),
    {
        VideoId { raw: random_id() }
    }

    /// The identifier as it appears in file names and pages.
    pub fn text(&self) -> (text: String)
        ensures
            text@ == hyphenated(self.raw),
    {
        hyphenated_text(self.raw)
    }
}

/// Sixteen to the power of `digits`.
pub open spec fn sixteen_to(digits: nat) -> nat
    decreases digits,
{
    if digits == 0 {
        1
    } else {
        16 * sixteen_to((digits - 1) as nat)
    }
}

/// A numeral has as many digits as were asked for.
pub proof fn lemma_lower_hex_len(value: nat, digits: nat)
    ensures
        lower_hex(value, digits).len() == digits,
    decreases digits,
{
    if digits > 0 {
        lemma_lower_hex_len(value / 16, (digits - 1) as nat);
    }
}

/// Two values that fit in `digits` hexadecimal digits and are written
/// alike are the same value.
pub proof fn lemma_lower_hex_injective(a: nat, b: nat, digits: nat)
    requires
        a < sixteen_to(digits),
        b < sixteen_to(digits),
        lower_hex(a, digits) == lower_hex(b, digits),
    ensures
        a == b,
    decreases digits,
{
    if digits > 0 {
        let shorter = (digits - 1) as nat;
        let left = lower_hex(a / 16, shorter);
        let right = lower_hex(b / 16, shorter);
        lemma_lower_hex_len(a / 16, shorter);
        lemma_lower_hex_len(b / 16, shorter);
        assert(left.push(hex_digit((a % 16) as int)).drop_last() =~= left);
        assert(right.push(hex_digit((b % 16) as int)).drop_last() =~= right);
        assert(left.push(hex_digit((a % 16) as int)).last() == hex_digit((a % 16) as int));
        assert(right.push(hex_digit((b % 16) as int)).last() == hex_digit((b % 16) as int));
        assert(hex_digit((a % 16) as int) == hex_digit((b % 16) as int));
        lemma_hex_digit_injective((a % 16) as int, (b % 16) as int);
        lemma_lower_hex_injective(a / 16, b / 16, shorter);
    }
}

/// Two digits that are written alike are the same digit.
pub proof fn lemma_hex_digit_injective(a: int, b: int)
    requires
        0 <= a < 16,
        0 <= b < 16,
        hex_digit(a) == hex_digit(b),
    ensures
        a == b,
{
}

/// Two identifiers with the same text are the same identifier.
pub proof fn lemma_hyphenated_injective(a: u128, b: u128)
    requires
        hyphenated(a) == hyphenated(b),
    ensures
        a == b,
{
    let left = lower_hex(a as nat, 32);
    let right = lower_hex(b as nat, 32);
    lemma_lower_hex_len(a as nat, 32);
    lemma_lower_hex_len(b as nat, 32);
    let text = hyphenated(a);
    let rebuilt = text.subrange(0, 8) + text.subrange(9, 13) + text.subrange(14, 18)
        + text.subrange(19, 23) + text.subrange(24, 36);
    assert(left =~= rebuilt);
    assert(right =~= rebuilt);
    assert(sixteen_to(32) == 0x1_0000_0000_0000_0000_0000_0000_0000_0000) by {
        reveal_with_fuel(sixteen_to, 33);
    }
    lemma_lower_hex_injective(a as nat, b as nat, 32);
}

/// The text of an identifier has 36 characters.
pub proof fn lemma_hyphenated_len(raw: u128)
    ensures
        hyphenated(raw).len() == 36,
{
    lemma_lower_hex_len(raw as nat, 32);
}

} // verus!
