//! Numbers and hashes as hexadecimal text, the way the JSON-RPC interface
//! writes them.

use crate::text::{digit_char, hex_digits, hex_encode, join};
use vstd::prelude::*;
use vstd::slice::slice_subrange;
use vstd::string::StringSliceAdditionalSpecFns;

verus! {

/// The value of a hexadecimal digit, upper or lower case.
pub open spec fn hex_digit_value(digit: u8) -> Option<nat> {
    if 48 <= digit <= 57 {
        Some((digit - 48) as nat)
    } else if 97 <= digit <= 102 {
        Some((digit - 87) as nat)
    } else if 65 <= digit <= 70 {
        Some((digit - 55) as nat)
    } else {
        None
    }
}

/// The number that hexadecimal digits spell, the most significant first.
/// There is none if one of them is no digit.
pub open spec fn hex_number(digits: Seq<u8>) -> Option<nat>
    decreases digits.len(),
{
    if digits.len() == 0 {
        Some(0)
    } else {
        match (hex_number(digits.drop_last()), hex_digit_value(digits.last())) {
            (Some(n), Some(d)) => Some(16 * n + d),
            _ => None,
        }
    }
}

/// The text without every `0x` at its front.
pub open spec fn without_prefixes(text: Seq<u8>) -> Seq<u8>
    decreases text.len(),
{
    if text.len() >= 2 && text[0] == 48 && text[1] == 120 {
        without_prefixes(text.skip(2))
    } else {
        text
    }
}

/// The quantity that a text spells: after any `0x` at its front and an
/// optional plus sign, at least one hexadecimal digit and nothing else, for a
/// number that is at most `max`.
pub open spec fn spec_parse_quantity(text: Seq<u8>, max: nat) -> Option<nat> {
    let rest = without_prefixes(text);
    let digits = if rest.len() > 0 && rest[0] == 43 {
        rest.skip(1)
    } else {
        rest
    };
    bounded_number(digits, max)
}

/// The number that at least one hexadecimal digit and nothing else spell, if
/// it is at most `max`.
pub open spec fn bounded_number(digits: Seq<u8>, max: nat) -> Option<nat> {
    if digits.len() == 0 {
        None
    } else {
        match hex_number(digits) {
            Some(n) => if n <= max {
                Some(n)
            } else {
                None
            },
            None => None,
        }
    }
}

/// The hexadecimal numeral of `n`, in lower case and without leading zeros.
pub open spec fn hex_numeral(n: nat) -> Seq<char>
    decreases n,
{
    if n < 16 {
        seq![digit_char(n as int)]
    } else {
        hex_numeral(n / 16).push(digit_char((n % 16) as int))
    }
}

/// The bytes that hexadecimal digits spell, two digits for each byte. There
/// are none if the digits are odd in number or one of them is no digit.
pub open spec fn hex_bytes(digits: Seq<u8>) -> Option<Seq<u8>> {
    if digits.len() % 2 == 0 && (forall|i: int|
        0 <= i < digits.len() ==> hex_digit_value(#[trigger] digits[i]) is Some) {
        Some(
            Seq::new(
                digits.len() / 2,
                |i: int|
                    (16 * hex_digit_value(digits[2 * i]).unwrap() + hex_digit_value(
                        digits[2 * i + 1],
                    ).unwrap()) as u8,
            ),
        )
    } else {
        None
    }
}

/// The hash that a text spells: `0x` and then sixty-four hexadecimal digits.
pub open spec fn spec_parse_hash(text: Seq<u8>) -> Option<Seq<u8>> {
    if text.len() == 66 && text[0] == 48 && text[1] == 120 {
        hex_bytes(text.skip(2))
    } else {
        None
    }
}

/// The digits of a number that is spelt in full spell a number that is no
/// smaller than the one that the first of them spell.
proof fn lemma_hex_number_grows(digits: Seq<u8>, k: int)
    requires
        0 <= k <= digits.len(),
        hex_number(digits) is Some,
    ensures
        hex_number(digits.take(k)) is Some,
        hex_number(digits.take(k)).unwrap() <= hex_number(digits).unwrap(),
    decreases digits.len(),
{
    if k == digits.len() {
        assert(digits.take(k) =~= digits);
    } else {
        assert(digits.drop_last().take(k) =~= digits.take(k));
        lemma_hex_number_grows(digits.drop_last(), k);
    }
}

fn hex_digit(digit: u8) -> (value: Option<u8>)
    ensures
        match value {
            Some(v) => hex_digit_value(digit) == Some(v as nat),
            None => hex_digit_value(digit) is None,
        },
{
    if 48 <= digit && digit <= 57 {
        Some(digit - 48)
    } else if 97 <= digit && digit <= 102 {
        Some(digit - 87)
    } else if 65 <= digit && digit <= 70 {
        Some(digit - 55)
    } else {
        None
    }
}

/// Reads a quantity that is at most `max`. See `spec_parse_quantity` for the
/// texts that spell one.
pub fn parse_quantity(text: &str, max: u128) -> (quantity: Option<u128>)
    ensures
        match quantity {
            Some(n) => spec_parse_quantity(text.spec_bytes(), max as nat) == Some(n as nat),
            None => spec_parse_quantity(text.spec_bytes(), max as nat) is None,
        },
{
    let bytes = text.as_bytes();
    let mut start: usize = 0;
    assert(bytes@.skip(0) =~= bytes@);
    while bytes.len() - start >= 2 && bytes[start] == 48 && bytes[start + 1] == 120
        invariant
            start <= bytes@.len(),
            without_prefixes(bytes@) == without_prefixes(bytes@.skip(start as int)),
        decreases bytes@.len() - start,
    {
        assert(bytes@.skip(start as int).skip(2) =~= bytes@.skip(start as int + 2));
        start = start + 2;
    }
    let ghost rest = bytes@.skip(start as int);
    if start < bytes.len() && bytes[start] == 43 {
        assert(rest.skip(1) =~= bytes@.skip(start as int + 1));
        start = start + 1;
    }
    let ghost digits = bytes@.skip(start as int);
    if start == bytes.len() {
        return None;
    }
    let mut n: u128 = 0;
    let mut i: usize = start;
    while i < bytes.len()
        invariant
            start <= i <= bytes@.len(),
            start < bytes@.len(),
            digits == bytes@.skip(start as int),
            spec_parse_quantity(text.spec_bytes(), max as nat) == bounded_number(
                digits,
                max as nat,
            ),
            hex_number(digits.take(i - start)) == Some(n as nat),
            n <= max,
        decreases bytes@.len() - i,
    {
        let ghost seen = digits.take(i - start + 1);
        assert(seen.drop_last() =~= digits.take(i - start));
        proof {
            if hex_number(digits) is Some {
                lemma_hex_number_grows(digits, i - start + 1);
            }
        }
        match hex_digit(bytes[i]) {
            None => {
                return None;
            },
            Some(d) => {
                let grown = match n.checked_mul(16) {
                    Some(shifted) => shifted.checked_add(d as u128),
                    None => None,
                };
                match grown {
                    Some(v) => {
                        if v > max {
                            return None;
                        }
                        n = v;
                    },
                    None => {
                        return None;
                    },
                }
            },
        }
        i = i + 1;
    }
    assert(digits.take(i - start) =~= digits);
    Some(n)
}

fn hex_digit_text(d: u128) -> (s: &'static str)
    requires
        d < 16,
    ensures
        s@ == seq![digit_char(d as int)],
{
    proof {
        reveal_strlit("0");
        reveal_strlit("1");
        reveal_strlit("2");
        reveal_strlit("3");
        reveal_strlit("4");
        reveal_strlit("5");
        reveal_strlit("6");
        reveal_strlit("7");
        reveal_strlit("8");
        reveal_strlit("9");
        reveal_strlit("a");
        reveal_strlit("b");
        reveal_strlit("c");
        reveal_strlit("d");
        reveal_strlit("e");
        reveal_strlit("f");
    }
    let s = if d == 0 {
        "0"
    } else if d == 1 {
        "1"
    } else if d == 2 {
        "2"
    } else if d == 3 {
        "3"
    } else if d == 4 {
        "4"
    } else if d == 5 {
        "5"
    } else if d == 6 {
        "6"
    } else if d == 7 {
        "7"
    } else if d == 8 {
        "8"
    } else if d == 9 {
        "9"
    } else if d == 10 {
        "a"
    } else if d == 11 {
        "b"
    } else if d == 12 {
        "c"
    } else if d == 13 {
        "d"
    } else if d == 14 {
        "e"
    } else {
        "f"
    };
    s
}

fn numeral(n: u128) -> (s: String)
    ensures
        s@ == hex_numeral(n as nat),
    decreases n,
{
    if n < 16 {
        String::from_str(hex_digit_text(n))
    } else {
        let mut s = numeral(n / 16);
        s.append(hex_digit_text(n % 16));
        s
    }
}

/// Writes a quantity: `0x` and then its hexadecimal numeral.
pub fn quantity(n: u128) -> (text: String)
    ensures
        text@ == "0x"@ + hex_numeral(n as nat),
{
    let digits = numeral(n);
    join("0x", digits.as_str())
}

/// Why `hex::decode` failed. Nothing is read from it.
#[verifier::external_type_specification]
#[verifier::external_body]
pub struct ExFromHexError(hex::FromHexError);

/// Calls `hex::decode`, which reads two hexadecimal digits, upper or lower
/// case, for each byte, the high nibble first, and fails if the digits are
/// odd in number or one of them is no digit.
#[verifier::external_body]
fn hex_decode(digits: &[u8]) -> (bytes: Result<Vec<u8>, hex::FromHexError>)
    ensures
        match bytes {
            Ok(b) => hex_bytes(digits@) == Some(b@),
            Err(_) => hex_bytes(digits@) is None,
        },
{
    hex::decode(digits)
}

/// Reads a hash. See `spec_parse_hash` for the texts that spell one.
pub fn parse_hash(text: &str) -> (hash: Option<[u8; 32]>)
    ensures
        match hash {
            Some(h) => spec_parse_hash(text.spec_bytes()) == Some(h@),
            None => spec_parse_hash(text.spec_bytes()) is None,
        },
{
    let bytes = text.as_bytes();
    if bytes.len() != 66 || bytes[0] != 48 || bytes[1] != 120 {
        return None;
    }
    let digits = slice_subrange(bytes, 2, 66);
    match hex_decode(digits) {
        Err(_) => None,
        Ok(decoded) => {
            let mut hash: [u8; 32] = [0u8;32];
            let mut i: usize = 0;
            while i < 32
                invariant
                    i <= 32,
                    decoded@.len() == 32,
                    forall|j: int| 0 <= j < i ==> hash@[j] == decoded@[j],
                decreases 32 - i,
            {
                hash[i] = decoded[i];
                i = i + 1;
            }
            Some(hash)
        },
    }
}

/// Writes a hash: `0x` and then its sixty-four hexadecimal digits.
pub fn hash(bytes: &[u8; 32]) -> (text: String)
    ensures
        text@ == "0x"@ + hex_digits(bytes@),
{
    let digits = hex_encode(bytes.as_slice());
    join("0x", digits.as_str())
}

} // verus!
