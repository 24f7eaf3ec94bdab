//! Decoding of hexadecimal payloads, in place.

use vstd::prelude::*;

verus! {

/// Why a hexadecimal string could not be decoded.
#[derive(Debug, Clone, Copy, PartialEq, Eq)]
pub enum FromHexError {
    /// An invalid character was found. Valid ones are: `0...9`, `a...f`
    /// or `A...F`.
    InvalidHexCharacter,
    /// A hex string's length needs to be even, as two digits correspond to
    /// one byte.
    OddLength,
}

/// Whether `c` is one of the ASCII characters `0-9`, `a-f`, `A-F`.
pub open spec fn is_hex_digit(c: u8) -> bool {
    (0x30 <= c <= 0x39) || (0x41 <= c <= 0x46) || (0x61 <= c <= 0x66)
}

/// The value of the hexadecimal digit `c`.
pub open spec fn hex_digit_value(c: u8) -> int
    recommends
        is_hex_digit(c),
{
    if 0x30 <= c <= 0x39 {
        c - 0x30
    } else if 0x41 <= c <= 0x46 {
        c - 0x41 + 10
    } else {
        c - 0x61 + 10
    }
}

/// Every character of `s` is a hexadecimal digit.
pub open spec fn all_hex_digits(s: Seq<u8>) -> bool {
    forall|i: int| 0 <= i < s.len() ==> is_hex_digit(#[trigger] s[i])
}

/// The byte that the digits `s[2i]` and `s[2i + 1]` stand for.
pub open spec fn decoded_byte(s: Seq<u8>, i: int) -> int {
    hex_digit_value(s[2 * i]) * 16 + hex_digit_value(s[2 * i + 1])
}

/// The bytes that the hexadecimal text `s` stands for, two digits per byte,
/// the first digit the high nibble.
pub open spec fn decode_hex(s: Seq<u8>) -> Seq<u8> {
    Seq::new((s.len() / 2) as nat, |i: int| decoded_byte(s, i) as u8)
}

fn val(c: u8) -> (r: Result<u8, FromHexError>)
    ensures
        match r {
            Ok(v) => is_hex_digit(c) && v == hex_digit_value(c),
            Err(e) => !is_hex_digit(c) && e == FromHexError::InvalidHexCharacter,
        },
{
    if 0x41 <= c && c <= 0x46 {
        Ok(c - 0x41 + 10)
    } else if 0x61 <= c && c <= 0x66 {
        Ok(c - 0x61 + 10)
    } else if 0x30 <= c && c <= 0x39 {
        Ok(c - 0x30)
    } else {
        Err(FromHexError::InvalidHexCharacter)
    }
}

/// What the first half of a buffer of hexadecimal text `s` holds at index
/// `j` after it is decoded in place: the byte of the digits `s[2j]` and
/// `s[2j + 1]` where these and every digit before them are hexadecimal
/// digits (decoding stops at the first pair that holds another
/// character); otherwise `s[j]`, as it was.
pub open spec fn decoded_at(s: Seq<u8>, j: int) -> u8 {
    if all_hex_digits(s.subrange(0, 2 * j + 2)) {
        decoded_byte(s, j) as u8
    } else {
        s[j]
    }
}

/// Decodes the hexadecimal text in `hex` in place and returns the decoded
/// bytes, which occupy the first half of `hex`; the second half is left
/// as it was. An odd length is refused before anything is written.
pub fn from_hex<'a>(hex: &'a mut [u8]) -> (r: Result<&'a [u8], FromHexError>)
    ensures
        final(hex)@.len() == old(hex)@.len(),
        old(hex)@.len() % 2 != 0 ==> r == Err::<&[u8], FromHexError>(FromHexError::OddLength) && final(hex)@
            == old(hex)@,
        old(hex)@.len() % 2 == 0 ==> forall|j: int|
            0 <= j < old(hex)@.len() / 2 ==> #[trigger] final(hex)@[j] == decoded_at(old(hex)@, j),
        old(hex)@.len() % 2 == 0 ==> final(hex)@.subrange(old(hex)@.len() as int / 2, old(hex)@.len() as int)
            == old(hex)@.subrange(old(hex)@.len() as int / 2, old(hex)@.len() as int),
        old(hex)@.len() % 2 == 0 && !all_hex_digits(old(hex)@) ==> r
            == Err::<&[u8], FromHexError>(FromHexError::InvalidHexCharacter),
        old(hex)@.len() % 2 == 0 && all_hex_digits(old(hex)@) ==> {
            &&& r is Ok
            &&& r->Ok_0@ == decode_hex(old(hex)@)
            &&& final(hex)@ == decode_hex(old(hex)@) + old(hex)@.subrange(
                old(hex)@.len() as int / 2,
                old(hex)@.len() as int,
            )
        },
{
    if hex.len() % 2 != 0 {
        return Err(FromHexError::OddLength);
    }
    let len = hex.len() / 2;
    let ghost orig = hex@;
    let mut i: usize = 0;
    while i < len
        invariant
            len == orig.len() / 2,
            orig == old(hex)@,
            hex.len() == orig.len(),
            orig.len() % 2 == 0,
            hex@.len() == orig.len(),
            0 <= i <= len,
            forall|k: int| i <= k < orig.len() ==> hex@[k] == orig[k],
            forall|k: int| 0 <= k < 2 * i ==> is_hex_digit(#[trigger] orig[k]),
            forall|j: int| 0 <= j < i ==> hex@[j] == decoded_byte(orig, j) as u8,
        decreases len - i,
    {
        let hi = match val(hex[i * 2]) {
            Ok(v) => v,
            Err(e) => {
                proof {
                    lemma_decoded_stops(orig, i as int, 2 * i as int);
                    assert(hex@.subrange(len as int, orig.len() as int) =~= orig.subrange(len as int, orig.len() as int));
                }
                return Err(e);
            },
        };
        let lo = match val(hex[i * 2 + 1]) {
            Ok(v) => v,
            Err(e) => {
                proof {
                    lemma_decoded_stops(orig, i as int, 2 * i + 1);
                    assert(hex@.subrange(len as int, orig.len() as int) =~= orig.subrange(len as int, orig.len() as int));
                }
                return Err(e);
            },
        };
        assert(hi < 16 && lo < 16);
        let b: u8 = (hi << 4) | lo;
        assert(b == hi * 16 + lo) by (bit_vector)
            requires
                hi < 16u8,
                lo < 16u8,
                b == (hi << 4) | lo,
        ;
        hex[i] = b;
        i = i + 1;
    }
    proof {
        assert(hex@.subrange(len as int, orig.len() as int) =~= orig.subrange(len as int, orig.len() as int));
        assert forall|j: int| 0 <= j < len implies #[trigger] hex@[j] == decoded_at(orig, j) by {
            assert(all_hex_digits(orig.subrange(0, 2 * j + 2)));
        }
        assert(hex@ =~= decode_hex(orig) + orig.subrange(len as int, orig.len() as int));
    }
    let whole: &'a [u8] = hex;
    Ok(vstd::slice::slice_subrange(whole, 0, len))
}

/// Where the pair `i` holds a character `s[bad]` that is no hexadecimal
/// digit, and every earlier digit is one, the bytes before `i` are decoded
/// and the others are as they were.
proof fn lemma_decoded_stops(s: Seq<u8>, i: int, bad: int)
    requires
        s.len() % 2 == 0,
        0 <= i < s.len() / 2,
        bad == 2 * i || bad == 2 * i + 1,
        !is_hex_digit(s[bad]),
        forall|k: int| 0 <= k < 2 * i ==> is_hex_digit(#[trigger] s[k]),
    ensures
        !all_hex_digits(s),
        forall|j: int| 0 <= j < i ==> #[trigger] decoded_at(s, j) == decoded_byte(s, j) as u8,
        forall|j: int| i <= j < s.len() / 2 ==> #[trigger] decoded_at(s, j) == s[j],
{
    assert forall|j: int| 0 <= j < i implies #[trigger] decoded_at(s, j) == decoded_byte(s, j) as u8 by {
        assert(all_hex_digits(s.subrange(0, 2 * j + 2)));
    }
    assert forall|j: int| i <= j < s.len() / 2 implies #[trigger] decoded_at(s, j) == s[j] by {
        assert(s.subrange(0, 2 * j + 2)[bad] == s[bad]);
    }
}

} // verus!
