//! Random identifiers and seeds, from the `uuid` crate.

use vstd::prelude::*;
use crate::text::push_char;

verus! {

/// Whether `c` is a lower-case hexadecimal digit.
pub open spec fn is_lower_hex(c: char) -> bool {
    ('0' <= c && c <= '9') || ('a' <= c && c <= 'f')
}

/// Whether `s` is a version-4 UUID written in lower-case hyphenated form,
/// such as `67e55044-10b1-426f-9247-bb680e5fe0c8`.
pub open spec fn is_uuid_v4_text(s: Seq<char>) -> bool {
    &&& s.len() == 36
    &&& s[8] == '-' && s[13] == '-' && s[18] == '-' && s[23] == '-'
    &&& forall|i: int|
        0 <= i < 36 && i != 8 && i != 13 && i != 18 && i != 23 ==> is_lower_hex(#[trigger] s[i])
    &&& s[14] == '4'
    &&& (s[19] == '8' || s[19] == '9' || s[19] == 'a' || s[19] == 'b')
}

/// The 16 bytes of a fresh random UUID: `uuid::Uuid::new_v4()`, read with
/// `as_bytes`.  The crate masks the random bits so that byte 6 starts with
/// the version nibble 4 and byte 8 with the variant bits `10`; the other
/// bits are random and are not stated.
#[verifier::external_body]
fn random_uuid_bytes() -> (bytes: Vec<u8>)
    ensures
        bytes.len() == 16,
        bytes@[6] / 16 == 4,
        bytes@[8] / 64 == 2,
{
    uuid::Uuid::new_v4().as_bytes().to_vec()
}

/// The lower-case hexadecimal digit of `d` (`d < 16`).
pub open spec fn hex_char(d: nat) -> char {
    if d < 10 {
        (d + 48) as char
    } else {
        (d + 87) as char
    }
}

/// The position, among the 32 hex digits of a UUID, of character `i` of
/// its hyphenated text (which has hyphens at 8, 13, 18 and 23).
pub open spec fn digit_position(i: int) -> int {
    if i < 8 {
        i
    } else if i < 13 {
        i - 1
    } else if i < 18 {
        i - 2
    } else if i < 23 {
        i - 3
    } else {
        i - 4
    }
}

/// Character `i` of the hyphenated text of UUID bytes.
pub open spec fn uuid_char(bytes: Seq<u8>, i: int) -> char {
    if i == 8 || i == 13 || i == 18 || i == 23 {
        '-'
    } else {
        let j = digit_position(i);
        let b = bytes[j / 2];
        if j % 2 == 0 {
            hex_char((b / 16) as nat)
        } else {
            hex_char((b % 16) as nat)
        }
    }
}

/// The hyphenated lower-case text of UUID bytes, as `Uuid::to_string`
/// writes it: the 32 hex digits of the 16 bytes, high nibble first, with
/// hyphens after digits 8, 12, 16 and 20.
pub open spec fn uuid_text_spec(bytes: Seq<u8>) -> Seq<char> {
    Seq::new(36, |i: int| uuid_char(bytes, i))
}

fn hex_digit(d: u8) -> (c: char)
    requires
        d < 16,
    ensures
        c == hex_char(d as nat),
        is_lower_hex(c),
{
    if d < 10 {
        (d + 48) as char
    } else {
        (d + 87) as char
    }
}

/// The hyphenated lower-case text of the 16 bytes of a UUID.
fn uuid_text(bytes: &Vec<u8>) -> (text: String)
    requires
        bytes.len() == 16,
    ensures
        text@ == uuid_text_spec(bytes@),
{
    let mut text = String::new();
    let mut i: usize = 0;
    while i < 36
        invariant
            bytes.len() == 16,
            i <= 36,
            text@ == uuid_text_spec(bytes@).take(i as int),
        decreases 36 - i,
    {
        if i == 8 || i == 13 || i == 18 || i == 23 {
            push_char(&mut text, '-');
        } else {
            let j: usize = if i < 8 {
                i
            } else if i < 13 {
                i - 1
            } else if i < 18 {
                i - 2
            } else if i < 23 {
                i - 3
            } else {
                i - 4
            };
            let b = bytes[j / 2];
            if j % 2 == 0 {
                push_char(&mut text, hex_digit(b / 16));
            } else {
                push_char(&mut text, hex_digit(b % 16));
            }
        }
        assert(text@ =~= uuid_text_spec(bytes@).take(i + 1));
        i = i + 1;
    }
    assert(uuid_text_spec(bytes@).take(36) =~= uuid_text_spec(bytes@));
    text
}

/// A fresh random identifier: a version-4 UUID in hyphenated lower-case
/// text, as `uuid::Uuid::new_v4().to_string()` gives it.
pub(crate) fn new_uuid_text() -> (id: String)
    ensures
        is_uuid_v4_text(id@),
{
    let bytes = random_uuid_bytes();
    let text = uuid_text(&bytes);
    proof {
        let t = uuid_text_spec(bytes@);
        assert forall|i: int|
            0 <= i < 36 && i != 8 && i != 13 && i != 18 && i != 23 implies is_lower_hex(#[trigger] t[i]) by {
            let b = bytes@[digit_position(i) / 2];
            assert(b / 16 < 16 && b % 16 < 16);
        }
        let b8 = bytes@[8];
        assert(b8 / 16 == 8 || b8 / 16 == 9 || b8 / 16 == 10 || b8 / 16 == 11);
        assert(t[14] == hex_char((bytes@[6] / 16) as nat));
        assert(t[19] == hex_char((b8 / 16) as nat));
    }
    text
}

/// A random seed: the first eight bytes of a fresh version-4 UUID read as a
/// little-endian `u64`.  The version nibble of byte 6 makes bits 52 to 55
/// of the seed hold 4.
pub(crate) fn random_seed() -> (seed: u64)
    ensures
        (seed / 0x10_0000_0000_0000) % 16 == 4,
{
    let bytes = random_uuid_bytes();
    let b0 = bytes[0] as u64;
    let b1 = bytes[1] as u64;
    let b2 = bytes[2] as u64;
    let b3 = bytes[3] as u64;
    let b4 = bytes[4] as u64;
    let b5 = bytes[5] as u64;
    let b6 = bytes[6] as u64;
    let b7 = bytes[7] as u64;
    let seed = b0 | (b1 << 8) | (b2 << 16) | (b3 << 24) | (b4 << 32) | (b5 << 40) | (b6 << 48) | (b7 << 56);
    assert((seed / 0x10_0000_0000_0000) % 16 == 4) by (bit_vector)
        requires
            seed == b0 | (b1 << 8) | (b2 << 16) | (b3 << 24) | (b4 << 32) | (b5 << 40) | (b6 << 48) | (b7 << 56),
            b0 < 256 && b1 < 256 && b2 < 256 && b3 < 256 && b4 < 256 && b5 < 256 && b6 < 256 && b7 < 256,
            b6 / 16 == 4,
    ;
    seed
}

} // verus!
