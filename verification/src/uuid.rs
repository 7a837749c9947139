//! Record identifier generation.
//!
//! Identifiers are version-4 UUIDs: sixteen random bytes, with the high
//! nibble of byte 6 forced to `4` (the version) and the two high bits of
//! byte 8 forced to `10` (the RFC 4122 variant), rendered as lowercase hex
//! in hyphenated groups of 8, 4, 4, 4 and 12 digits.  Uniqueness is
//! probabilistic only: a collision silently overwrites.

use crate::hex::{hex_digit, hex_pair};
use vstd::prelude::*;
use vstd::string::*;

verus! {

/// Byte `i` of the identifier: the drawn byte, except that byte 6 carries
/// the version nibble and byte 8 the variant bits.
pub open spec fn uuid_byte(bytes: Seq<u8>, i: int) -> u8
    recommends
        bytes.len() == 16,
        0 <= i < 16,
{
    if i == 6 {
        (bytes[6] & 0x0f) | 0x40
    } else if i == 8 {
        (bytes[8] & 0x3f) | 0x80
    } else {
        bytes[i]
    }
}

/// The hex rendering of identifier bytes `from .. to`.
pub open spec fn uuid_hex_range(bytes: Seq<u8>, from: int, to: int) -> Seq<char>
    decreases to - from,
{
    if from >= to {
        Seq::empty()
    } else {
        hex_pair(uuid_byte(bytes, from)) + uuid_hex_range(bytes, from + 1, to)
    }
}

/// The identifier rendered from sixteen drawn bytes.
pub open spec fn uuid_of(bytes: Seq<u8>) -> Seq<char>
    recommends
        bytes.len() == 16,
{
    uuid_hex_range(bytes, 0, 4) + seq!['-'] + uuid_hex_range(bytes, 4, 6) + seq!['-']
        + uuid_hex_range(bytes, 6, 8) + seq!['-'] + uuid_hex_range(bytes, 8, 10) + seq!['-']
        + uuid_hex_range(bytes, 10, 16)
}

/// A lowercase hexadecimal digit.
pub open spec fn is_hex_lower(c: char) -> bool {
    ('0' <= c && c <= '9') || ('a' <= c && c <= 'f')
}

/// The fixed version-4 UUID shape: 36 characters, hyphens at positions
/// 8, 13, 18 and 23, lowercase hex digits elsewhere, the version digit
/// `4` at position 14, and a variant digit of `8`, `9`, `a` or `b` at
/// position 19.
pub open spec fn is_uuid_v4(s: Seq<char>) -> bool {
    &&& s.len() == 36
    &&& forall|i: int|
        0 <= i < 36 ==> (if i == 8 || i == 13 || i == 18 || i == 23 {
            #[trigger] s[i] == '-'
        } else {
            is_hex_lower(s[i])
        })
    &&& s[14] == '4'
    &&& s[19] == '8' || s[19] == '9' || s[19] == 'a' || s[19] == 'b'
}

proof fn lemma_hex_digit_lower(n: u8)
    requires
        n < 16,
    ensures
        is_hex_lower(hex_digit(n)),
{
    if n < 10 {
        assert(hex_digit(n) as u32 == n + 0x30);
    } else {
        assert(hex_digit(n) as u32 == n + 0x57);
    }
}

proof fn lemma_uuid_hex_range_props(bytes: Seq<u8>, from: int, to: int)
    requires
        bytes.len() == 16,
        0 <= from <= to <= 16,
    ensures
        uuid_hex_range(bytes, from, to).len() == 2 * (to - from),
        forall|j: int|
            0 <= j < 2 * (to - from) ==> is_hex_lower(#[trigger] uuid_hex_range(bytes, from, to)[j]),
        from < to ==> uuid_hex_range(bytes, from, to)[0] == hex_digit(uuid_byte(bytes, from) / 16),
    decreases to - from,
{
    if from < to {
        lemma_uuid_hex_range_props(bytes, from + 1, to);
        lemma_hex_digit_lower(uuid_byte(bytes, from) / 16);
        lemma_hex_digit_lower(uuid_byte(bytes, from) % 16);
    }
}

/// Law: the rendering of any sixteen drawn bytes has the fixed version-4
/// UUID shape, whatever the bytes were.
pub proof fn lemma_uuid_v4_format(bytes: Seq<u8>)
    requires
        bytes.len() == 16,
    ensures
        is_uuid_v4(uuid_of(bytes)),
{
    let s = uuid_of(bytes);
    lemma_uuid_hex_range_props(bytes, 0, 4);
    lemma_uuid_hex_range_props(bytes, 4, 6);
    lemma_uuid_hex_range_props(bytes, 6, 8);
    lemma_uuid_hex_range_props(bytes, 8, 10);
    lemma_uuid_hex_range_props(bytes, 10, 16);
    assert(s.len() == 36);
    assert(s[14] == hex_digit(uuid_byte(bytes, 6) / 16));
    let b6 = bytes[6];
    assert(((b6 & 0x0f) | 0x40) / 16 == 4) by (bit_vector);
    assert(hex_digit(4) as u32 == 0x34);
    assert(s[19] == hex_digit(uuid_byte(bytes, 8) / 16));
    let b8 = bytes[8];
    assert({
        let v = ((b8 & 0x3f) | 0x80) / 16;
        v == 8 || v == 9 || v == 10 || v == 11
    }) by (bit_vector);
    assert(hex_digit(8) as u32 == 0x38);
    assert(hex_digit(9) as u32 == 0x39);
    assert(hex_digit(10) as u32 == 0x61);
    assert(hex_digit(11) as u32 == 0x62);
}

fn hyphen_str() -> (r: &'static str)
    ensures
        r@ =~= seq!['-'],
{
    proof {
        reveal_strlit("-");
    }
    "-"
}

/// Appends the hex rendering of identifier bytes `from .. to`.
fn append_uuid_range(out: &mut String, bytes: &[u8; 16], from: usize, to: usize)
    requires
        from <= to <= 16,
    ensures
        final(out)@ == old(out)@ + uuid_hex_range(bytes@, from as int, to as int),
{
    let mut i = from;
    proof {
        assert(old(out)@ + Seq::<char>::empty() =~= old(out)@);
    }
    while i < to
        invariant
            from <= i <= to <= 16,
            out@ == old(out)@ + uuid_hex_range(bytes@, from as int, i as int),
        decreases to - i,
    {
        let b = bytes[i];
        let adjusted: u8 = if i == 6 {
            (b & 0x0f) | 0x40
        } else if i == 8 {
            (b & 0x3f) | 0x80
        } else {
            b
        };
        assert(adjusted == uuid_byte(bytes@, i as int));
        let hi = crate::hex::hex_digit_str(adjusted / 16);
        let lo = crate::hex::hex_digit_str(adjusted % 16);
        out.append(hi);
        out.append(lo);
        proof {
            lemma_uuid_range_snoc(bytes@, from as int, i as int);
            assert(out@ =~= old(out)@ + uuid_hex_range(bytes@, from as int, i as int + 1));
        }
        i = i + 1;
    }
}

proof fn lemma_uuid_range_snoc(bytes: Seq<u8>, from: int, i: int)
    requires
        from <= i,
    ensures
        uuid_hex_range(bytes, from, i + 1) =~= uuid_hex_range(bytes, from, i) + hex_pair(
            uuid_byte(bytes, i),
        ),
    decreases i - from,
{
    if from < i {
        lemma_uuid_range_snoc(bytes, from + 1, i);
        assert(uuid_hex_range(bytes, from, i + 1) =~= hex_pair(uuid_byte(bytes, from)) + (
        uuid_hex_range(bytes, from + 1, i) + hex_pair(uuid_byte(bytes, i))));
        assert(uuid_hex_range(bytes, from, i + 1) =~= uuid_hex_range(bytes, from, i) + hex_pair(
            uuid_byte(bytes, i),
        ));
    } else {
        assert(uuid_hex_range(bytes, i + 1, i + 1) =~= Seq::<char>::empty());
        assert(uuid_hex_range(bytes, from, i + 1) =~= hex_pair(uuid_byte(bytes, i)));
        assert(uuid_hex_range(bytes, from, i) + hex_pair(uuid_byte(bytes, i)) =~= hex_pair(
            uuid_byte(bytes, i),
        ));
    }
}

/// Renders sixteen drawn bytes as a version-4 UUID string, forcing the
/// version and variant bits.
pub fn format_v4_uuid(bytes: &[u8; 16]) -> (r: String)
    ensures
        r@ == uuid_of(bytes@),
        is_uuid_v4(r@),
{
    let mut out = String::new();
    append_uuid_range(&mut out, bytes, 0, 4);
    out.append(hyphen_str());
    append_uuid_range(&mut out, bytes, 4, 6);
    out.append(hyphen_str());
    append_uuid_range(&mut out, bytes, 6, 8);
    out.append(hyphen_str());
    append_uuid_range(&mut out, bytes, 8, 10);
    out.append(hyphen_str());
    append_uuid_range(&mut out, bytes, 10, 16);
    proof {
        assert(out@ =~= uuid_of(bytes@));
        lemma_uuid_v4_format(bytes@);
    }
    out
}

/// Relies on `rand::random`: sixteen bytes from the thread-local
/// generator.  Nothing is assumed of their values.
#[verifier::external_body]
fn random_bytes() -> (r: [u8; 16]) {
    rand::random::<[u8; 16]>()
}

/// Draws sixteen random bytes and renders them as a fresh record
/// identifier.  Every result has the version-4 UUID shape; distinctness
/// of successive results is only probabilistic.
pub fn generate_v4_uuid() -> (r: String)
    ensures
        is_uuid_v4(r@),
{
    let bytes = random_bytes();
    format_v4_uuid(&bytes)
}

} // verus!
