//! Hexadecimal wire codec for record payloads.
//!
//! Payloads may hold spaces and newlines, which the line-oriented protocol
//! cannot carry verbatim; they therefore travel as the hex rendering of
//! their UTF-8 bytes.  `encode_utf8_to_hex` maps each byte of the UTF-8
//! encoding of the text to two lowercase hex digits; `decode_hex_to_utf8`
//! is the inverse and rejects odd-length input, non-hex digits, and byte
//! sequences that are not valid UTF-8.

use vstd::prelude::*;
use vstd::string::*;
use vstd::utf8::*;

verus! {

/// Why a hex payload failed to decode.
#[derive(Clone, Copy, Debug, PartialEq, Eq, Structural)]
pub enum DecodeError {
    /// The input does not split into pairs of digits.
    OddLength,
    /// A character of the input is not a hexadecimal digit.
    InvalidDigit,
    /// The decoded bytes are not a valid UTF-8 encoding.
    InvalidUtf8,
}

/// The character rendering a single hex nibble, lowercase.
pub open spec fn hex_digit(n: u8) -> char
    recommends
        n < 16,
{
    if n < 10 {
        ((n + 0x30) as u8) as char
    } else {
        ((n + 0x57) as u8) as char
    }
}

/// The two lowercase hex digits rendering one byte.
pub open spec fn hex_pair(b: u8) -> Seq<char> {
    seq![hex_digit(b / 16), hex_digit(b % 16)]
}

/// The hex rendering of a byte sequence: two digits per byte, in order.
pub open spec fn hex_of_bytes(bs: Seq<u8>) -> Seq<char>
    decreases bs.len(),
{
    if bs.len() == 0 {
        Seq::empty()
    } else {
        hex_pair(bs[0]) + hex_of_bytes(bs.drop_first())
    }
}

proof fn lemma_hex_of_bytes_push(bs: Seq<u8>, b: u8)
    ensures
        hex_of_bytes(bs.push(b)) == hex_of_bytes(bs) + hex_pair(b),
    decreases bs.len(),
{
    if bs.len() == 0 {
        assert(bs.push(b).drop_first() =~= Seq::<u8>::empty());
        assert(bs.push(b)[0] == b);
        assert(hex_of_bytes(bs.push(b)) =~= hex_pair(b) + hex_of_bytes(Seq::<u8>::empty()));
        assert(hex_of_bytes(bs.push(b)) =~= hex_pair(b));
        assert(hex_of_bytes(bs) + hex_pair(b) =~= hex_pair(b));
    } else {
        assert(bs.push(b).drop_first() =~= bs.drop_first().push(b));
        lemma_hex_of_bytes_push(bs.drop_first(), b);
        assert(hex_of_bytes(bs.push(b)) =~= hex_of_bytes(bs) + hex_pair(b));
    }
}

/// One lowercase hex digit as a string slice.
pub(crate) fn hex_digit_str(n: u8) -> (r: &'static str)
    requires
        n < 16,
    ensures
        r@ =~= seq![hex_digit(n)],
{
    proof {
        reveal_strlit("0");
        reveal_strlit("1");
        reveal_strlit("2");
        reveal_strlit("3");
        reveal_strlit("4");
        reveal_strlit("5");
        reveal_strlit("6");
        reveal_strlit("7");
        reveal_strlit("8");
        reveal_strlit("9");
        reveal_strlit("a");
        reveal_strlit("b");
        reveal_strlit("c");
        reveal_strlit("d");
        reveal_strlit("e");
        reveal_strlit("f");
    }
    match n {
        0 => "0",
        1 => "1",
        2 => "2",
        3 => "3",
        4 => "4",
        5 => "5",
        6 => "6",
        7 => "7",
        8 => "8",
        9 => "9",
        10 => "a",
        11 => "b",
        12 => "c",
        13 => "d",
        14 => "e",
        _ => "f",
    }
}

/// Renders each byte of the UTF-8 encoding of `text` as two lowercase hex
/// digits, concatenated in order.
pub fn encode_utf8_to_hex(text: &str) -> (r: String)
    ensures
        r@ == hex_of_bytes(text.spec_bytes()),
{
    let bytes = text.as_bytes();
    let mut out = String::new();
    let mut i: usize = 0;
    while i < bytes.len()
        invariant
            i <= bytes.len(),
            bytes@ == text.spec_bytes(),
            out@ == hex_of_bytes(bytes@.subrange(0, i as int)),
        decreases bytes.len() - i,
    {
        let b = bytes[i];
        let hi = hex_digit_str(b / 16);
        let lo = hex_digit_str(b % 16);
        out.append(hi);
        out.append(lo);
        proof {
            lemma_hex_of_bytes_push(bytes@.subrange(0, i as int), b);
            assert(bytes@.subrange(0, i as int).push(b) =~= bytes@.subrange(0, i + 1 as int));
            assert(out@ =~= hex_of_bytes(bytes@.subrange(0, i + 1 as int)));
        }
        i = i + 1;
    }
    proof {
        assert(bytes@.subrange(0, bytes@.len() as int) =~= bytes@);
    }
    out
}

/// The nibble a hex digit stands for; both cases are accepted.
pub open spec fn hex_val(c: char) -> Option<u8> {
    if '0' <= c && c <= '9' {
        Some(((c as u32) - 0x30) as u8)
    } else if 'a' <= c && c <= 'f' {
        Some(((c as u32) - 0x57) as u8)
    } else if 'A' <= c && c <= 'F' {
        Some(((c as u32) - 0x37) as u8)
    } else {
        None
    }
}

/// The bytes a hex string stands for: one byte for each pair of digits,
/// `None` on odd length or a non-hex character.
pub open spec fn hex_to_bytes(s: Seq<char>) -> Option<Seq<u8>>
    decreases s.len(),
{
    if s.len() == 0 {
        Some(Seq::empty())
    } else if s.len() == 1 {
        None
    } else {
        match (hex_val(s[0]), hex_val(s[1])) {
            (Some(hi), Some(lo)) => match hex_to_bytes(s.skip(2)) {
                Some(rest) => Some(seq![(hi * 16 + lo) as u8] + rest),
                None => None,
            },
            _ => None,
        }
    }
}

/// What decoding a hex string yields: the text whose UTF-8 bytes the
/// digits spell, or the first applicable error.
pub open spec fn hex_decode_spec(s: Seq<char>) -> Result<Seq<char>, DecodeError> {
    if s.len() % 2 != 0 {
        Err(DecodeError::OddLength)
    } else {
        match hex_to_bytes(s) {
            None => Err(DecodeError::InvalidDigit),
            Some(bs) => if valid_utf8(bs) {
                Ok(decode_utf8(bs))
            } else {
                Err(DecodeError::InvalidUtf8)
            },
        }
    }
}

/// The nibble a hex digit stands for, executable.
fn hex_val_exec(c: char) -> (r: Option<u8>)
    ensures
        r == hex_val(c),
{
    let u = c as u32;
    if 0x30 <= u && u <= 0x39 {
        Some((u - 0x30) as u8)
    } else if 0x61 <= u && u <= 0x66 {
        Some((u - 0x57) as u8)
    } else if 0x41 <= u && u <= 0x46 {
        Some((u - 0x37) as u8)
    } else {
        None
    }
}

/// Relies on `String::from_utf8`: it succeeds exactly on the inputs that
/// are valid UTF-8, and then returns the text those bytes encode.
#[verifier::external_body]
fn string_from_utf8(bytes: Vec<u8>) -> (r: Option<String>)
    ensures
        r is Some <==> valid_utf8(bytes@),
        r matches Some(t) ==> t@ == decode_utf8(bytes@),
{
    String::from_utf8(bytes).ok()
}

/// Parses the input two characters at a time as base-16 bytes and
/// reassembles the byte sequence as UTF-8 text.  Inverse of
/// [`encode_utf8_to_hex`].
pub fn decode_hex_to_utf8(h: &str) -> (r: Result<String, DecodeError>)
    ensures
        r is Ok <==> hex_decode_spec(h@) is Ok,
        r matches Ok(t) ==> Ok::<Seq<char>, DecodeError>(t@) == hex_decode_spec(h@),
        r matches Err(e) ==> Err::<Seq<char>, DecodeError>(e) == hex_decode_spec(h@),
{
    let ghost s = h@;
    let n = h.unicode_len();
    if n % 2 != 0 {
        return Err(DecodeError::OddLength);
    }
    let mut bytes: Vec<u8> = Vec::new();
    let mut i: usize = 0;
    proof {
        assert(s.skip(0) =~= s);
        assert(match hex_to_bytes(s) {
            Some(rest) => bytes@ + rest =~= rest,
            None => true,
        });
    }
    while i < n
        invariant
            i <= n,
            i % 2 == 0,
            n % 2 == 0,
            n == s.len(),
            s == h@,
            hex_to_bytes(s) == match hex_to_bytes(s.skip(i as int)) {
                Some(rest) => Some(bytes@ + rest),
                None => None::<Seq<u8>>,
            },
        decreases n - i,
    {
        let c0 = h.get_char(i);
        let c1 = h.get_char(i + 1);
        proof {
            assert(s.skip(i as int).len() >= 2);
            assert(s.skip(i as int)[0] == s[i as int]);
            assert(s.skip(i as int)[1] == s[i as int + 1]);
            assert(s.skip(i as int).skip(2) =~= s.skip(i as int + 2));
        }
        let hi = match hex_val_exec(c0) {
            Some(v) => v,
            None => {
                return Err(DecodeError::InvalidDigit);
            },
        };
        let lo = match hex_val_exec(c1) {
            Some(v) => v,
            None => {
                return Err(DecodeError::InvalidDigit);
            },
        };
        let b = hi * 16 + lo;
        bytes.push(b);
        proof {
            assert(match hex_to_bytes(s.skip(i as int + 2)) {
                Some(rest) => bytes@ + rest =~= bytes@.drop_last() + (seq![b] + rest),
                None => true,
            });
        }
        i = i + 2;
    }
    proof {
        assert(s.skip(n as int) =~= Seq::<char>::empty());
        assert(bytes@ + Seq::<u8>::empty() =~= bytes@);
        assert(hex_to_bytes(s) == Some(bytes@));
    }
    match string_from_utf8(bytes) {
        Some(t) => Ok(t),
        None => Err(DecodeError::InvalidUtf8),
    }
}

/// Law: the codec round-trips.  For every text `s`, decoding the hex
/// rendering of its UTF-8 bytes succeeds and returns `s` itself.
pub proof fn lemma_hex_round_trip(s: Seq<char>)
    ensures
        hex_decode_spec(hex_of_bytes(encode_utf8(s))) == Ok::<Seq<char>, DecodeError>(s),
{
    let bs = encode_utf8(s);
    lemma_hex_bytes_inverse(bs);
    encode_utf8_valid_utf8(s);
    encode_utf8_decode_utf8(s);
}

/// Hex rendering inverts digit-by-digit: parsing the rendering of any
/// byte sequence gives that sequence back, and the rendering is even.
pub proof fn lemma_hex_bytes_inverse(bs: Seq<u8>)
    ensures
        hex_of_bytes(bs).len() == 2 * bs.len(),
        hex_to_bytes(hex_of_bytes(bs)) == Some(bs),
    decreases bs.len(),
{
    if bs.len() == 0 {
        assert(hex_to_bytes(hex_of_bytes(bs)) =~= Some(Seq::<u8>::empty()));
        assert(Seq::<u8>::empty() =~= bs);
    } else {
        let b = bs[0];
        let rest = bs.drop_first();
        lemma_hex_bytes_inverse(rest);
        let h = hex_of_bytes(bs);
        lemma_hex_val_digit(b / 16);
        lemma_hex_val_digit(b % 16);
        assert(h[0] == hex_digit(b / 16));
        assert(h[1] == hex_digit(b % 16));
        assert(h.skip(2) =~= hex_of_bytes(rest));
        assert((b / 16) * 16 + (b % 16) == b) by {
            vstd::arithmetic::div_mod::lemma_fundamental_div_mod(b as int, 16);
        }
        assert(seq![b] + rest =~= bs);
    }
}

proof fn lemma_hex_val_digit(n: u8)
    requires
        n < 16,
    ensures
        hex_val(hex_digit(n)) == Some(n),
{
    if n < 10 {
        assert(hex_digit(n) as u32 == n + 0x30);
    } else {
        assert(hex_digit(n) as u32 == n + 0x57);
    }
}

} // verus!
