//! Lowercase hex rendering and parsing of byte strings, two digits per byte.
//!
//! This is the shared textual half of the dual-mode codec: identifiers render
//! themselves through [`hex_of`] and are parsed back through [`bytes_of_hex`].
//! Parsing accepts both digit cases; rendering always emits lowercase.

use vstd::prelude::*;
use vstd::arithmetic::div_mod::lemma_fundamental_div_mod;

verus! {

/// Why decoding a textual identifier failed.
#[derive(Clone, Copy, Debug, PartialEq, Eq, Structural)]
pub enum ParseError {
    /// The input is not one of the accepted fixed lengths.
    InvalidStringLength,
    /// A character other than 0-9, a-f, A-F stood where a hex digit was expected.
    InvalidHexCharacter,
}

/// The lowercase hex digit denoting a nibble value.
pub open spec fn nibble_char(n: u8) -> char
    recommends
        n < 16,
{
    if n < 10 {
        (((n + 48) as u8) as char)
    } else {
        (((n + 87) as u8) as char)
    }
}

/// Whether a character is an ASCII hex digit, in either case.
pub open spec fn is_hex_digit(c: char) -> bool {
    (48 <= c as u32 && c as u32 <= 57) || (97 <= c as u32 && c as u32 <= 102) || (65 <= c as u32
        && c as u32 <= 70)
}

/// The nibble value denoted by a hex digit.
pub open spec fn nibble_val(c: char) -> u8
    recommends
        is_hex_digit(c),
{
    if 48 <= c as u32 && c as u32 <= 57 {
        ((c as u32 - 48) as u8)
    } else if 97 <= c as u32 && c as u32 <= 102 {
        ((c as u32 - 87) as u8)
    } else {
        ((c as u32 - 55) as u8)
    }
}

/// The two lowercase hex digits of one byte, high nibble first.
pub open spec fn byte_hex(b: u8) -> Seq<char> {
    seq![nibble_char(b / 16), nibble_char(b % 16)]
}

/// The lowercase hex rendering of a byte string: two digits per byte.
pub open spec fn hex_of(bs: Seq<u8>) -> Seq<char> {
    Seq::new(
        bs.len() * 2,
        |i: int|
            if i % 2 == 0 {
                nibble_char(bs[i / 2] / 16)
            } else {
                nibble_char(bs[i / 2] % 16)
            },
    )
}

/// Whether every character of a string is a hex digit.
pub open spec fn all_hex(s: Seq<char>) -> bool {
    forall|i: int| 0 <= i < s.len() ==> is_hex_digit(#[trigger] s[i])
}

/// The byte string denoted by an even run of hex digits.
pub open spec fn bytes_of_hex(s: Seq<char>) -> Seq<u8>
    recommends
        s.len() % 2 == 0,
        all_hex(s),
{
    Seq::new(s.len() / 2, |i: int| ((nibble_val(s[2 * i]) * 16 + nibble_val(s[2 * i + 1])) as u8))
}

/// Reading a nibble's own hex digit back yields the nibble.
pub proof fn lemma_nibble_round_trip(n: u8)
    requires
        n < 16,
    ensures
        is_hex_digit(nibble_char(n)),
        nibble_val(nibble_char(n)) == n,
{
}

/// Hex-rendering a byte string gives hex digits, two per byte, that decode
/// back to the same bytes.
pub proof fn lemma_hex_round_trip(bs: Seq<u8>)
    ensures
        hex_of(bs).len() == 2 * bs.len(),
        all_hex(hex_of(bs)),
        bytes_of_hex(hex_of(bs)) == bs,
{
    let h = hex_of(bs);
    assert forall|i: int| 0 <= i < h.len() implies is_hex_digit(#[trigger] h[i]) by {
        let b = bs[i / 2];
        lemma_nibble_round_trip(b / 16);
        lemma_nibble_round_trip(b % 16);
    }
    assert forall|i: int| 0 <= i < bs.len() implies bytes_of_hex(h)[i] == bs[i] by {
        let b = bs[i];
        lemma_nibble_round_trip(b / 16);
        lemma_nibble_round_trip(b % 16);
        assert(h[2 * i] == nibble_char(b / 16));
        assert(h[2 * i + 1] == nibble_char(b % 16));
        lemma_fundamental_div_mod(b as int, 16);
    }
    assert(bytes_of_hex(h) =~= bs);
}

/// Appending one byte extends the hex rendering by that byte's two digits.
pub proof fn lemma_hex_of_snoc(bs: Seq<u8>, b: u8)
    ensures
        hex_of(bs.push(b)) == hex_of(bs) + byte_hex(b),
{
    assert(hex_of(bs.push(b)) =~= hex_of(bs) + byte_hex(b));
}

/// Appending two digits extends the decoded byte string by one byte.
pub proof fn lemma_bytes_of_hex_snoc(s: Seq<char>, c1: char, c2: char)
    requires
        s.len() % 2 == 0,
    ensures
        bytes_of_hex(s + seq![c1, c2]) == bytes_of_hex(s).push(
            ((nibble_val(c1) * 16 + nibble_val(c2)) as u8),
        ),
{
    assert(bytes_of_hex(s + seq![c1, c2]) =~= bytes_of_hex(s).push(
        ((nibble_val(c1) * 16 + nibble_val(c2)) as u8),
    ));
}

/// Relies on String::push: appends exactly the one character.
#[verifier::external_body]
fn push_char(s: &mut String, c: char)
    ensures
        final(s)@ == old(s)@.push(c),
{
    s.push(c);
}

/// The lowercase hex digit for a nibble value.
fn nibble_to_char(n: u8) -> (c: char)
    requires
        n < 16,
    ensures
        c == nibble_char(n),
{
    if n < 10 {
        ((n + 48) as char)
    } else {
        ((n + 87) as char)
    }
}

/// The nibble value of one character, or None where it is not a hex digit.
fn char_to_nibble(c: char) -> (r: Option<u8>)
    ensures
        r is Some <==> is_hex_digit(c),
        is_hex_digit(c) ==> r == Some(nibble_val(c)),
        r matches Some(v) ==> v < 16,
{
    let v = c as u32;
    if 48 <= v && v <= 57 {
        Some((v - 48) as u8)
    } else if 97 <= v && v <= 102 {
        Some((v - 87) as u8)
    } else if 65 <= v && v <= 70 {
        Some((v - 55) as u8)
    } else {
        None
    }
}

/// Appends the two lowercase hex digits of one byte.
pub fn push_byte_hex(s: &mut String, b: u8)
    ensures
        final(s)@ == old(s)@ + byte_hex(b),
{
    let hi = nibble_to_char(b / 16);
    let lo = nibble_to_char(b % 16);
    push_char(s, hi);
    push_char(s, lo);
    proof {
        assert(s@ =~= old(s)@ + byte_hex(b));
    }
}

/// The lowercase hex string of a byte string, two digits per byte.
pub fn hex_string(bytes: &Vec<u8>) -> (s: String)
    ensures
        s@ == hex_of(bytes@),
{
    let mut s = String::new();
    let mut i: usize = 0;
    while i < bytes.len()
        invariant
            i <= bytes@.len(),
            s@ == hex_of(bytes@.subrange(0, i as int)),
        decreases bytes@.len() - i,
    {
        push_byte_hex(&mut s, bytes[i]);
        proof {
            assert(bytes@.subrange(0, i + 1 as int) =~= bytes@.subrange(0, i as int).push(
                bytes@[i as int],
            ));
            lemma_hex_of_snoc(bytes@.subrange(0, i as int), bytes@[i as int]);
        }
        i = i + 1;
    }
    proof {
        assert(bytes@.subrange(0, bytes@.len() as int) =~= bytes@);
    }
    s
}

/// Decodes `2 * n` hex characters of `s`, starting at character `start`,
/// into `n` bytes; fails on the first character that is not a hex digit.
pub fn decode_hex_chars(s: &str, start: usize, n: usize) -> (r: Result<Vec<u8>, ParseError>)
    requires
        start + 2 * n <= s@.len(),
        s@.len() <= usize::MAX,
    ensures
        all_hex(s@.subrange(start as int, start + 2 * n)) ==> (r matches Ok(v) && v@
            == bytes_of_hex(s@.subrange(start as int, start + 2 * n))),
        !all_hex(s@.subrange(start as int, start + 2 * n)) ==> r == Err::<
            Vec<u8>,
            ParseError,
        >(ParseError::InvalidHexCharacter),
{
    let ghost part = s@.subrange(start as int, start + 2 * n);
    let mut out: Vec<u8> = Vec::new();
    let mut i: usize = 0;
    while i < n
        invariant
            i <= n,
            start + 2 * n <= s@.len(),
            s@.len() <= usize::MAX,
            part == s@.subrange(start as int, start + 2 * n),
            all_hex(s@.subrange(start as int, start + 2 * i)),
            out@ == bytes_of_hex(s@.subrange(start as int, start + 2 * i)),
        decreases n - i,
    {
        let c_hi = s.get_char(start + 2 * i);
        let c_lo = s.get_char(start + 2 * i + 1);
        let hi = match char_to_nibble(c_hi) {
            Some(v) => v,
            None => {
                proof {
                    assert(!is_hex_digit(part[2 * i as int]));
                }
                return Err(ParseError::InvalidHexCharacter);
            },
        };
        let lo = match char_to_nibble(c_lo) {
            Some(v) => v,
            None => {
                proof {
                    assert(!is_hex_digit(part[2 * i + 1 as int]));
                }
                return Err(ParseError::InvalidHexCharacter);
            },
        };
        out.push(hi * 16 + lo);
        proof {
            let prefix = s@.subrange(start as int, start + 2 * i);
            assert(s@.subrange(start as int, start + 2 * (i + 1)) =~= prefix + seq![c_hi, c_lo]);
            lemma_bytes_of_hex_snoc(prefix, c_hi, c_lo);
        }
        i = i + 1;
    }
    Ok(out)
}

} // verus!
