//! Hexadecimal and Base64 text encodings: their mathematical definitions and
//! the calls into the `hex` and `base64` crates that perform them.
use base64::Engine;
use hex::FromHex;
use vstd::prelude::*;

verus! {

// ---------------------------------------------------------------- hex

/// Whether `c` is one of `0-9`, `a-f`, `A-F`.
pub open spec fn is_hex_digit(c: char) -> bool {
    ('0' <= c && c <= '9') || ('a' <= c && c <= 'f') || ('A' <= c && c <= 'F')
}

/// The value of a hexadecimal digit.
pub open spec fn hex_digit_value(c: char) -> int {
    if '0' <= c && c <= '9' {
        c as int - '0' as int
    } else if 'a' <= c && c <= 'f' {
        c as int - 'a' as int + 10
    } else {
        c as int - 'A' as int + 10
    }
}

/// Strict hex decoding: an even number of hex digits, two per byte, high
/// nibble first; anything else has no decoding.
pub open spec fn hex_decoded(s: Seq<char>) -> Option<Seq<u8>> {
    if s.len() % 2 == 0 && forall|i: int| 0 <= i < s.len() ==> is_hex_digit(#[trigger] s[i]) {
        Some(
            Seq::new(
                (s.len() / 2) as nat,
                |i: int| (16 * hex_digit_value(s[2 * i]) + hex_digit_value(s[2 * i + 1])) as u8,
            ),
        )
    } else {
        None
    }
}

/// The lower-case hex digit for a value below 16.
pub open spec fn lower_hex_char(v: int) -> char {
    if v < 10 {
        (v + '0' as int) as char
    } else {
        (v - 10 + 'a' as int) as char
    }
}

/// Lower-case hex text of a byte sequence, two digits per byte.
pub open spec fn hex_encoded(b: Seq<u8>) -> Seq<char> {
    Seq::new(
        2 * b.len(),
        |i: int|
            lower_hex_char(
                if i % 2 == 0 {
                    b[i / 2] as int / 16
                } else {
                    b[i / 2] as int % 16
                },
            ),
    )
}

#[verifier::external_type_specification]
#[verifier::external_body]
pub struct ExFromHexError(hex::FromHexError);

/// Relies on `<Vec<u8> as hex::FromHex>::from_hex`: it fails on an odd
/// length or on a byte that is not a hex digit, and otherwise turns each pair
/// of digits into one byte, high nibble first. A character outside ASCII is
/// never a hex digit, so the statement over characters equals the one over
/// the UTF-8 bytes that the crate reads.
#[verifier::external_body]
pub(crate) fn hex_to_bytes(s: &str) -> (r: Result<Vec<u8>, hex::FromHexError>)
    ensures
        match r {
            Ok(v) => hex_decoded(s@) == Some(v@),
            Err(_) => hex_decoded(s@) is None,
        },
{
    Vec::from_hex(s)
}

/// Relies on `hex::encode`: two lower-case digits per byte, high nibble
/// first. The crate doubles the length in a `usize`, hence the bound.
#[verifier::external_body]
pub(crate) fn bytes_to_hex(b: &[u8]) -> (r: String)
    requires
        b@.len() <= usize::MAX / 2,
    ensures
        r@ == hex_encoded(b@),
{
    hex::encode(b)
}


// ---------------------------------------------------------------- base64

/// The symbol of the standard Base64 alphabet for a value below 64:
/// `A-Z`, `a-z`, `0-9`, `+`, `/`.
pub open spec fn b64_symbol(v: int) -> u8 {
    if v < 26 {
        (v + 65) as u8
    } else if v < 52 {
        (v - 26 + 97) as u8
    } else if v < 62 {
        (v - 52 + 48) as u8
    } else if v == 62 {
        43u8
    } else {
        47u8
    }
}

/// The padding symbol `=`.
pub open spec fn b64_pad() -> u8 {
    61u8
}

/// The four symbols of three bytes.
pub open spec fn b64_quad(a: u8, b: u8, c: u8) -> Seq<u8> {
    seq![
        b64_symbol(a as int / 4),
        b64_symbol((a as int % 4) * 16 + b as int / 16),
        b64_symbol((b as int % 16) * 4 + c as int / 64),
        b64_symbol(c as int % 64),
    ]
}

/// Standard Base64 text of `x` (RFC 4648, standard alphabet): three bytes to
/// four symbols; a final one or two bytes give two or three symbols, followed,
/// when `padding` holds, by `=` up to four.
pub open spec fn b64_text(x: Seq<u8>, padding: bool) -> Seq<u8>
    decreases x.len(),
{
    if x.len() == 0 {
        seq![]
    } else if x.len() == 1 {
        seq![b64_symbol(x[0] as int / 4), b64_symbol((x[0] as int % 4) * 16)] + if padding {
            seq![b64_pad(), b64_pad()]
        } else {
            seq![]
        }
    } else if x.len() == 2 {
        seq![
            b64_symbol(x[0] as int / 4),
            b64_symbol((x[0] as int % 4) * 16 + x[1] as int / 16),
            b64_symbol((x[1] as int % 16) * 4),
        ] + if padding {
            seq![b64_pad()]
        } else {
            seq![]
        }
    } else {
        b64_quad(x[0], x[1], x[2]) + b64_text(x.subrange(3, x.len() as int), padding)
    }
}

/// Length of the Base64 text of `n` bytes.
pub open spec fn b64_text_len(n: int, padding: bool) -> int {
    n / 3 * 4 + if n % 3 == 0 {
        0
    } else if padding {
        4
    } else {
        n % 3 + 1
    }
}

/// Decoding: the bytes whose Base64 text is `t`, if there are any.
pub open spec fn b64_decoded(t: Seq<u8>, padding: bool) -> Option<Seq<u8>> {
    if exists|x: Seq<u8>| b64_text(x, padding) == t {
        Some(choose|x: Seq<u8>| b64_text(x, padding) == t)
    } else {
        None
    }
}

#[verifier::external_type_specification]
#[verifier::external_body]
pub struct ExDecodeError(base64::DecodeError);

/// Relies on `base64::Engine::encode` with the `STANDARD` engine (padded) or
/// the `STANDARD_NO_PAD` engine: the standard-alphabet text of the input. The
/// crate panics when the text's length overflows a `usize`, hence the bound.
#[verifier::external_body]
pub(crate) fn base64_encode(input: &[u8], padding: bool) -> (r: Vec<u8>)
    requires
        b64_text_len(input@.len() as int, padding) <= usize::MAX,
    ensures
        r@ == b64_text(input@, padding),
{
    let engine = if padding {
        base64::engine::general_purpose::STANDARD
    } else {
        base64::engine::general_purpose::STANDARD_NO_PAD
    };
    engine.encode(input).into_bytes()
}

/// Relies on `base64::Engine::decode` with the `STANDARD` engine (padding
/// required, canonical) or the `STANDARD_NO_PAD` engine (padding refused);
/// both refuse non-zero trailing bits. So it accepts exactly the texts that
/// its own encoder produces, and returns the bytes they encode.
#[verifier::external_body]
pub(crate) fn base64_decode(text: &[u8], padding: bool) -> (r: Result<Vec<u8>, base64::DecodeError>)
    ensures
        match r {
            Ok(v) => b64_text(v@, padding) == text@,
            Err(_) => forall|x: Seq<u8>| b64_text(x, padding) != text@,
        },
{
    let engine = if padding {
        base64::engine::general_purpose::STANDARD
    } else {
        base64::engine::general_purpose::STANDARD_NO_PAD
    };
    engine.decode(text)
}

/// The value of a symbol of the standard Base64 alphabet.
spec fn b64_symbol_value(c: u8) -> int {
    if 65 <= c <= 90 {
        c - 65
    } else if 97 <= c <= 122 {
        c - 97 + 26
    } else if 48 <= c <= 57 {
        c - 48 + 52
    } else if c == 43 {
        62
    } else {
        63
    }
}

/// Bytes of one group of `k` symbols (2, 3 or 4), `k - 1` bytes.
spec fn b64_group_bytes(t: Seq<u8>, k: int) -> Seq<u8> {
    let v0 = b64_symbol_value(t[0]);
    let v1 = b64_symbol_value(t[1]);
    let v2 = b64_symbol_value(t[2]);
    let v3 = b64_symbol_value(t[3]);
    let a = (v0 * 4 + v1 / 16) as u8;
    let b = ((v1 % 16) * 16 + v2 / 4) as u8;
    let c = ((v2 % 4) * 64 + v3) as u8;
    if k == 2 {
        seq![a]
    } else if k == 3 {
        seq![a, b]
    } else {
        seq![a, b, c]
    }
}

/// Reads back the bytes of a text produced by `b64_text`.
spec fn b64_untext(t: Seq<u8>, padding: bool) -> Seq<u8>
    decreases t.len(),
{
    if t.len() < 2 {
        seq![]
    } else if !padding && t.len() == 2 {
        b64_group_bytes(t, 2)
    } else if !padding && t.len() == 3 {
        b64_group_bytes(t, 3)
    } else if t.len() < 4 {
        seq![]
    } else if padding && t.len() == 4 && t[2] == b64_pad() {
        b64_group_bytes(t, 2)
    } else if padding && t.len() == 4 && t[3] == b64_pad() {
        b64_group_bytes(t, 3)
    } else {
        b64_group_bytes(t, 4) + b64_untext(t.subrange(4, t.len() as int), padding)
    }
}

proof fn lemma_symbol_value(v: int)
    requires
        0 <= v < 64,
    ensures
        b64_symbol_value(b64_symbol(v)) == v,
        b64_symbol(v) != b64_pad(),
{
}

proof fn lemma_untext_text(x: Seq<u8>, padding: bool)
    ensures
        b64_untext(b64_text(x, padding), padding) == x,
    decreases x.len(),
{
    let t = b64_text(x, padding);
    if x.len() == 0 {
    } else if x.len() == 1 {
        let a = x[0] as int;
        lemma_symbol_value(a / 4);
        lemma_symbol_value((a % 4) * 16);
        assert(b64_group_bytes(t, 2) =~= x);
    } else if x.len() == 2 {
        let a = x[0] as int;
        let b = x[1] as int;
        lemma_symbol_value(a / 4);
        lemma_symbol_value((a % 4) * 16 + b / 16);
        lemma_symbol_value((b % 16) * 4);
        assert(b64_group_bytes(t, 3) =~= x);
    } else {
        let a = x[0] as int;
        let b = x[1] as int;
        let c = x[2] as int;
        let rest = x.subrange(3, x.len() as int);
        lemma_symbol_value(a / 4);
        lemma_symbol_value((a % 4) * 16 + b / 16);
        lemma_symbol_value((b % 16) * 4 + c / 64);
        lemma_symbol_value(c % 64);
        lemma_untext_text(rest, padding);
        lemma_text_len(rest, padding);
        assert(t.subrange(4, t.len() as int) =~= b64_text(rest, padding));
        assert(b64_group_bytes(t, 4) =~= x.subrange(0, 3));
        assert(x =~= x.subrange(0, 3) + rest);
    }
}

/// The Base64 text of `x` has `b64_text_len` symbols.
pub proof fn lemma_text_len(x: Seq<u8>, padding: bool)
    ensures
        b64_text(x, padding).len() == b64_text_len(x.len() as int, padding),
    decreases x.len(),
{
    if x.len() >= 3 {
        lemma_text_len(x.subrange(3, x.len() as int), padding);
    }
}

/// Distinct byte sequences have distinct Base64 texts.
pub proof fn lemma_text_injective(x: Seq<u8>, y: Seq<u8>, padding: bool)
    requires
        b64_text(x, padding) == b64_text(y, padding),
    ensures
        x == y,
{
    lemma_untext_text(x, padding);
    lemma_untext_text(y, padding);
}

/// Decoding the Base64 text of `x` gives back `x`.
pub proof fn lemma_decode_text(x: Seq<u8>, padding: bool)
    ensures
        b64_decoded(b64_text(x, padding), padding) == Some(x),
{
    let t = b64_text(x, padding);
    assert(b64_text(x, padding) == t);
    let y = choose|y: Seq<u8>| b64_text(y, padding) == t;
    lemma_text_injective(x, y, padding);
}

} // verus!
