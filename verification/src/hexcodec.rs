//! Lowercase hex encoding and case-insensitive hex decoding, as done by the
//! `hex` crate, with the exact meaning of both stated as spec functions.

use vstd::prelude::*;
use vstd::utf8::{encode_utf8, is_ascii_chars, is_ascii_chars_encode_utf8};

verus! {

/// The lowercase hex digit for a nibble (`0..16`).
pub open spec fn hex_digit(n: u8) -> char
    recommends
        n < 16,
{
    if n < 10 {
        (48 + n) as char
    } else {
        (87 + n) as char
    }
}

/// Lowercase hex text of a byte sequence: two digits per byte, high nibble first.
pub open spec fn hex_encode_spec(bytes: Seq<u8>) -> Seq<char>
    decreases bytes.len(),
{
    if bytes.len() == 0 {
        Seq::empty()
    } else {
        seq![hex_digit(bytes[0] / 16), hex_digit(bytes[0] % 16)] + hex_encode_spec(
            bytes.drop_first(),
        )
    }
}

/// The value of one hex digit byte, upper or lower case.
pub open spec fn hex_value(c: u8) -> Option<u8> {
    if 48 <= c <= 57 {
        Some((c - 48) as u8)
    } else if 65 <= c <= 70 {
        Some((c - 55) as u8)
    } else if 97 <= c <= 102 {
        Some((c - 87) as u8)
    } else {
        None
    }
}

/// Decoding of hex text given as bytes: `None` on odd length or on any byte
/// that is not a hex digit.
pub open spec fn hex_decode_spec(text: Seq<u8>) -> Option<Seq<u8>>
    decreases text.len(),
{
    if text.len() % 2 != 0 {
        None
    } else if text.len() == 0 {
        Some(Seq::empty())
    } else {
        match (hex_value(text[0]), hex_value(text[1]), hex_decode_spec(text.subrange(2, text.len() as int))) {
            (Some(hi), Some(lo), Some(rest)) => Some(seq![(hi * 16 + lo) as u8] + rest),
            _ => None,
        }
    }
}

/// `hex::encode`: the lowercase hex text of `data`.
#[verifier::external_body]
pub(crate) fn hex_encode(data: &[u8]) -> (res: String)
    ensures
        res@ == hex_encode_spec(data@),
{
    hex::encode(data)
}

/// `hex::decode`: the bytes that hex text stands for, `None` where the crate
/// returns an error (odd length or a byte outside `0-9a-fA-F`).
#[verifier::external_body]
pub(crate) fn hex_decode(text: &[u8]) -> (res: Option<Vec<u8>>)
    ensures
        match res {
            Some(v) => hex_decode_spec(text@) == Some(v@),
            None => hex_decode_spec(text@) is None,
        },
{
    hex::decode(text).ok()
}

/// The hex text of `n` bytes has `2 * n` characters, all ASCII.
pub proof fn lemma_hex_encode_len(bytes: Seq<u8>)
    ensures
        hex_encode_spec(bytes).len() == 2 * bytes.len(),
        is_ascii_chars(hex_encode_spec(bytes)),
    decreases bytes.len(),
{
    if bytes.len() > 0 {
        lemma_hex_encode_len(bytes.drop_first());
        let e = hex_encode_spec(bytes);
        let r = hex_encode_spec(bytes.drop_first());
        assert(e =~= seq![hex_digit(bytes[0] / 16), hex_digit(bytes[0] % 16)] + r);
        assert forall|i| 0 <= i < e.len() implies '\0' <= #[trigger] e[i] <= '\u{7f}' by {
            if i >= 2 {
                assert(e[i] == r[i - 2]);
            }
        }
    }
}

/// UTF-8 bytes of hex text are its characters taken one byte each.
pub open spec fn hex_text_bytes(bytes: Seq<u8>) -> Seq<u8> {
    encode_utf8(hex_encode_spec(bytes))
}

proof fn lemma_hex_text_bytes_step(bytes: Seq<u8>)
    requires
        bytes.len() > 0,
    ensures
        hex_text_bytes(bytes) =~= seq![
            hex_digit(bytes[0] / 16) as u8,
            hex_digit(bytes[0] % 16) as u8,
        ] + hex_text_bytes(bytes.drop_first()),
{
    lemma_hex_encode_len(bytes);
    lemma_hex_encode_len(bytes.drop_first());
    let e = hex_encode_spec(bytes);
    let r = hex_encode_spec(bytes.drop_first());
    is_ascii_chars_encode_utf8(e);
    is_ascii_chars_encode_utf8(r);
    let eb = encode_utf8(e);
    let rb = encode_utf8(r);
    assert(e =~= seq![hex_digit(bytes[0] / 16), hex_digit(bytes[0] % 16)] + r);
    assert forall|i| 0 <= i < eb.len() implies eb[i] == (seq![
        hex_digit(bytes[0] / 16) as u8,
        hex_digit(bytes[0] % 16) as u8,
    ] + rb)[i] by {
        assert(eb[i] == e[i] as u8);
        if i >= 2 {
            assert(e[i] == r[i - 2]);
            assert(rb[i - 2] == r[i - 2] as u8);
        }
    }
}

proof fn lemma_digit_value(n: u8)
    requires
        n < 16,
    ensures
        hex_value(hex_digit(n) as u8) == Some(n),
{
}

/// Decoding the hex text of any bytes gives the bytes back.
pub proof fn lemma_hex_roundtrip(bytes: Seq<u8>)
    ensures
        hex_decode_spec(hex_text_bytes(bytes)) == Some(bytes),
    decreases bytes.len(),
{
    lemma_hex_encode_len(bytes);
    is_ascii_chars_encode_utf8(hex_encode_spec(bytes));
    if bytes.len() == 0 {
        assert(hex_text_bytes(bytes) =~= Seq::<u8>::empty());
    } else {
        lemma_hex_text_bytes_step(bytes);
        lemma_hex_roundtrip(bytes.drop_first());
        let t = hex_text_bytes(bytes);
        let b0 = bytes[0];
        lemma_digit_value(b0 / 16);
        lemma_digit_value(b0 % 16);
        assert(t.subrange(2, t.len() as int) =~= hex_text_bytes(bytes.drop_first()));
        assert(((b0 / 16) * 16 + b0 % 16) as u8 == b0);
        assert(seq![b0] + bytes.drop_first() =~= bytes);
    }
}

} // verus!
