//! Hexadecimal and Base64 text encodings of byte strings.
//!
//! File contents, password hashes, salts and session tokens are kept as
//! upper-case hexadecimal text; a file is shown to the browser in standard
//! Base64. The encoders themselves are those of `data_encoding` and `base64`.
use vstd::prelude::*;
use vstd::utf8::*;

verus! {

/// The upper-case hexadecimal symbol of a value below sixteen.
pub open spec fn hex_symbol(v: int) -> char {
    if v < 10 {
        (48 + v) as char
    } else {
        (55 + v) as char
    }
}

/// Upper-case hexadecimal text of a byte string: two symbols per byte, high
/// half first.
pub open spec fn hex_upper(data: Seq<u8>) -> Seq<char> {
    Seq::new(
        2 * data.len(),
        |i: int|
            if i % 2 == 0 {
                hex_symbol((data[i / 2] / 16) as int)
            } else {
                hex_symbol((data[i / 2] % 16) as int)
            },
    )
}

/// Is the byte one of `0`-`9`, `A`-`F`?
pub open spec fn is_hex_byte(b: u8) -> bool {
    (48 <= b <= 57) || (65 <= b <= 70)
}

/// The value of a hexadecimal symbol byte.
pub open spec fn hex_byte_value(b: u8) -> int {
    if b <= 57 {
        b - 48
    } else {
        b - 55
    }
}

/// Bytes that the upper-case hexadecimal decoder accepts: an even number of
/// symbols `0`-`9`, `A`-`F`.
pub open spec fn is_hex_upper_bytes(text: Seq<u8>) -> bool {
    &&& text.len() % 2 == 0
    &&& forall|i: int| 0 <= i < text.len() ==> is_hex_byte(#[trigger] text[i])
}

/// The bytes that accepted hexadecimal input stands for.
pub open spec fn hex_decode_bytes(text: Seq<u8>) -> Seq<u8> {
    Seq::new(
        text.len() / 2,
        |i: int| (16 * hex_byte_value(text[2 * i]) + hex_byte_value(text[2 * i + 1])) as u8,
    )
}

/// Is the character one of `0`-`9`, `A`-`F`?
pub open spec fn is_hex_char(c: char) -> bool {
    ('0' <= c <= '9') || ('A' <= c <= 'F')
}

/// The value of a hexadecimal symbol character.
pub open spec fn hex_char_value(c: char) -> int {
    if c <= '9' {
        c as int - 48
    } else {
        c as int - 55
    }
}

/// Text that is upper-case hexadecimal: an even number of symbols `0`-`9`,
/// `A`-`F`.
pub open spec fn is_hex_upper_text(text: Seq<char>) -> bool {
    &&& text.len() % 2 == 0
    &&& forall|i: int| 0 <= i < text.len() ==> is_hex_char(#[trigger] text[i])
}

/// The bytes that upper-case hexadecimal text stands for.
pub open spec fn hex_decode_text(text: Seq<char>) -> Seq<u8> {
    Seq::new(
        text.len() / 2,
        |i: int| (16 * hex_char_value(text[2 * i]) + hex_char_value(text[2 * i + 1])) as u8,
    )
}

/// The standard Base64 symbol of a value below 64.
pub open spec fn base64_symbol(v: int) -> char {
    if v < 26 {
        (65 + v) as char
    } else if v < 52 {
        (71 + v) as char
    } else if v < 62 {
        (v - 4) as char
    } else if v == 62 {
        '+'
    } else {
        '/'
    }
}

/// Standard Base64 (RFC 4648, alphabet `A-Za-z0-9+/`, padded with `=`): each
/// group of three bytes becomes four symbols; a last group of one or two bytes
/// is completed with zero bits and `=`.
pub open spec fn base64_standard(d: Seq<u8>) -> Seq<char> {
    Seq::new(
        ((d.len() + 2) / 3 * 4) as nat,
        |i: int|
            {
                let g = i / 4;
                let k = i % 4;
                let b0 = d[3 * g] as int;
                let b1 = if 3 * g + 1 < d.len() {
                    d[3 * g + 1] as int
                } else {
                    0
                };
                let b2 = if 3 * g + 2 < d.len() {
                    d[3 * g + 2] as int
                } else {
                    0
                };
                if k == 0 {
                    base64_symbol(b0 / 4)
                } else if k == 1 {
                    base64_symbol((b0 % 4) * 16 + b1 / 16)
                } else if k == 2 {
                    if 3 * g + 1 < d.len() {
                        base64_symbol((b1 % 16) * 4 + b2 / 64)
                    } else {
                        '='
                    }
                } else {
                    if 3 * g + 2 < d.len() {
                        base64_symbol(b2 % 64)
                    } else {
                        '='
                    }
                }
            },
    )
}

#[verifier::external_type_specification]
#[verifier::external_body]
pub struct ExDecodeError(data_encoding::DecodeError);

/// `data_encoding::HEXUPPER.encode`: two upper-case hexadecimal symbols per
/// byte, high half first, as the crate documents. The crate asserts that the
/// input is at most `usize::MAX / 512` bytes long.
#[verifier::external_body]
pub(crate) fn hexupper_encode(data: &[u8]) -> (r: String)
    requires
        data@.len() <= usize::MAX / 512,
    ensures
        r@ == hex_upper(data@),
{
    data_encoding::HEXUPPER.encode(data)
}

/// `data_encoding::HEXUPPER.decode`: accepts exactly an even number of the
/// symbols `0`-`9`, `A`-`F` (lower case is refused by this encoding) and gives
/// one byte per pair of symbols. The crate asserts that the input is at most
/// `usize::MAX / 8` bytes long.
#[verifier::external_body]
pub(crate) fn hexupper_decode(text: &[u8]) -> (r: Result<Vec<u8>, data_encoding::DecodeError>)
    requires
        text@.len() <= usize::MAX / 8,
    ensures
        r is Ok <==> is_hex_upper_bytes(text@),
        r matches Ok(v) ==> v@ == hex_decode_bytes(text@),
{
    data_encoding::HEXUPPER.decode(text)
}

/// `base64::engine::general_purpose::STANDARD.encode`: standard padded
/// Base64. The crate panics when the length of the output does not fit in a
/// `usize`.
#[verifier::external_body]
pub(crate) fn base64_encode(data: &[u8]) -> (r: String)
    requires
        (data@.len() + 2) / 3 * 4 <= usize::MAX,
    ensures
        r@ == base64_standard(data@),
{
    base64::Engine::encode(&base64::engine::general_purpose::STANDARD, data)
}

proof fn lemma_leading_bytes_high(v: u32)
    ensures
        (0xC0u8 | ((v >> 6) & 0x1F) as u8) >= 0x80,
        (0xE0u8 | ((v >> 12) & 0x0F) as u8) >= 0x80,
        (0xF0u8 | ((v >> 18) & 0x7) as u8) >= 0x80,
{
    assert((0xC0u8 | ((v >> 6) & 0x1F) as u8) >= 0x80) by (bit_vector);
    assert((0xE0u8 | ((v >> 12) & 0x0F) as u8) >= 0x80) by (bit_vector);
    assert((0xF0u8 | ((v >> 18) & 0x7) as u8) >= 0x80) by (bit_vector);
}

proof fn lemma_char_ascii(c: char)
    requires
        (c as u32) <= 0x7f,
    ensures
        '\0' <= c <= '\u{7f}',
{
}

/// Text whose UTF-8 bytes are all below 0x80 is ASCII.
proof fn lemma_low_bytes_ascii(chars: Seq<char>)
    requires
        forall|i: int|
            0 <= i < encode_utf8(chars).len() ==> #[trigger] encode_utf8(chars)[i] < 0x80,
    ensures
        is_ascii_chars(chars),
    decreases chars.len(),
{
    if chars.len() > 0 {
        let c0 = chars[0] as u32;
        let head = encode_scalar(c0);
        let rest = chars.drop_first();
        assert(encode_utf8(chars) == head + encode_utf8(rest));
        assert(head.len() >= 1);
        assert(head[0] == encode_utf8(chars)[0]);
        lemma_leading_bytes_high(c0);
        assert(has_width_1_encoding(c0));
        assert forall|i: int| 0 <= i < encode_utf8(rest).len() implies #[trigger] encode_utf8(
            rest,
        )[i] < 0x80 by {
            assert(encode_utf8(rest)[i] == encode_utf8(chars)[i + head.len()]);
        }
        lemma_low_bytes_ascii(rest);
        assert forall|i: int| 0 <= i < chars.len() implies '\0' <= #[trigger] chars[i] <= '\u{7f}' by {
            if i > 0 {
                assert(chars[i] == rest[i - 1]);
                assert('\0' <= rest[i - 1] <= '\u{7f}');
            } else {
                assert(c0 <= 0x7f);
                lemma_char_ascii(chars[0]);
            }
        }
    }
}

/// The hexadecimal decoder accepts the UTF-8 bytes of a text exactly when the
/// text is upper-case hexadecimal, and decodes them alike.
pub proof fn lemma_hex_text_bytes(text: Seq<char>)
    ensures
        is_hex_upper_bytes(encode_utf8(text)) <==> is_hex_upper_text(text),
        is_hex_upper_text(text) ==> hex_decode_bytes(encode_utf8(text)) == hex_decode_text(text),
{
    let bytes = encode_utf8(text);
    if is_hex_upper_bytes(bytes) {
        assert forall|i: int| 0 <= i < bytes.len() implies #[trigger] bytes[i] < 0x80 by {
            assert(is_hex_byte(bytes[i]));
        }
        lemma_low_bytes_ascii(text);
    }
    if is_hex_upper_text(text) {
        assert(is_ascii_chars(text));
    }
    if is_ascii_chars(text) {
        is_ascii_chars_encode_utf8(text);
        assert forall|i: int| 0 <= i < text.len() implies (is_hex_byte(#[trigger] bytes[i])
            <==> is_hex_char(text[i])) && hex_byte_value(bytes[i]) == hex_char_value(text[i]) by {
            assert(text[i] as u8 == bytes[i]);
        }
        if is_hex_upper_text(text) {
            assert(hex_decode_bytes(bytes) =~= hex_decode_text(text));
        }
    }
}

/// Decoding the hexadecimal text of any bytes gives those bytes back.
pub proof fn lemma_hex_roundtrip(data: Seq<u8>)
    ensures
        is_hex_upper_text(hex_upper(data)),
        hex_decode_text(hex_upper(data)) == data,
{
    let t = hex_upper(data);
    assert forall|i: int| 0 <= i < t.len() implies is_hex_char(#[trigger] t[i]) by {}
    assert forall|i: int| 0 <= i < data.len() implies #[trigger] hex_decode_text(t)[i]
        == data[i] by {
        assert(t[2 * i] == hex_symbol((data[i] / 16) as int));
        assert(t[2 * i + 1] == hex_symbol((data[i] % 16) as int));
    }
    assert(hex_decode_text(t) =~= data);
}

/// Different bytes have different hexadecimal texts.
pub proof fn lemma_hex_injective(a: Seq<u8>, b: Seq<u8>)
    ensures
        hex_upper(a) == hex_upper(b) <==> a == b,
{
    if hex_upper(a) == hex_upper(b) {
        lemma_hex_roundtrip(a);
        lemma_hex_roundtrip(b);
    }
}

/// Upper-case hexadecimal text is the encoding of what it decodes to.
pub proof fn lemma_hex_reencode(text: Seq<char>)
    requires
        is_hex_upper_text(text),
    ensures
        hex_upper(hex_decode_text(text)) == text,
{
    let d = hex_decode_text(text);
    assert forall|i: int| 0 <= i < text.len() implies #[trigger] hex_upper(d)[i] == text[i] by {
        let j = i / 2;
        assert(is_hex_char(text[2 * j]));
        assert(is_hex_char(text[2 * j + 1]));
        assert(0 <= hex_char_value(text[2 * j]) < 16);
        assert(0 <= hex_char_value(text[2 * j + 1]) < 16);
        assert(d[j] as int == 16 * hex_char_value(text[2 * j]) + hex_char_value(text[2 * j + 1]));
    }
    assert(hex_upper(d) =~= text);
}

/// Decodes upper-case hexadecimal text; `None` when the decoder refuses it.
pub fn decode_hex_text(text: &str) -> (r: Option<Vec<u8>>)
    requires
        encode_utf8(text@).len() <= usize::MAX / 8,
    ensures
        r is Some <==> is_hex_upper_text(text@),
        r matches Some(v) ==> v@ == hex_decode_text(text@),
        r matches Some(v) ==> v@.len() == encode_utf8(text@).len() / 2,
{
    proof {
        lemma_hex_text_bytes(text@);
    }
    match hexupper_decode(text.as_bytes()) {
        Ok(v) => Some(v),
        Err(_) => None,
    }
}

} // verus!
