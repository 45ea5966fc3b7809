//! Facts about UTF-8 encodings that the boundary relies on: which encodings
//! hold a NUL byte, and which slices of valid text are valid text.
use vstd::prelude::*;
use vstd::utf8::{
    encode_scalar, encode_utf8, has_width_1_encoding, has_width_2_encoding, has_width_3_encoding,
    is_char_boundary, is_char_boundary_iff_not_is_continuation_byte,
    is_char_boundary_start_end_of_seq, leading_byte_width_1, valid_utf8, valid_utf8_split,
};

verus! {

proof fn lemma_tagged_bytes_nonzero(y: u8)
    by (bit_vector)
    ensures
        0x80u8 | y != 0u8,
        0xC0u8 | y != 0u8,
        0xE0u8 | y != 0u8,
        0xF0u8 | y != 0u8,
{
}

proof fn lemma_ascii_byte(v: u32)
    by (bit_vector)
    requires
        v < 0x80u32,
    ensures
        ((v & 0x7Fu32) as u8 == 0u8) <==> v == 0u32,
{
}

/// The encoding of one character holds a NUL byte exactly when the character is NUL.
pub proof fn lemma_encode_scalar_nul(c: char)
    ensures
        encode_scalar(c as u32).contains(0u8) <==> c == '\0',
{
    let v = c as u32;
    let e = encode_scalar(v);
    if has_width_1_encoding(v) {
        lemma_ascii_byte(v);
        assert(e[0] == leading_byte_width_1(v));
        if c == '\0' {
            assert(e[0] == 0u8);
        }
        if e.contains(0u8) {
            assert(e[0] == 0u8);
            vstd::utf8::char_u32_cast(c, v);
            assert(v == 0u32);
            assert((0u32 as char) == '\0');
        }
    } else {
        lemma_tagged_bytes_nonzero(((v >> 6) & 0x1F) as u8);
        lemma_tagged_bytes_nonzero(((v >> 12) & 0x0F) as u8);
        lemma_tagged_bytes_nonzero(((v >> 18) & 0x7) as u8);
        lemma_tagged_bytes_nonzero((v & 0x3F) as u8);
        lemma_tagged_bytes_nonzero(((v >> 6) & 0x3F) as u8);
        lemma_tagged_bytes_nonzero(((v >> 12) & 0x3F) as u8);
        assert(forall|i: int| 0 <= i < e.len() ==> e[i] != 0u8);
        assert(c != '\0') by {
            if c == '\0' {
                vstd::utf8::char_u32_cast(c, v);
            }
        }
    }
}

/// A UTF-8 encoding holds a NUL byte exactly when the text holds a NUL character.
pub proof fn lemma_encode_utf8_nul(chars: Seq<char>)
    ensures
        encode_utf8(chars).contains(0u8) <==> chars.contains('\0'),
    decreases chars.len(),
{
    if chars.len() > 0 {
        let rest = chars.drop_first();
        lemma_encode_utf8_nul(rest);
        lemma_encode_scalar_nul(chars[0]);
        let head = encode_scalar(chars[0] as u32);
        let tail = encode_utf8(rest);
        assert(encode_utf8(chars) == head + tail);
        if (head + tail).contains(0u8) {
            let i = choose|i: int| 0 <= i < (head + tail).len() && (head + tail)[i] == 0u8;
            if i < head.len() {
                assert(head[i] == 0u8);
                assert(chars[0] == '\0');
            } else {
                assert(tail[i - head.len()] == 0u8);
                let j = choose|j: int| 0 <= j < rest.len() && rest[j] == '\0';
                assert(chars[j + 1] == '\0');
            }
        }
        if chars.contains('\0') {
            let j = choose|j: int| 0 <= j < chars.len() && chars[j] == '\0';
            if j == 0 {
                let i = choose|i: int| 0 <= i < head.len() && head[i] == 0u8;
                assert((head + tail)[i] == 0u8);
            } else {
                assert(rest[j - 1] == '\0');
                let i = choose|i: int| 0 <= i < tail.len() && tail[i] == 0u8;
                assert((head + tail)[head.len() + i] == 0u8);
            }
        }
    }
}

/// The bytes of valid UTF-8 text between two character boundaries are valid UTF-8.
pub proof fn lemma_slice_valid_utf8(bytes: Seq<u8>, start: int, end: int)
    requires
        valid_utf8(bytes),
        0 <= start <= end <= bytes.len(),
        is_char_boundary(bytes, start),
        is_char_boundary(bytes, end),
    ensures
        valid_utf8(bytes.subrange(start, end)),
{
    let suffix = bytes.subrange(start, bytes.len() as int);
    valid_utf8_split(bytes, start);
    if end == bytes.len() {
        assert(bytes.subrange(start, end) =~= suffix);
    } else {
        is_char_boundary_iff_not_is_continuation_byte(bytes, end);
        assert(suffix[end - start] == bytes[end]);
        is_char_boundary_iff_not_is_continuation_byte(suffix, end - start);
        valid_utf8_split(suffix, end - start);
        assert(suffix.subrange(0, end - start) =~= bytes.subrange(start, end));
    }
    is_char_boundary_start_end_of_seq(bytes);
}

} // verus!
