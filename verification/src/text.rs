//! What the UTF-8 bytes of a text say about its characters.

use vstd::prelude::*;
use vstd::utf8::*;

verus! {

/// The bytes of one character: a character below 128 has the one byte of its
/// number, and every byte of any other character is 128 or more.
pub proof fn char_bytes(c: char)
    ensures
        encode_scalar(c as u32).len() >= 1,
        (c as u32) < 128 ==> encode_scalar(c as u32) =~= seq![(c as u32) as u8],
        (c as u32) < 128 ==> ((c as u32) as u8) as u32 == c as u32,
        (c as u32) >= 128 ==> forall|i: int|
            0 <= i < encode_scalar(c as u32).len() ==> #[trigger] encode_scalar(c as u32)[i]
                >= 128,
{
    char_is_scalar(c);
    let s = c as u32;
    if has_width_1_encoding(s) {
        assert((s & 0x7F) as u8 == s as u8 && (s as u8) as u32 == s) by (bit_vector)
            requires
                s <= 0x7F,
        ;
    } else {
        assert(0xC0u8 | (((s >> 6) & 0x1F) as u8) >= 128) by (bit_vector);
        assert(0xE0u8 | (((s >> 12) & 0x0F) as u8) >= 128) by (bit_vector);
        assert(0xF0u8 | (((s >> 18) & 0x7) as u8) >= 128) by (bit_vector);
        assert(0x80u8 | ((s & 0x3F) as u8) >= 128) by (bit_vector);
        assert(0x80u8 | (((s >> 6) & 0x3F) as u8) >= 128) by (bit_vector);
        assert(0x80u8 | (((s >> 12) & 0x3F) as u8) >= 128) by (bit_vector);
    }
}

/// Two characters of one number are one character.
pub proof fn char_by_number(a: char, b: char)
    requires
        a as u32 == b as u32,
    ensures
        a == b,
{
    char_u32_cast(a, a as u32);
    char_u32_cast(b, a as u32);
}

/// A text has bytes exactly if it has characters, and its first byte is that
/// of a given character below 128 exactly if that is its first character.
pub proof fn first_byte(text: Seq<char>, c: char)
    requires
        (c as u32) < 128,
    ensures
        encode_utf8(text).len() > 0 <==> text.len() > 0,
        text.len() > 0 ==> (encode_utf8(text)[0] == (c as u32) as u8 <==> text[0] == c),
{
    if text.len() > 0 {
        char_bytes(text[0]);
        char_bytes(c);
        let head = encode_scalar(text[0] as u32);
        assert(encode_utf8(text)[0] == head[0]);
        if text[0] as u32 == c as u32 {
            char_by_number(text[0], c);
        }
    }
}

/// The bytes of a text hold a zero byte exactly if the text holds the
/// character of number zero.
pub proof fn zero_byte_iff_nul(text: Seq<char>)
    ensures
        encode_utf8(text).contains(0u8) <==> text.contains('\0'),
    decreases text.len(),
{
    if text.len() > 0 {
        let head = encode_scalar(text[0] as u32);
        let rest = text.drop_first();
        let tail = encode_utf8(rest);
        let bytes = encode_utf8(text);
        char_bytes(text[0]);
        zero_byte_iff_nul(rest);
        assert(bytes =~= head + tail);
        if bytes.contains(0u8) {
            let i = choose|i: int| 0 <= i < bytes.len() && bytes[i] == 0u8;
            if i < head.len() {
                assert(head[i] == 0u8);
                assert(text[0] as u32 == 0);
                char_by_number(text[0], '\0');
            } else {
                assert(tail[i - head.len()] == 0u8);
                assert(tail.contains(0u8));
                let j = choose|j: int| 0 <= j < rest.len() && rest[j] == '\0';
                assert(text[j + 1] == '\0');
            }
        }
        if text.contains('\0') {
            let j = choose|j: int| 0 <= j < text.len() && text[j] == '\0';
            if j == 0 {
                assert(head[0] == 0u8);
                assert(bytes[0] == 0u8);
            } else {
                assert(rest[j - 1] == '\0');
                assert(rest.contains('\0'));
                let i = choose|i: int| 0 <= i < tail.len() && tail[i] == 0u8;
                assert(bytes[head.len() + i] == 0u8);
            }
        }
    }
}

} // verus!
