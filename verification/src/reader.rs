//! Reading the primitive values of the cache format from a byte buffer at a
//! cursor: little-endian 32-bit words and NUL-terminated strings.
use vstd::prelude::*;
use vstd::utf8::{
    decode_utf8, encode_utf8, encode_utf8_decode_utf8, encode_utf8_valid_utf8, is_ascii_chars,
    is_ascii_chars_encode_utf8, valid_utf8,
};

verus! {

/// The 32-bit value whose little-endian bytes are `b0 b1 b2 b3`.
pub open spec fn u32_le(b0: u8, b1: u8, b2: u8, b3: u8) -> u32 {
    (b0 + 256 * b1 + 65536 * b2 + 16777216 * b3) as u32
}

/// The little-endian word stored at offset `p` of `d`.
pub open spec fn u32_le_at(d: Seq<u8>, p: int) -> u32 {
    u32_le(d[p], d[p + 1], d[p + 2], d[p + 3])
}

/// Message of a word read that runs past the end of the data.
pub open spec fn eof_u32_message() -> Seq<char> {
    "unexpected EOF while reading u32"@
}

/// Message of a float read that runs past the end of the data.
pub open spec fn eof_f32_message() -> Seq<char> {
    "unexpected EOF while reading f32"@
}

/// Message of a string that has no terminating NUL before the end of the data.
pub open spec fn unterminated_message() -> Seq<char> {
    "unterminated C-string"@
}

/// The offset of the first NUL byte at or after `p`, if there is one.
pub open spec fn nul_index(d: Seq<u8>, p: int) -> Option<int>
    decreases d.len() - p,
{
    if p < 0 || p >= d.len() {
        None
    } else if d[p] == 0 {
        Some(p)
    } else {
        nul_index(d, p + 1)
    }
}

/// What the lossy UTF-8 decoding of `std` (`String::from_utf8_lossy`) makes
/// of a byte sequence: a function of the bytes alone.
pub uninterp spec fn utf8_lossy(bytes: Seq<u8>) -> Seq<char>;

/// The text of a C-string's bytes: the UTF-8 decoding where the bytes are
/// valid UTF-8, else the lossy decoding of `std`.
pub open spec fn cstring_text(bytes: Seq<u8>) -> Seq<char> {
    if valid_utf8(bytes) {
        decode_utf8(bytes)
    } else {
        utf8_lossy(bytes)
    }
}

/// Bytes below 0x80 read as the characters with the same codes.
pub proof fn lemma_ascii_cstring_text(bytes: Seq<u8>)
    requires
        forall|i: int| 0 <= i < bytes.len() ==> #[trigger] bytes[i] < 0x80u8,
    ensures
        cstring_text(bytes) == Seq::new(bytes.len(), |i: int| bytes[i] as char),
{
    let chars = Seq::new(bytes.len(), |i: int| bytes[i] as char);
    assert forall|i: int| 0 <= i < chars.len() implies '\0' <= #[trigger] chars[i] <= '\u{7f}' by {
        let b = bytes[i];
        assert(b < 0x80u8);
    }
    assert(is_ascii_chars(chars));
    is_ascii_chars_encode_utf8(chars);
    assert forall|i: int| 0 <= i < bytes.len() implies #[trigger] encode_utf8(chars)[i] == bytes[i] by {
        let b = bytes[i];
        assert(chars[i] == b as char);
        assert((b as char) as u8 == b);
    }
    assert(encode_utf8(chars) =~= bytes);
    encode_utf8_valid_utf8(chars);
    encode_utf8_decode_utf8(chars);
}

/// `String::from_utf8_lossy(bytes).into_owned()`. Trusted: the result is the
/// lossy decoding of exactly these bytes; for valid UTF-8 it is the decoded
/// text itself; and, since only invalid sequences are replaced (by U+FFFD),
/// bytes without a NUL give a text without a NUL. What replacement
/// characters stand for which invalid sequences is left unsaid.
#[verifier::external_body]
fn string_from_utf8_lossy(bytes: &[u8]) -> (s: String)
    ensures
        s@ == utf8_lossy(bytes@),
        valid_utf8(bytes@) ==> s@ == decode_utf8(bytes@),
        !bytes@.contains(0u8) ==> !s@.contains('\0'),
{
    String::from_utf8_lossy(bytes).into_owned()
}

pub proof fn lemma_nul_index_bounds(d: Seq<u8>, p: int)
    ensures
        nul_index(d, p) matches Some(e) ==> p <= e < d.len() && d[e] == 0 && (forall|k: int|
            p <= k < e ==> d[k] != 0),
    decreases d.len() - p,
{
    if 0 <= p < d.len() && d[p] != 0 {
        lemma_nul_index_bounds(d, p + 1);
    }
}

/// Reads a little-endian `u32` at `*pos` and moves past it.
pub fn read_u32_le(data: &[u8], pos: &mut usize) -> (res: Result<u32, String>)
    ensures
        *old(pos) + 4 <= data@.len() ==> res == Ok::<u32, String>(u32_le_at(data@, *old(pos) as int))
            && *final(pos) == *old(pos) + 4,
        *old(pos) + 4 > data@.len() ==> (res matches Err(e) && e@ == eof_u32_message()),
        *old(pos) + 4 > data@.len() ==> *final(pos) == *old(pos),
{
    if *pos > data.len() || data.len() - *pos < 4 {
        return Err("unexpected EOF while reading u32".to_string());
    }
    let p = *pos;
    let v: u32 = data[p] as u32 + 256 * (data[p + 1] as u32) + 65536 * (data[p + 2] as u32)
        + 16777216 * (data[p + 3] as u32);
    *pos = p + 4;
    Ok(v)
}

/// Reads a little-endian `i32` (two's complement) at `*pos` and moves past it.
pub fn read_i32_le(data: &[u8], pos: &mut usize) -> (res: Result<i32, String>)
    ensures
        *old(pos) + 4 <= data@.len() ==> res == Ok::<i32, String>(
            u32_le_at(data@, *old(pos) as int) as i32,
        ) && *final(pos) == *old(pos) + 4,
        *old(pos) + 4 > data@.len() ==> (res matches Err(e) && e@ == eof_u32_message()),
        *old(pos) + 4 > data@.len() ==> *final(pos) == *old(pos),
{
    let v = read_u32_le(data, pos)?;
    Ok(v as i32)
}

/// Reads the four bytes of a little-endian `f32` at `*pos` and moves past
/// them. The value is handed out as its bit pattern.
pub fn read_f32_bits_le(data: &[u8], pos: &mut usize) -> (res: Result<u32, String>)
    ensures
        *old(pos) + 4 <= data@.len() ==> res == Ok::<u32, String>(u32_le_at(data@, *old(pos) as int))
            && *final(pos) == *old(pos) + 4,
        *old(pos) + 4 > data@.len() ==> (res matches Err(e) && e@ == eof_f32_message()),
        *old(pos) + 4 > data@.len() ==> *final(pos) == *old(pos),
{
    if *pos > data.len() || data.len() - *pos < 4 {
        return Err("unexpected EOF while reading f32".to_string());
    }
    let p = *pos;
    let v: u32 = data[p] as u32 + 256 * (data[p + 1] as u32) + 65536 * (data[p + 2] as u32)
        + 16777216 * (data[p + 3] as u32);
    *pos = p + 4;
    Ok(v)
}

/// Reads a NUL-terminated string at `*pos`, decoding it lossily as UTF-8,
/// and moves past the terminator.
pub fn read_cstring_utf8_lossy(data: &[u8], pos: &mut usize) -> (res: Result<String, String>)
    ensures
        nul_index(data@, *old(pos) as int) matches Some(e) ==> (res matches Ok(s) && s@
            == cstring_text(data@.subrange(*old(pos) as int, e))),
        res matches Ok(s) ==> !s@.contains('\0'),
        nul_index(data@, *old(pos) as int) matches Some(e) ==> *final(pos) == e + 1,
        nul_index(data@, *old(pos) as int) is None ==> (res matches Err(e) && e@
            == unterminated_message()),
        nul_index(data@, *old(pos) as int) is None ==> *final(pos) == if *old(pos) < data@.len() {
            data@.len() as int
        } else {
            *old(pos) as int
        },
{
    let start = *pos;
    proof {
        lemma_nul_index_bounds(data@, start as int);
    }
    while *pos < data.len() && data[*pos] != 0
        invariant
            start <= *pos,
            start < data@.len() ==> *pos <= data@.len(),
            start >= data@.len() ==> *pos == start,
            *pos < data@.len() ==> nul_index(data@, start as int) == nul_index(data@, *pos as int),
            *pos >= data@.len() ==> nul_index(data@, start as int) is None,
        decreases data@.len() - *pos,
    {
        *pos = *pos + 1;
    }
    if *pos >= data.len() {
        return Err("unterminated C-string".to_string());
    }
    let end = *pos;
    let bytes = &data[start..end];
    proof {
        assert(bytes@ =~= data@.subrange(start as int, end as int));
        if bytes@.contains(0u8) {
            let j = choose|j: int| 0 <= j < bytes@.len() && bytes@[j] == 0u8;
            assert(data@[start + j] == 0u8);
        }
    }
    let s = string_from_utf8_lossy(bytes);
    *pos = end + 1;
    Ok(s)
}

} // verus!
