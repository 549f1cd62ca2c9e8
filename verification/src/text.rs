//! Text and lengths across the native boundary.
//!
//! The native library takes and gives text as C strings: bytes up to a
//! terminating NUL, in no stated encoding. On this side text is UTF-8 and may
//! not hold a NUL. Lengths cross as unsigned 32-bit integers.

use vstd::prelude::*;
use vstd::slice::*;
use vstd::string::*;
use vstd::utf8::*;

verus! {

/// The replacement-character decoding of a byte string: the text that
/// `String::from_utf8_lossy` gives for these bytes.
pub uninterp spec fn lossy_text(bytes: Seq<u8>) -> Seq<char>;

/// Calls `String::from_utf8_lossy` and takes ownership of the text.
///
/// Trusted: the result is the lossy decoding of `bytes`, and well-formed UTF-8
/// decodes to exactly the text it encodes, without replacement characters.
#[verifier::external_body]
fn from_utf8_lossy(bytes: &[u8]) -> (text: String)
    ensures
        text@ == lossy_text(bytes@),
        valid_utf8(bytes@) ==> text@ == decode_utf8(bytes@),
{
    String::from_utf8_lossy(bytes).into_owned()
}

/// Whether no byte of `bytes` is NUL.
pub open spec fn no_nul(bytes: Seq<u8>) -> bool {
    forall|i: int| 0 <= i < bytes.len() ==> bytes[i] != 0u8
}

/// The C string that carries `text`: its UTF-8 bytes, then the terminating NUL.
pub open spec fn c_chars(text: Seq<char>) -> Seq<u8> {
    encode_utf8(text).push(0u8)
}

/// The C string that starts a buffer: the bytes before the first NUL, or the
/// whole buffer where it holds none.
pub open spec fn c_str(buffer: Seq<u8>) -> Seq<u8> {
    match buffer.index_of_first(0u8) {
        Some(end) => buffer.take(end),
        None => buffer,
    }
}

/// Whether `text` is what this layer reads out of the bytes of a native
/// string: their replacement-character decoding, which for well-formed UTF-8
/// is the text they encode.
pub open spec fn is_text_of(text: Seq<char>, bytes: Seq<u8>) -> bool {
    &&& text == lossy_text(bytes)
    &&& valid_utf8(bytes) ==> text == decode_utf8(bytes)
}

/// What is left of a length that is handed to the native library as an
/// unsigned 32-bit integer: its low 32 bits.
pub open spec fn c_uint_len(len: nat) -> u32 {
    (len % 0x1_0000_0000) as u32
}

/// Marshals a length as the native library's unsigned 32-bit integer.
pub fn length_to_c_uint(len: usize) -> (n: u32)
    ensures
        n == c_uint_len(len as nat),
{
    ((len as u64) % 0x1_0000_0000) as u32
}

/// Whether `text` can be handed to the native library as a C string: none of
/// its bytes is NUL.
pub fn is_c_text(text: &str) -> (fits: bool)
    ensures
        fits == no_nul(text.spec_bytes()),
{
    let bytes = text.as_bytes();
    let mut i: usize = 0;
    while i < bytes.len()
        invariant
            i <= bytes@.len(),
            bytes@ == text.spec_bytes(),
            forall|j: int| 0 <= j < i ==> bytes@[j] != 0u8,
        decreases bytes@.len() - i,
    {
        if bytes[i] == 0 {
            return false;
        }
        i += 1;
    }
    true
}

/// Marshals `text` as a C string.
pub fn string_to_c_chars(text: &str) -> (chars: Vec<u8>)
    requires
        no_nul(text.spec_bytes()),
    ensures
        chars@ == c_chars(text@),
{
    let mut chars = slice_to_vec(text.as_bytes());
    chars.push(0);
    chars
}

/// The length of the C string that starts `buffer`.
pub fn c_str_len(buffer: &[u8]) -> (len: usize)
    ensures
        len <= buffer@.len(),
        len == c_str(buffer@).len(),
        c_str(buffer@) == buffer@.take(len as int),
{
    let mut i: usize = 0;
    while i < buffer.len()
        invariant
            i <= buffer@.len(),
            forall|j: int| 0 <= j < i ==> buffer@[j] != 0u8,
        decreases buffer@.len() - i,
    {
        if buffer[i] == 0 {
            proof {
                buffer@.index_of_first_ensures(0u8);
            }
            return i;
        }
        i += 1;
    }
    proof {
        buffer@.index_of_first_ensures(0u8);
    }
    i
}

/// Reads the C string that starts `buffer` as text.
pub fn c_chars_to_string(buffer: &[u8]) -> (text: String)
    ensures
        is_text_of(text@, c_str(buffer@)),
{
    let len = c_str_len(buffer);
    from_utf8_lossy(slice_subrange(buffer, 0, len))
}

/// A text that went to the native library as a C string reads back as itself:
/// where an answer holds, byte for byte, the C string that [`string_to_c_chars`]
/// made of `text`, what is read out of that answer is `text`.
pub proof fn lemma_text_round_trip(text: Seq<char>, read: Seq<char>)
    requires
        no_nul(encode_utf8(text)),
        is_text_of(read, c_str(c_chars(text))),
    ensures
        read == text,
{
    let bytes = encode_utf8(text);
    let chars = c_chars(text);
    chars.index_of_first_ensures(0u8);
    assert(chars[bytes.len() as int] == 0u8);
    let end = chars.index_of_first(0u8).unwrap();
    assert(end == bytes.len()) by {
        if end < bytes.len() {
            assert(chars[end] == bytes[end]);
        }
    }
    assert(chars.take(end) =~= bytes);
    encode_utf8_valid_utf8(text);
    encode_utf8_decode_utf8(text);
}

} // verus!
