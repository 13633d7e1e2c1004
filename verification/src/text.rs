//! Text as the native layer holds it: bytes that end at a NUL byte, in
//! buffers of fixed capacity.

use crate::error::SmartError;
use vstd::prelude::*;
use vstd::utf8::*;

verus! {

/// The number of bytes of text in a buffer: the position of its first NUL
/// byte, or its whole length where it holds none.
pub open spec fn text_len(buf: Seq<u8>) -> int {
    match buf.index_of_first(0u8) {
        Some(i) => i,
        None => buf.len() as int,
    }
}

/// The bytes of the text in a buffer: what stands before its first NUL byte.
pub open spec fn text_bytes(buf: Seq<u8>) -> Seq<u8> {
    buf.take(text_len(buf))
}

/// Whether the text in a buffer is valid UTF-8.
pub open spec fn is_text(buf: Seq<u8>) -> bool {
    valid_utf8(text_bytes(buf))
}

/// The characters of the text in a buffer.
pub open spec fn text_of(buf: Seq<u8>) -> Seq<char>
    recommends
        is_text(buf),
{
    decode_utf8(text_bytes(buf))
}

/// `text_len` is the one position that has no NUL byte before it and either
/// ends the buffer or holds a NUL byte.
pub proof fn lemma_text_len(buf: Seq<u8>, n: int)
    requires
        0 <= n <= buf.len(),
        forall|i: int| 0 <= i < n ==> buf[i] != 0,
        n < buf.len() ==> buf[n] == 0,
    ensures
        text_len(buf) == n,
{
    buf.index_of_first_ensures(0u8);
    if n < buf.len() {
        assert(buf.contains(0u8));
    } else {
        assert(!buf.contains(0u8));
    }
}

/// Whether a text can be handed to the native layer: its bytes hold no NUL,
/// which would end it early.
pub open spec fn is_native_text(chars: Seq<char>) -> bool {
    !encode_utf8(chars).contains(0u8)
}

/// The bytes by which the native layer knows a text: its UTF-8 encoding and
/// the NUL byte that ends it.
pub open spec fn native_bytes(chars: Seq<char>) -> Seq<u8> {
    encode_utf8(chars).push(0u8)
}

/// What is encoded for the native layer decodes to itself.
pub proof fn lemma_native_bytes_decode(chars: Seq<char>)
    requires
        is_native_text(chars),
    ensures
        text_bytes(native_bytes(chars)) == encode_utf8(chars),
        is_text(native_bytes(chars)),
        text_of(native_bytes(chars)) == chars,
{
    let bytes = encode_utf8(chars);
    let buf = native_bytes(chars);
    assert forall|i: int| 0 <= i < bytes.len() implies buf[i] != 0 by {
        assert(bytes.contains(bytes[i]));
    }
    lemma_text_len(buf, bytes.len() as int);
    assert(buf.take(bytes.len() as int) =~= bytes);
    encode_utf8_valid_utf8(chars);
    encode_utf8_decode_utf8(chars);
}

/// What `String::from_utf8_lossy` makes of a byte string: its characters, with
/// U+FFFD in place of what is not UTF-8.
pub uninterp spec fn utf8_lossy(bytes: Seq<u8>) -> Seq<char>;

/// The characters of the text in a buffer, with U+FFFD in place of what is
/// not UTF-8.
pub open spec fn lossy_text_of(buf: Seq<u8>) -> Seq<char> {
    utf8_lossy(text_bytes(buf))
}

/// `String::from_utf8_lossy` is a function of the bytes alone, and valid
/// UTF-8 comes through unchanged: the result then holds the characters that
/// the bytes encode.
#[verifier::external_body]
fn lossy_string(bytes: &[u8]) -> (s: String)
    ensures
        s@ == utf8_lossy(bytes@),
        valid_utf8(bytes@) ==> s@ == decode_utf8(bytes@),
{
    String::from_utf8_lossy(bytes).into_owned()
}

/// `std::str::from_utf8` accepts exactly the byte strings that are valid
/// UTF-8, and the string slice it returns is made of the bytes it was given.
#[verifier::external_body]
fn utf8_str(bytes: &[u8]) -> (r: Option<&str>)
    ensures
        r is Some <==> valid_utf8(bytes@),
        r matches Some(s) ==> s@ == decode_utf8(bytes@),
{
    std::str::from_utf8(bytes).ok()
}

/// Encodes a text, such as the path of a device, for the native layer: its
/// bytes and the NUL byte that ends them. There is no such encoding, and the
/// answer is `None`, exactly when the text itself holds a NUL byte.
pub fn encode_text(text: &str) -> (r: Option<Vec<u8>>)
    ensures
        r is Some <==> is_native_text(text@),
        r matches Some(bytes) ==> bytes@ == native_bytes(text@),
{
    let src = text.as_bytes();
    let mut bytes: Vec<u8> = Vec::new();
    let mut i: usize = 0;
    while i < src.len()
        invariant
            i <= src.len(),
            src@ == encode_utf8(text@),
            bytes@ == src@.take(i as int),
            forall|j: int| 0 <= j < i ==> src@[j] != 0,
        decreases src.len() - i,
    {
        if src[i] == 0 {
            assert(src@.contains(src@[i as int]));
            return None;
        }
        bytes.push(src[i]);
        assert(src@.take(i as int).push(src@[i as int]) =~= src@.take(i + 1));
        i += 1;
    }
    assert(src@.take(i as int) =~= src@);
    bytes.push(0);
    Some(bytes)
}

/// The length of the text in a native buffer.
pub fn text_length(buf: &[u8]) -> (n: usize)
    ensures
        n == text_len(buf@),
        n <= buf@.len(),
{
    let mut n: usize = 0;
    while n < buf.len() && buf[n] != 0
        invariant
            n <= buf.len(),
            forall|i: int| 0 <= i < n ==> buf@[i] != 0,
        decreases buf.len() - n,
    {
        n += 1;
    }
    proof {
        lemma_text_len(buf@, n as int);
    }
    n
}

/// Decodes the text of a native buffer. The text ends at the first NUL byte;
/// a buffer without one is text as a whole. Fails with `SmartError::Decode`
/// exactly when the text is not valid UTF-8.
pub fn decode_text(buf: &[u8]) -> (r: Result<String, SmartError>)
    ensures
        match r {
            Ok(s) => is_text(buf@) && s@ == text_of(buf@),
            Err(e) => !is_text(buf@) && e == SmartError::Decode,
        },
{
    let n: usize = text_length(buf);
    match utf8_str(&buf[0..n]) {
        Some(s) => Ok(s.to_owned()),
        None => Err(SmartError::Decode),
    }
}

/// Decodes the text of a native buffer and never fails: what is not UTF-8
/// comes out as U+FFFD. This is for the fixed strings by which the native
/// layer names its enumeration values. Text that is valid comes out as
/// [`decode_text`] gives it.
pub fn decode_text_lossy(buf: &[u8]) -> (s: String)
    ensures
        s@ == lossy_text_of(buf@),
        is_text(buf@) ==> s@ == text_of(buf@),
{
    let n: usize = text_length(buf);
    lossy_string(&buf[0..n])
}

} // verus!
