//! Text at the boundary: UTF-8 bytes on the foreign side, a string value on
//! this side.

use crate::value::{Content, Value, ValueView};
use vstd::prelude::*;
use vstd::string::StringSliceAdditionalSpecFns;
use vstd::utf8::{decode_utf8, encode_scalar, encode_utf8, valid_utf8};

verus! {

/// `std::str::from_utf8`: the bytes are accepted exactly when they are
/// well-formed UTF-8, and the text that comes back is made of those very bytes.
#[verifier::external_body]
fn utf8_text(bytes: &[u8]) -> (text: Option<&str>)
    ensures
        text is Some <==> valid_utf8(bytes@),
        text matches Some(t) ==> t.spec_bytes() == bytes@,
{
    match std::str::from_utf8(bytes) {
        Ok(text) => Some(text),
        Err(_) => None,
    }
}

/// True where the text holds no NUL character, so that a zero byte can end it.
pub open spec fn is_c_text(text: Seq<char>) -> bool {
    forall|i: int| 0 <= i < text.len() ==> text[i] != '\0'
}

/// True where no byte is zero.
pub open spec fn no_zero_byte(bytes: Seq<u8>) -> bool {
    forall|i: int| 0 <= i < bytes.len() ==> bytes[i] != 0u8
}

/// The buffer handed to the foreign side for a text: its UTF-8 bytes and a
/// terminating zero byte.
pub open spec fn c_string(text: Seq<char>) -> Seq<u8> {
    encode_utf8(text).push(0u8)
}

/// The encoding of one scalar holds a zero byte only for the scalar zero.
proof fn lemma_scalar_zero_byte(scalar: u32)
    ensures
        no_zero_byte(encode_scalar(scalar)) <==> scalar != 0,
{
    assert(scalar <= 0x7F ==> (((scalar & 0x7F) as u8 == 0u8) <==> scalar == 0)) by (bit_vector);
    assert(forall|b: u8| 0x80u8 | b != 0u8) by (bit_vector);
    assert(forall|b: u8| 0xC0u8 | b != 0u8) by (bit_vector);
    assert(forall|b: u8| 0xE0u8 | b != 0u8) by (bit_vector);
    assert(forall|b: u8| 0xF0u8 | b != 0u8) by (bit_vector);
    let bytes = encode_scalar(scalar);
    if scalar == 0 {
        assert(bytes[0] == 0u8);
    }
}

/// A text is free of NUL characters exactly when its UTF-8 bytes are free of
/// zero bytes.
pub proof fn lemma_zero_bytes(text: Seq<char>)
    ensures
        is_c_text(text) <==> no_zero_byte(encode_utf8(text)),
    decreases text.len(),
{
    if text.len() > 0 {
        let head = encode_scalar(text[0] as u32);
        let rest = text.drop_first();
        let tail = encode_utf8(rest);
        lemma_scalar_zero_byte(text[0] as u32);
        lemma_zero_bytes(rest);
        assert(encode_utf8(text) == head + tail);
        assert((text[0] as u32 != 0) <==> text[0] != '\0') by {
            vstd::utf8::char_u32_cast(text[0], text[0] as u32);
            vstd::utf8::char_u32_cast('\0', '\0' as u32);
            assert('\0' as u32 == 0u32);
        }
        if is_c_text(text) {
            assert(is_c_text(rest)) by {
                assert forall|i: int| 0 <= i < rest.len() implies rest[i] != '\0' by {
                    assert(rest[i] == text[i + 1]);
                }
            }
            assert(no_zero_byte(head + tail)) by {
                assert forall|i: int| 0 <= i < (head + tail).len() implies (head + tail)[i]
                    != 0u8 by {
                    if i >= head.len() {
                        assert((head + tail)[i] == tail[i - head.len()]);
                    } else {
                        assert((head + tail)[i] == head[i]);
                    }
                }
            }
        }
        if no_zero_byte(head + tail) {
            assert(no_zero_byte(head)) by {
                assert forall|i: int| 0 <= i < head.len() implies head[i] != 0u8 by {
                    assert((head + tail)[i] == head[i]);
                }
            }
            assert(no_zero_byte(tail)) by {
                assert forall|i: int| 0 <= i < tail.len() implies tail[i] != 0u8 by {
                    assert((head + tail)[i + head.len()] == tail[i]);
                }
            }
            assert forall|i: int| 0 <= i < text.len() implies text[i] != '\0' by {
                if i > 0 {
                    assert(rest[i - 1] == text[i]);
                }
            }
        }
    }
}

/// True where byte `n` of the buffer is its first zero byte.
pub open spec fn is_terminator_at(buffer: Seq<u8>, n: int) -> bool {
    &&& 0 <= n < buffer.len()
    &&& buffer[n] == 0u8
    &&& no_zero_byte(buffer.subrange(0, n))
}

/// The length of the C string in the buffer: the index of its first zero
/// byte. It has a meaning only where the buffer holds a zero byte.
pub open spec fn c_str_len(buffer: Seq<u8>) -> int {
    choose|n: int| is_terminator_at(buffer, n)
}

/// The bytes of the C string in the buffer: all that stand before its first
/// zero byte. `None` where the buffer holds no zero byte.
pub open spec fn c_content(buffer: Seq<u8>) -> Option<Seq<u8>> {
    if no_zero_byte(buffer) {
        None
    } else {
        Some(buffer.subrange(0, c_str_len(buffer)))
    }
}

/// The text of the C string in the buffer. `None` where the buffer holds no
/// zero byte, or where the bytes before the first one are not UTF-8.
pub open spec fn c_text(buffer: Seq<u8>) -> Option<Seq<char>> {
    match c_content(buffer) {
        Some(content) => if valid_utf8(content) {
            Some(decode_utf8(content))
        } else {
            None
        },
        None => None,
    }
}

/// A buffer has one first zero byte at most, and has one exactly when it has
/// a zero byte.
pub proof fn lemma_terminator(buffer: Seq<u8>, n: int)
    ensures
        is_terminator_at(buffer, n) ==> c_str_len(buffer) == n && !no_zero_byte(buffer),
        !no_zero_byte(buffer) ==> is_terminator_at(buffer, c_str_len(buffer)),
{
    if is_terminator_at(buffer, n) {
        let m = c_str_len(buffer);
        assert(is_terminator_at(buffer, m));
        if m < n {
            assert(buffer.subrange(0, n)[m] == buffer[m]);
        }
        if n < m {
            assert(buffer.subrange(0, m)[n] == buffer[n]);
        }
    }
    if !no_zero_byte(buffer) {
        let i = choose|i: int| 0 <= i < buffer.len() && buffer[i] == 0u8;
        lemma_first_zero(buffer, i);
    }
}

/// Before a zero byte, or at it, stands the first one.
proof fn lemma_first_zero(buffer: Seq<u8>, i: int)
    requires
        0 <= i < buffer.len(),
        buffer[i] == 0u8,
    ensures
        exists|n: int| is_terminator_at(buffer, n),
    decreases i,
{
    if no_zero_byte(buffer.subrange(0, i)) {
        assert(is_terminator_at(buffer, i));
    } else {
        let j = choose|j: int|
            0 <= j < buffer.subrange(0, i).len() && buffer.subrange(0, i)[j] == 0u8;
        assert(buffer[j] == buffer.subrange(0, i)[j]);
        lemma_first_zero(buffer, j);
    }
}

/// The index of the first zero byte, or the length where there is none.
fn first_zero_byte(bytes: &[u8]) -> (n: usize)
    ensures
        n <= bytes@.len(),
        no_zero_byte(bytes@.subrange(0, n as int)),
        n < bytes@.len() ==> bytes@[n as int] == 0u8,
{
    let mut n: usize = 0;
    while n < bytes.len() && bytes[n] != 0
        invariant
            n <= bytes@.len(),
            no_zero_byte(bytes@.subrange(0, n as int)),
        decreases bytes@.len() - n,
    {
        n = n + 1;
    }
    n
}

/// The bytes of the C string in the buffer.
pub fn c_str_bytes(buffer: &[u8]) -> (content: Option<&[u8]>)
    ensures
        match content {
            Some(bytes) => c_content(buffer@) == Some(bytes@),
            None => c_content(buffer@) is None,
        },
{
    let n = first_zero_byte(buffer);
    if n < buffer.len() {
        proof {
            lemma_terminator(buffer@, n as int);
        }
        Some(vstd::slice::slice_subrange(buffer, 0, n))
    } else {
        assert(buffer@.subrange(0, n as int) == buffer@);
        None
    }
}

impl Value {
    /// The buffer for the foreign side, where this is a string without a NUL
    /// character; `None` for anything else.
    pub fn to_c_string(&self) -> (buffer: Option<Vec<u8>>)
        ensures
            buffer is Some <==> (self@ matches ValueView::String(text) && is_c_text(text)),
            buffer matches Some(b) ==> b@ == c_string(self@.as_str().unwrap()),
    {
        match self.content().as_str() {
            Some(text) => {
                let bytes = text.as_bytes();
                proof {
                    lemma_zero_bytes(text@);
                }
                if first_zero_byte(bytes) < bytes.len() {
                    None
                } else {
                    assert(bytes@.subrange(0, bytes@.len() as int) == bytes@);
                    let mut buffer = vstd::slice::slice_to_vec(bytes);
                    buffer.push(0);
                    Some(buffer)
                }
            },
            None => None,
        }
    }

    /// A string value of the text that the bytes encode; `None` where they
    /// are not UTF-8.
    pub fn from_utf8(bytes: &[u8]) -> (value: Option<Value>)
        ensures
            value is Some <==> valid_utf8(bytes@),
            value matches Some(v) ==> v@ == ValueView::String(decode_utf8(bytes@)),
    {
        match utf8_text(bytes) {
            Some(text) => {
                proof {
                    vstd::utf8::encode_utf8_decode_utf8(text@);
                }
                Some(Value::new(Content::String(text.to_owned())))
            },
            None => None,
        }
    }

    /// A string value of the C string in the buffer; `None` where the buffer
    /// holds no zero byte, or no UTF-8 before the first one.
    pub fn from_c_str(buffer: &[u8]) -> (value: Option<Value>)
        ensures
            match value {
                Some(v) => c_text(buffer@) is Some && v@ == ValueView::String(
                    c_text(buffer@).unwrap(),
                ),
                None => c_text(buffer@) is None,
            },
    {
        match c_str_bytes(buffer) {
            Some(bytes) => Value::from_utf8(bytes),
            None => None,
        }
    }
}

/// A string value of the C string in the buffer: of the text before the
/// first zero byte. What stands behind that byte is not read.
#[allow(non_snake_case)]
pub fn Value_FromString(string: &[u8]) -> (value: Value)
    requires
        c_text(string@) is Some,
    ensures
        value@ == ValueView::String(c_text(string@).unwrap()),
{
    Value::from_c_str(string).unwrap()
}

/// The text of a string value as a zero-terminated buffer of UTF-8 bytes.
#[allow(non_snake_case)]
pub fn Value_IntoString(value: Value) -> (buffer: Vec<u8>)
    requires
        value@ matches ValueView::String(text) && is_c_text(text),
    ensures
        buffer@ == c_string(value@.as_str().unwrap()),
{
    value.to_c_string().unwrap()
}

/// A text without NUL characters comes back from its buffer: the buffer ends
/// in its only zero byte, and the C string in it is the text.
pub proof fn law_string_round_trip(text: Seq<char>)
    requires
        is_c_text(text),
    ensures
        is_terminator_at(c_string(text), c_string(text).len() - 1),
        c_content(c_string(text)) == Some(encode_utf8(text)),
        c_text(c_string(text)) == Some(text),
{
    let bytes = encode_utf8(text);
    lemma_zero_bytes(text);
    vstd::utf8::encode_utf8_valid_utf8(text);
    vstd::utf8::encode_utf8_decode_utf8(text);
    assert(c_string(text).subrange(0, bytes.len() as int) == bytes);
    lemma_terminator(c_string(text), bytes.len() as int);
}

/// A text with a NUL character has no buffer of its own: the C string in
/// what would be its buffer is cut short.
pub proof fn law_nul_cuts_text(text: Seq<char>)
    requires
        !is_c_text(text),
    ensures
        c_content(c_string(text)) is Some,
        c_content(c_string(text)).unwrap().len() < encode_utf8(text).len(),
{
    let bytes = encode_utf8(text);
    lemma_zero_bytes(text);
    let i = choose|i: int| 0 <= i < bytes.len() && bytes[i] == 0u8;
    assert(c_string(text)[i] == 0u8);
    lemma_terminator(c_string(text), 0);
    let n = c_str_len(c_string(text));
    if n > i {
        assert(c_string(text).subrange(0, n)[i] == 0u8);
    }
}

} // verus!
