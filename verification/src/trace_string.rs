//! The bounded message buffer.
//!
//! A [`TraceString`] keeps the first [`TRACE_FORMAT_BUFFER_SIZE`] bytes of
//! what is written to it and silently drops the rest. The cut is made on
//! bytes, so the last character of a cut message may be incomplete in the
//! buffer; [`TraceString::to_string`] hands out the whole characters only.

use crate::text::{
    encoded_width, is_text_prefix, lemma_complete_tail, lemma_cut_before_leading_byte,
    lemma_encode_concat, lemma_encode_len, lemma_encode_prefix, lemma_incomplete_tail,
    lemma_text_len_is_longest, lemma_text_len_of_prefix, lemma_text_len_of_valid,
    lemma_text_len_unique,
    lemma_text_starts_with_leading_byte, lemma_valid_prefix_is_boundary, text_len, text_of,
};
use vstd::prelude::*;
use vstd::string::StringSliceAdditionalSpecFns;
use vstd::utf8::*;

verus! {

/// Capacity, in bytes, of every [`TraceString`].
pub const TRACE_FORMAT_BUFFER_SIZE: usize = 1024;

/// The first [`TRACE_FORMAT_BUFFER_SIZE`] bytes of `bytes`, or all of them
/// where there are fewer.
pub open spec fn truncate(bytes: Seq<u8>) -> Seq<u8> {
    if bytes.len() <= TRACE_FORMAT_BUFFER_SIZE {
        bytes
    } else {
        bytes.subrange(0, TRACE_FORMAT_BUFFER_SIZE as int)
    }
}

/// What a buffer keeps of a message as text: the whole characters among the
/// first [`TRACE_FORMAT_BUFFER_SIZE`] bytes of its encoding.
pub open spec fn bounded_text(chars: Seq<char>) -> Seq<char> {
    text_of(truncate(encode_utf8(chars)))
}

/// Cutting twice is cutting once: what was dropped from the first part has
/// no place after the second.
pub proof fn lemma_truncate_append(a: Seq<u8>, b: Seq<u8>)
    ensures
        truncate(truncate(a) + b) == truncate(a + b),
{
}

/// The bounded text is the longest start of the message whose encoding fits
/// the capacity: it is a start of the message, it fits, no longer start
/// fits, and a message that fits is kept whole.
pub proof fn lemma_bounded_text(chars: Seq<char>)
    ensures
        bounded_text(chars).is_prefix_of(chars),
        encode_utf8(bounded_text(chars)).len() <= TRACE_FORMAT_BUFFER_SIZE,
        forall|k: int|
            bounded_text(chars).len() < k <= chars.len() ==> encode_utf8(
                #[trigger] chars.subrange(0, k),
            ).len() > TRACE_FORMAT_BUFFER_SIZE,
        encode_utf8(chars).len() <= TRACE_FORMAT_BUFFER_SIZE ==> bounded_text(chars) == chars,
{
    let whole = encode_utf8(chars);
    let kept = truncate(whole);
    let cut = text_len(kept);
    let text = bounded_text(chars);
    encode_utf8_valid_utf8(chars);
    encode_utf8_decode_utf8(chars);
    lemma_text_len_is_longest(kept);
    assert(kept.subrange(0, cut) =~= whole.subrange(0, cut));
    lemma_valid_prefix_is_boundary(whole, cut);
    decode_utf8_split(whole, cut);
    decode_utf8_encode_utf8(whole.subrange(0, cut));
    assert forall|k: int| text.len() < k <= chars.len() implies encode_utf8(
        #[trigger] chars.subrange(0, k),
    ).len() > TRACE_FORMAT_BUFFER_SIZE by {
        let longer = chars.subrange(0, k);
        let more = longer.subrange(text.len() as int, k);
        assert(longer =~= text + more);
        lemma_encode_concat(text, more);
        lemma_encode_len(more);
        lemma_encode_prefix(chars, k);
        let n = encode_utf8(longer).len() as int;
        if n <= TRACE_FORMAT_BUFFER_SIZE {
            encode_utf8_valid_utf8(longer);
            assert(kept.subrange(0, n) =~= encode_utf8(longer));
        }
    }
    if whole.len() <= TRACE_FORMAT_BUFFER_SIZE {
        lemma_text_len_of_valid(whole);
    }
}

/// Bounding what was bounded changes nothing.
pub proof fn lemma_bounded_text_idempotent(chars: Seq<char>)
    ensures
        bounded_text(bounded_text(chars)) == bounded_text(chars),
{
    lemma_bounded_text(chars);
    lemma_bounded_text(bounded_text(chars));
}

/// `core::str::Utf8Error`, the error of `core::str::from_utf8`. Nothing is
/// said of what it holds.
#[verifier::external_type_specification]
#[verifier::external_body]
pub struct ExUtf8Error(core::str::Utf8Error);

/// `core::str::from_utf8` checks that the bytes are well-formed UTF-8. It
/// returns them as a string slice where they are, and an error where they are
/// not.
pub assume_specification<'a>[ core::str::from_utf8 ](v: &'a [u8]) -> (r: Result<
    &'a str,
    core::str::Utf8Error,
>)
    ensures
        r is Ok <==> valid_utf8(v@),
        r matches Ok(s) ==> s.spec_bytes() == v@,
;

/// A string that can be formatted up to a size of
/// [`TRACE_FORMAT_BUFFER_SIZE`] bytes. Anything larger than that is cut off.
///
/// Its view is the bytes it holds.
pub struct TraceString {
    length: usize,
    buffer: [u8; TRACE_FORMAT_BUFFER_SIZE],
}

impl View for TraceString {
    type V = Seq<u8>;

    closed spec fn view(&self) -> Seq<u8> {
        self.buffer@.subrange(0, self.length as int)
    }
}

/// True for the bytes `0x80..=0xBF`, which continue a character.
fn is_continuation(byte: u8) -> (b: bool)
    ensures
        b == is_continuation_byte(byte),
{
    0x80 <= byte && byte <= 0xBF
}

/// Number of bytes of the character whose encoding starts with `lead`.
fn width_of(lead: u8) -> (w: usize)
    ensures
        w == encoded_width(lead),
{
    if lead <= 0x7F {
        1
    } else if 0xC0 <= lead && lead <= 0xDF {
        2
    } else if 0xE0 <= lead && lead <= 0xEF {
        3
    } else {
        4
    }
}

/// Where the whole characters of `bytes` end: the length of the longest
/// prefix that is well-formed UTF-8.
fn whole_chars_len(bytes: &[u8]) -> (cut: usize)
    requires
        is_text_prefix(bytes@),
    ensures
        cut == text_len(bytes@),
{
    let n: usize = bytes.len();
    if n == 0 {
        proof {
            lemma_text_len_is_longest(bytes@);
        }
        return 0;
    }
    let mut p: usize = n - 1;
    while is_continuation(bytes[p])
        invariant
            n == bytes@.len(),
            p < n,
            is_text_prefix(bytes@),
            forall|i: int| p < i < n ==> is_continuation_byte(#[trigger] bytes@[i]),
        decreases p,
    {
        proof {
            if p == 0 {
                lemma_text_starts_with_leading_byte(bytes@);
            }
        }
        p = p - 1;
    }
    let width: usize = width_of(bytes[p]);
    if width <= n - p {
        proof {
            lemma_complete_tail(bytes@, p as int);
            lemma_text_len_of_valid(bytes@);
        }
        n
    } else {
        proof {
            lemma_cut_before_leading_byte(bytes@, p as int);
            assert forall|k: int| p < k <= n implies !valid_utf8(
                #[trigger] bytes@.subrange(0, k),
            ) by {
                lemma_incomplete_tail(bytes@, p as int, k);
            }
            lemma_text_len_unique(bytes@, p as int);
        }
        p
    }
}

impl TraceString {
    #[verifier::type_invariant]
    spec fn inv(self) -> bool {
        &&& self.length <= TRACE_FORMAT_BUFFER_SIZE
        &&& is_text_prefix(self@)
        &&& self.length < TRACE_FORMAT_BUFFER_SIZE ==> valid_utf8(self@)
    }

    /// All the bytes of the storage, those past the length included.
    pub closed spec fn storage(&self) -> Seq<u8> {
        self.buffer@
    }

    /// An empty buffer whose storage is all zero.
    pub fn new() -> (res: Self)
        ensures
            res@ == Seq::<u8>::empty(),
            res.storage() == Seq::new(TRACE_FORMAT_BUFFER_SIZE as nat, |i: int| 0u8),
    {
        let buffer = [0u8; TRACE_FORMAT_BUFFER_SIZE];
        proof {
            // Nothing is held, and nothing is well-formed text.
            assert(valid_utf8(buffer@.subrange(0, 0)));
        }
        Self { length: 0, buffer }
    }

    /// Number of bytes held.
    pub fn length(&self) -> (n: usize)
        ensures
            n == self@.len(),
            n <= TRACE_FORMAT_BUFFER_SIZE,
    {
        proof {
            use_type_invariant(self);
        }
        self.length
    }

    /// The whole storage.
    pub fn buffer(&self) -> (b: &[u8; TRACE_FORMAT_BUFFER_SIZE])
        ensures
            b@ == self.storage(),
            b@.subrange(0, self@.len() as int) == self@,
    {
        proof {
            use_type_invariant(self);
        }
        &self.buffer
    }

    /// The bytes held. They begin well-formed text.
    pub fn as_bytes(&self) -> (b: &[u8])
        ensures
            b@ == self@,
            is_text_prefix(b@),
    {
        proof {
            use_type_invariant(self);
        }
        vstd::slice::slice_subrange(self.buffer.as_slice(), 0, self.length)
    }

    /// The text held: the whole characters of the bytes held. That is all
    /// of them unless the buffer is full, and all but the fewer than four
    /// bytes of a character that was cut if it is.
    pub fn to_string(&self) -> (text: &str)
        ensures
            text.spec_bytes() == self@.subrange(0, text_len(self@)),
            text@ == text_of(self@),
            self@.len() - text_len(self@) < 4,
            self@.len() < TRACE_FORMAT_BUFFER_SIZE ==> text_len(self@) == self@.len(),
    {
        proof {
            use_type_invariant(self);
            lemma_text_len_of_prefix(self@);
            if self@.len() < TRACE_FORMAT_BUFFER_SIZE {
                lemma_text_len_of_valid(self@);
            }
        }
        let held = vstd::slice::slice_subrange(self.buffer.as_slice(), 0, self.length);
        let cut: usize = whole_chars_len(held);
        proof {
            lemma_text_len_is_longest(held@);
        }
        let whole = vstd::slice::slice_subrange(held, 0, cut);
        match core::str::from_utf8(whole) {
            Ok(text) => {
                proof {
                    encode_utf8_decode_utf8(text@);
                }
                text
            },
            Err(_) => "",
        }
    }

    /// Appends the bytes of `string` as far as the capacity goes, and drops
    /// the rest. Storage past the new length is left as it was.
    pub fn write_str(&mut self, string: &str)
        ensures
            final(self)@ == truncate(old(self)@ + string.spec_bytes()),
            final(self).storage().skip(final(self)@.len() as int) == old(self).storage().skip(
                final(self)@.len() as int,
            ),
    {
        proof {
            use_type_invariant(&*self);
        }
        let ghost before = self@;
        let ghost added = string.spec_bytes();
        // A full buffer takes nothing more.
        if self.length == TRACE_FORMAT_BUFFER_SIZE {
            return ;
        }
        let bytes = string.as_bytes();
        let room: usize = TRACE_FORMAT_BUFFER_SIZE - self.length;
        let count: usize = if bytes.len() < room {
            bytes.len()
        } else {
            room
        };
        let start: usize = self.length;
        let mut i: usize = 0;
        while i < count
            invariant
                i <= count,
                start + count <= TRACE_FORMAT_BUFFER_SIZE,
                count <= bytes@.len(),
                self.length == start,
                self@ == before,
                self.buffer@.subrange(0, start + i) == before + added.subrange(0, i as int),
                self.buffer@.skip(start + count) == old(self).buffer@.skip(start + count),
                bytes@ == added,
                is_text_prefix(before),
                start < TRACE_FORMAT_BUFFER_SIZE ==> valid_utf8(before),
            decreases count - i,
        {
            let byte: u8 = bytes[i];
            proof {
                let next = self.buffer@.update(start + i, byte);
                assert(next.subrange(0, start as int) =~= self.buffer@.subrange(0, start as int));
                assert(before + added.subrange(0, i + 1) =~= (before + added.subrange(
                    0,
                    i as int,
                )).push(byte));
            }
            self.buffer[start + i] = byte;
            i = i + 1;
        }
        proof {
            encode_utf8_valid_utf8(string@);
            lemma_append_keeps_text(before, added);
            assert(before + added.subrange(0, count as int) =~= truncate(before + added));
        }
        self.length = start + count;
    }
}

/// Appending well-formed bytes to well-formed bytes and cutting the result at
/// the capacity leaves the start of well-formed text, and all of it where the
/// capacity was not reached.
proof fn lemma_append_keeps_text(before: Seq<u8>, added: Seq<u8>)
    requires
        valid_utf8(before),
        valid_utf8(added),
    ensures
        is_text_prefix(truncate(before + added)),
        truncate(before + added).len() < TRACE_FORMAT_BUFFER_SIZE ==> valid_utf8(
            truncate(before + added),
        ),
{
    valid_utf8_concat(before, added);
}

impl Clone for TraceString {
    fn clone(&self) -> (res: Self)
        ensures
            res == *self,
    {
        proof {
            use_type_invariant(self);
        }
        Self { length: self.length, buffer: self.buffer }
    }
}

} // verus!
