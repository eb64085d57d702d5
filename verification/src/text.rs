//! Byte strings that are the start of UTF-8 text, and where their whole
//! characters end.
//!
//! A bounded buffer cuts a message after a fixed number of bytes, which may be
//! in the middle of a character. The definitions here say which part of such
//! a cut message is still text, and the lemmas relate that part to the
//! characters of the message it was cut from.

use vstd::prelude::*;
use vstd::utf8::*;

verus! {

/// True when `bytes` begins some well-formed UTF-8 byte string.
pub open spec fn is_text_prefix(bytes: Seq<u8>) -> bool {
    exists|full: Seq<u8>| #[trigger] valid_utf8(full) && bytes.is_prefix_of(full)
}

/// The greatest `k <= upto` for which the first `k` bytes are well-formed
/// UTF-8.
pub open spec fn valid_prefix_upto(bytes: Seq<u8>, upto: int) -> int
    decreases upto,
{
    if upto <= 0 {
        0
    } else if valid_utf8(bytes.subrange(0, upto)) {
        upto
    } else {
        valid_prefix_upto(bytes, upto - 1)
    }
}

/// Length of the longest prefix of `bytes` that is well-formed UTF-8.
pub open spec fn text_len(bytes: Seq<u8>) -> int {
    valid_prefix_upto(bytes, bytes.len() as int)
}

/// The characters of the longest well-formed prefix of `bytes`.
pub open spec fn text_of(bytes: Seq<u8>) -> Seq<char> {
    decode_utf8(bytes.subrange(0, text_len(bytes)))
}

/// Number of bytes in the encoding that starts with the leading byte `lead`.
pub open spec fn encoded_width(lead: u8) -> int {
    if is_leading_byte_width_1(lead) {
        1
    } else if is_leading_byte_width_2(lead) {
        2
    } else if is_leading_byte_width_3(lead) {
        3
    } else {
        4
    }
}

/// `text_len` is a position in `bytes`, the prefix up to it is well-formed,
/// and no longer prefix is.
pub proof fn lemma_text_len_is_longest(bytes: Seq<u8>)
    ensures
        0 <= text_len(bytes) <= bytes.len(),
        valid_utf8(bytes.subrange(0, text_len(bytes))),
        forall|j: int|
            text_len(bytes) < j <= bytes.len() ==> !valid_utf8(#[trigger] bytes.subrange(0, j)),
{
    lemma_valid_prefix_upto(bytes, bytes.len() as int);
}

proof fn lemma_valid_prefix_upto(bytes: Seq<u8>, upto: int)
    requires
        upto <= bytes.len(),
    ensures
        0 <= valid_prefix_upto(bytes, upto),
        upto >= 0 ==> valid_prefix_upto(bytes, upto) <= upto,
        valid_utf8(bytes.subrange(0, valid_prefix_upto(bytes, upto))),
        forall|j: int|
            valid_prefix_upto(bytes, upto) < j <= upto ==> !valid_utf8(
                #[trigger] bytes.subrange(0, j),
            ),
    decreases upto,
{
    if upto > 0 && !valid_utf8(bytes.subrange(0, upto)) {
        lemma_valid_prefix_upto(bytes, upto - 1);
    }
}

/// A position with a well-formed prefix before it and none longer is
/// `text_len`.
pub proof fn lemma_text_len_unique(bytes: Seq<u8>, k: int)
    requires
        0 <= k <= bytes.len(),
        valid_utf8(bytes.subrange(0, k)),
        forall|j: int| k < j <= bytes.len() ==> !valid_utf8(#[trigger] bytes.subrange(0, j)),
    ensures
        text_len(bytes) == k,
{
    lemma_text_len_is_longest(bytes);
}

/// Well-formed bytes are text as a whole.
pub proof fn lemma_text_len_of_valid(bytes: Seq<u8>)
    requires
        valid_utf8(bytes),
    ensures
        text_len(bytes) == bytes.len(),
        is_text_prefix(bytes),
{
    assert(bytes.subrange(0, bytes.len() as int) =~= bytes);
    lemma_text_len_unique(bytes, bytes.len() as int);
}

/// In well-formed bytes, a prefix that is itself well-formed ends on a
/// character boundary.
pub proof fn lemma_valid_prefix_is_boundary(bytes: Seq<u8>, k: int)
    requires
        valid_utf8(bytes),
        0 <= k <= bytes.len(),
        valid_utf8(bytes.subrange(0, k)),
    ensures
        is_char_boundary(bytes, k),
    decreases bytes.len(),
{
    if k > 0 {
        // The prefix and the whole start with the same character.
        let pre = bytes.subrange(0, k);
        let w = length_of_first_scalar(bytes);
        assert(pop_first_scalar(pre) =~= pop_first_scalar(bytes).subrange(0, k - w));
        lemma_valid_prefix_is_boundary(pop_first_scalar(bytes), k - w);
    }
}

/// The bytes before a byte that is no continuation byte are well-formed,
/// where the whole begins well-formed text.
pub proof fn lemma_cut_before_leading_byte(bytes: Seq<u8>, p: int)
    requires
        is_text_prefix(bytes),
        0 <= p < bytes.len(),
        !is_continuation_byte(bytes[p]),
    ensures
        valid_utf8(bytes.subrange(0, p)),
{
    let full = choose|full: Seq<u8>| #[trigger] valid_utf8(full) && bytes.is_prefix_of(full);
    is_char_boundary_iff_not_is_continuation_byte(full, p);
    valid_utf8_split(full, p);
    assert(bytes.subrange(0, p) =~= full.subrange(0, p));
}

/// The first byte of text is no continuation byte.
pub proof fn lemma_text_starts_with_leading_byte(bytes: Seq<u8>)
    requires
        is_text_prefix(bytes),
        bytes.len() > 0,
    ensures
        !is_continuation_byte(bytes[0]),
{
    let full = choose|full: Seq<u8>| #[trigger] valid_utf8(full) && bytes.is_prefix_of(full);
    is_char_boundary_iff_not_is_continuation_byte(full, 0);
}

/// No prefix that ends inside the last character is well-formed: the
/// character that starts at `p` needs more bytes than follow it.
pub proof fn lemma_incomplete_tail(bytes: Seq<u8>, p: int, k: int)
    requires
        0 <= p < k <= bytes.len(),
        !is_continuation_byte(bytes[p]),
        p + encoded_width(bytes[p]) > bytes.len(),
    ensures
        !valid_utf8(bytes.subrange(0, k)),
{
    let pre = bytes.subrange(0, k);
    if valid_utf8(pre) {
        // Then the character at `p` would be whole within the prefix.
        is_char_boundary_iff_not_is_continuation_byte(pre, p);
        valid_utf8_split(pre, p);
    }
}

/// Where the last character has all its bytes, the whole is well-formed.
pub proof fn lemma_complete_tail(bytes: Seq<u8>, p: int)
    requires
        is_text_prefix(bytes),
        0 <= p < bytes.len(),
        !is_continuation_byte(bytes[p]),
        forall|i: int| p < i < bytes.len() ==> is_continuation_byte(#[trigger] bytes[i]),
        p + encoded_width(bytes[p]) <= bytes.len(),
    ensures
        valid_utf8(bytes),
        p + encoded_width(bytes[p]) == bytes.len(),
{
    let full = choose|full: Seq<u8>| #[trigger] valid_utf8(full) && bytes.is_prefix_of(full);
    is_char_boundary_iff_not_is_continuation_byte(full, p);
    valid_utf8_split(full, p);
    let tail = full.subrange(p, full.len() as int);
    let w = length_of_first_scalar(tail);
    partial_valid_utf8_extend(full, p);
    let q = p + w;
    if q < bytes.len() {
        // A character would start at `q`, where a continuation byte stands.
        lemma_valid_prefix_is_boundary(full, q);
        is_char_boundary_iff_not_is_continuation_byte(full, q);
        assert(is_continuation_byte(bytes[q]));
    }
}

/// The encoding of two character sequences in a row is the encodings in a
/// row.
pub proof fn lemma_encode_concat(a: Seq<char>, b: Seq<char>)
    ensures
        encode_utf8(a + b) == encode_utf8(a) + encode_utf8(b),
    decreases a.len(),
{
    if a.len() > 0 {
        assert((a + b).drop_first() =~= a.drop_first() + b);
        lemma_encode_concat(a.drop_first(), b);
    }
}

/// Every character takes at least one byte.
pub proof fn lemma_encode_len(chars: Seq<char>)
    ensures
        encode_utf8(chars).len() >= chars.len(),
    decreases chars.len(),
{
    if chars.len() > 0 {
        lemma_encode_len(chars.drop_first());
    }
}

/// The encoding of the first `k` characters is the start of the encoding of
/// them all, and ends on a character boundary of it.
pub proof fn lemma_encode_prefix(chars: Seq<char>, k: int)
    requires
        0 <= k <= chars.len(),
    ensures
        encode_utf8(chars.subrange(0, k)).is_prefix_of(encode_utf8(chars)),
        is_char_boundary(encode_utf8(chars), encode_utf8(chars.subrange(0, k)).len() as int),
{
    let head = chars.subrange(0, k);
    let rest = chars.subrange(k, chars.len() as int);
    assert(chars =~= head + rest);
    lemma_encode_concat(head, rest);
    let whole = encode_utf8(chars);
    let n = encode_utf8(head).len() as int;
    assert(whole.subrange(0, n) =~= encode_utf8(head));
    encode_utf8_valid_utf8(chars);
    encode_utf8_valid_utf8(head);
    lemma_valid_prefix_is_boundary(whole, n);
}

/// Of bytes that begin well-formed text, fewer than four are no text: only
/// the one character that the cut went through is lost.
pub proof fn lemma_text_len_of_prefix(bytes: Seq<u8>)
    requires
        is_text_prefix(bytes),
    ensures
        bytes.len() - text_len(bytes) < 4,
{
    let full = choose|full: Seq<u8>| #[trigger] valid_utf8(full) && bytes.is_prefix_of(full);
    let n = bytes.len() as int;
    let t = text_len(bytes);
    lemma_text_len_is_longest(bytes);
    if t < n {
        // A character starts at `t`; were it whole within `bytes`, the
        // text would go on behind it.
        assert(full.subrange(0, t) =~= bytes.subrange(0, t));
        lemma_valid_prefix_is_boundary(full, t);
        valid_utf8_split(full, t);
        let tail = full.subrange(t, full.len() as int);
        let w = length_of_first_scalar(tail);
        partial_valid_utf8_extend(full, t);
        if t + w <= n {
            assert(bytes.subrange(0, t + w) =~= full.subrange(0, t + w));
        }
    }
}

} // verus!
