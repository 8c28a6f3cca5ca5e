//! Marshalling of payloads into and out of terminator-delimited buffers.
//!
//! A buffer handed to the clipboard holds the payload followed by one zero
//! unit. A buffer read back reports only its capacity, so the payload is the
//! span before the first zero unit, or the whole buffer if there is none.

use vstd::prelude::*;
use vstd::slice::slice_subrange;
use crate::text::{decode_lossy, encode_wide, nul_free, utf16_lossy, utf16_units};

verus! {

/// The predefined format code for 16-bit Unicode text.
pub const CF_UNICODETEXT: u32 = 13;

/// `n` is where the payload of `buf` ends: no unit before `n` equals `zero`,
/// and `n` is either the index of a `zero` unit or the end of the buffer.
pub open spec fn is_span<T>(buf: Seq<T>, zero: T, n: int) -> bool {
    &&& 0 <= n <= buf.len()
    &&& forall|i: int| 0 <= i < n ==> buf[i] != zero
    &&& n < buf.len() ==> buf[n] == zero
}

/// The length of the payload of `buf`.
pub open spec fn span_len<T>(buf: Seq<T>, zero: T) -> int {
    choose|n: int| is_span(buf, zero, n)
}

/// The payload of `buf`: everything before the first `zero` unit.
pub open spec fn content<T>(buf: Seq<T>, zero: T) -> Seq<T> {
    buf.take(span_len(buf, zero))
}

/// True when no unit of `s` equals `zero`.
pub open spec fn free_of<T>(s: Seq<T>, zero: T) -> bool {
    forall|i: int| 0 <= i < s.len() ==> s[i] != zero
}

/// A buffer has exactly one payload end.
pub proof fn lemma_span_unique<T>(buf: Seq<T>, zero: T, a: int, b: int)
    requires
        is_span(buf, zero, a),
        is_span(buf, zero, b),
    ensures
        a == b,
        span_len(buf, zero) == a,
{
    if a < b {
        assert(buf[a] == zero);
    }
    if b < a {
        assert(buf[b] == zero);
    }
    let c = span_len(buf, zero);
    assert(is_span(buf, zero, c));
    if a < c {
        assert(buf[a] == zero);
    }
    if c < a {
        assert(buf[c] == zero);
    }
}

/// The payload of a stored image is what was stored, as far as its first
/// zero unit: a payload free of zero units comes back whole.
pub proof fn lemma_stored_content<T>(payload: Seq<T>, zero: T)
    requires
        free_of(payload, zero),
    ensures
        content(payload.push(zero), zero) == payload,
{
    let image = payload.push(zero);
    assert(is_span(image, zero, payload.len() as int));
    lemma_span_unique(image, zero, payload.len() as int, payload.len() as int);
    assert(image.take(payload.len() as int) =~= payload);
}

/// A payload with an embedded zero unit comes back cut at the first one:
/// what is read from a stored image is the payload's own content.
pub proof fn lemma_stored_content_cut<T>(payload: Seq<T>, zero: T)
    ensures
        content(payload.push(zero), zero) == content(payload, zero),
{
    let image = payload.push(zero);
    lemma_span_exists(payload, zero);
    let m = span_len(payload, zero);
    assert(is_span(image, zero, m)) by {
        assert forall|i: int| 0 <= i < m implies image[i] != zero by {
            assert(image[i] == payload[i]);
        }
        if m < payload.len() {
            assert(image[m] == payload[m]);
        }
    }
    lemma_span_unique(image, zero, m, m);
    assert(image.take(m) =~= payload.take(m));
}

/// Every buffer has a payload end.
pub proof fn lemma_span_exists<T>(buf: Seq<T>, zero: T)
    ensures
        is_span(buf, zero, span_len(buf, zero)),
    decreases buf.len(),
{
    if buf.len() == 0 {
        assert(is_span(buf, zero, 0));
    } else {
        let front = buf.drop_last();
        lemma_span_exists(front, zero);
        let k = span_len(front, zero);
        if k < front.len() {
            assert(front[k] == buf[k]);
            assert forall|i: int| 0 <= i < k implies buf[i] != zero by {
                assert(front[i] == buf[i]);
            }
            assert(is_span(buf, zero, k));
        } else {
            assert forall|i: int| 0 <= i < k implies buf[i] != zero by {
                assert(front[i] == buf[i]);
            }
            if buf[k] == zero {
                assert(is_span(buf, zero, k));
            } else {
                assert(is_span(buf, zero, k + 1));
            }
        }
    }
}

/// Length of the 16-bit payload of `buf`: the index of its first zero unit,
/// or the length of `buf` when it holds none.
pub fn rust_strlen(buf: &[u16]) -> (n: usize)
    ensures
        is_span(buf@, 0u16, n as int),
        n == span_len(buf@, 0u16),
{
    let mut idx: usize = 0;
    while idx < buf.len() && buf[idx] != 0
        invariant
            idx <= buf.len(),
            forall|i: int| 0 <= i < idx ==> buf@[i] != 0u16,
        decreases buf.len() - idx,
    {
        idx += 1;
    }
    proof {
        lemma_span_unique(buf@, 0u16, idx as int, idx as int);
    }
    idx
}

/// Length of the byte payload of `buf`: the index of its first zero byte, or
/// the length of `buf` when it holds none.
pub fn byte_strlen(buf: &[u8]) -> (n: usize)
    ensures
        is_span(buf@, 0u8, n as int),
        n == span_len(buf@, 0u8),
{
    let mut idx: usize = 0;
    while idx < buf.len() && buf[idx] != 0
        invariant
            idx <= buf.len(),
            forall|i: int| 0 <= i < idx ==> buf@[i] != 0u8,
        decreases buf.len() - idx,
    {
        idx += 1;
    }
    proof {
        lemma_span_unique(buf@, 0u8, idx as int, idx as int);
    }
    idx
}

/// The image to store for a text: its UTF-16 units and one terminator.
/// Reading the image back gives the text itself, unless the text holds a
/// NUL character: then what is read ends at the first zero unit.
pub fn text_image(text: &str) -> (image: Vec<u16>)
    ensures
        image@ == utf16_units(text@).push(0u16),
        content(image@, 0u16) == content(utf16_units(text@), 0u16),
        nul_free(text@) <==> free_of(utf16_units(text@), 0u16),
        nul_free(text@) ==> utf16_lossy(content(image@, 0u16)) == text@,
{
    let mut image = encode_wide(text);
    proof {
        lemma_stored_content_cut(image@, 0u16);
        if free_of(image@, 0u16) {
            lemma_stored_content(image@, 0u16);
        }
    }
    image.push(0);
    image
}

/// The image to store for a raw payload: its bytes and one terminator.
/// Reading the image back gives the payload itself, unless one of its bytes
/// is zero: then what is read ends there.
pub fn raw_image(data: &[u8]) -> (image: Vec<u8>)
    ensures
        image@ == data@.push(0u8),
        content(image@, 0u8) == content(data@, 0u8),
        free_of(data@, 0u8) ==> content(image@, 0u8) == data@,
{
    let mut image: Vec<u8> = Vec::new();
    let mut idx: usize = 0;
    while idx < data.len()
        invariant
            idx <= data.len(),
            image@ == data@.take(idx as int),
        decreases data.len() - idx,
    {
        image.push(data[idx]);
        assert(data@.take(idx as int).push(data@[idx as int]) =~= data@.take(idx + 1));
        idx += 1;
    }
    assert(data@.take(data@.len() as int) =~= data@);
    proof {
        lemma_stored_content_cut(data@, 0u8);
        if free_of(data@, 0u8) {
            lemma_stored_content(data@, 0u8);
        }
    }
    image.push(0);
    image
}

/// Copies the byte payload out of a locked buffer.
pub fn read_raw(mem: &[u8]) -> (data: Vec<u8>)
    ensures
        data@ == content(mem@, 0u8),
{
    let n = byte_strlen(mem);
    let mut data: Vec<u8> = Vec::new();
    let mut idx: usize = 0;
    while idx < n
        invariant
            idx <= n <= mem.len(),
            data@ == mem@.take(idx as int),
        decreases n - idx,
    {
        data.push(mem[idx]);
        assert(mem@.take(idx as int).push(mem@[idx as int]) =~= mem@.take(idx + 1));
        idx += 1;
    }
    data
}

/// Copies the text payload out of a locked buffer, decoding it lossily:
/// ill-formed units are replaced, never refused.
pub fn read_text(mem: &[u16]) -> (text: String)
    ensures
        text@ == utf16_lossy(content(mem@, 0u16)),
{
    let n = rust_strlen(mem);
    let span = slice_subrange(mem, 0, n);
    assert(span@ =~= mem@.take(n as int));
    decode_lossy(span)
}

/// What `read_raw` finds in the image that `raw_image` builds: the payload
/// itself whenever it holds no zero byte.
pub proof fn lemma_raw_round_trip(data: Seq<u8>)
    requires
        free_of(data, 0u8),
    ensures
        content(data.push(0u8), 0u8) == data,
{
    lemma_stored_content(data, 0u8);
}

/// What `read_text` finds in the image that `text_image` builds: the lossy
/// decoding of the text's own units whenever none of them is zero.
pub proof fn lemma_text_round_trip(text: Seq<char>)
    requires
        free_of(utf16_units(text), 0u16),
    ensures
        utf16_lossy(content(utf16_units(text).push(0u16), 0u16)) == utf16_lossy(
            utf16_units(text),
        ),
{
    lemma_stored_content(utf16_units(text), 0u16);
}

} // verus!
