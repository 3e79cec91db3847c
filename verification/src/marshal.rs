//! String and buffer marshalling at the native boundary.
//!
//! Text crosses the boundary as null-terminated byte sequences.  Inputs are
//! terminated here, and an input holding an interior null byte is rejected
//! rather than silently cut short.  Text outputs arrive in a caller-supplied
//! buffer of [`NATIVE_TEXT_BUFFER_LEN`] bytes; the payload is the prefix up
//! to the first null byte, or up to the length the native call reported for
//! the operations that return a count, and must decode as UTF-8.  A decode
//! failure is surfaced with the raw payload bytes so that a caller can fall
//! back to them.

use vstd::prelude::*;

verus! {

use vstd::slice::slice_to_vec;
use vstd::string::StringSliceAdditionalSpecFns;
use vstd::utf8::char_is_scalar;
use vstd::utf8::decode_utf8;
use vstd::utf8::encode_scalar;
use vstd::utf8::encode_utf8;
use vstd::utf8::has_width_1_encoding;
use vstd::utf8::has_width_2_encoding;
use vstd::utf8::has_width_3_encoding;
use vstd::utf8::valid_utf8;

/// Number of bytes in every fixed text buffer handed to the native component.
pub const NATIVE_TEXT_BUFFER_LEN: usize = 255;

/// The bytes hold no null byte, so they can be null-terminated losslessly.
pub open spec fn no_nul_byte(s: Seq<u8>) -> bool {
    forall|i: int| 0 <= i < s.len() ==> s[i] != 0
}

/// The text holds no null character, so its encoding holds no null byte.
pub open spec fn no_nul_char(s: Seq<char>) -> bool {
    forall|i: int| 0 <= i < s.len() ==> s[i] as u32 != 0
}

/// Index of the first null byte, or the length when there is none.
pub open spec fn first_nul(s: Seq<u8>) -> int
    decreases s.len(),
{
    if s.len() == 0 {
        0
    } else if s[0] == 0 {
        0
    } else {
        1 + first_nul(s.drop_first())
    }
}

/// The payload of a null-terminated buffer: everything before the first
/// null byte, or the whole buffer when no null byte was written.
pub open spec fn nul_prefix(s: Seq<u8>) -> Seq<u8> {
    s.take(first_nul(s))
}

/// The payload of a buffer whose fill the native call reported as a count:
/// the reported prefix, or the whole buffer for a count outside it.
pub open spec fn reported_prefix(s: Seq<u8>, len: int) -> Seq<u8> {
    if 0 <= len <= s.len() {
        s.take(len)
    } else {
        s
    }
}

/// An index with no null byte before it and a null byte (or the end) at it
/// is exactly `first_nul`.
proof fn lemma_first_nul_unique(s: Seq<u8>, i: int)
    requires
        0 <= i <= s.len(),
        forall|j: int| 0 <= j < i ==> s[j] != 0,
        i < s.len() ==> s[i] == 0,
    ensures
        first_nul(s) == i,
    decreases s.len(),
{
    if i == 0 {
    } else {
        assert(s[0] != 0);
        lemma_first_nul_unique(s.drop_first(), i - 1);
    }
}

proof fn lemma_encode_scalar_no_nul(c: u32)
    requires
        c != 0,
    ensures
        forall|k: int| 0 <= k < encode_scalar(c).len() ==> encode_scalar(c)[k] != 0,
{
    if has_width_1_encoding(c) {
        assert((c & 0x7F) as u8 != 0) by (bit_vector)
            requires
                c != 0 && c < 0x80,
        ;
    } else if has_width_2_encoding(c) {
        assert((0xC0 | ((c >> 6) & 0x1F) as u8) != 0) by (bit_vector);
        assert((0x80 | (c & 0x3F) as u8) != 0) by (bit_vector);
    } else if has_width_3_encoding(c) {
        assert((0xE0 | ((c >> 12) & 0x0F) as u8) != 0) by (bit_vector);
        assert((0x80 | ((c >> 6) & 0x3F) as u8) != 0) by (bit_vector);
        assert((0x80 | (c & 0x3F) as u8) != 0) by (bit_vector);
    } else {
        assert((0xF0 | ((c >> 18) & 0x7) as u8) != 0) by (bit_vector);
        assert((0x80 | ((c >> 12) & 0x3F) as u8) != 0) by (bit_vector);
        assert((0x80 | ((c >> 6) & 0x3F) as u8) != 0) by (bit_vector);
        assert((0x80 | (c & 0x3F) as u8) != 0) by (bit_vector);
    }
}

/// A text holds a null character exactly when its UTF-8 encoding holds a
/// null byte: only U+0000 encodes to (or through) the byte zero.  This ties
/// the character-level precondition of the proxy's string inputs to the
/// byte-level test a null-terminated boundary crossing actually makes.
pub proof fn lemma_no_nul_char_iff_no_nul_byte(s: Seq<char>)
    ensures
        no_nul_char(s) <==> no_nul_byte(encode_utf8(s)),
    decreases s.len(),
{
    if s.len() == 0 {
    } else {
        let c = s[0] as u32;
        let head = encode_scalar(c);
        let rest = encode_utf8(s.drop_first());
        char_is_scalar(s[0]);
        lemma_no_nul_char_iff_no_nul_byte(s.drop_first());
        assert(forall|i: int| 0 < i < s.len() ==> s[i] == s.drop_first()[i - 1]);
        if no_nul_char(s) {
            lemma_encode_scalar_no_nul(c);
            assert forall|k: int| 0 <= k < encode_utf8(s).len() implies encode_utf8(s)[k]
                != 0 by {
                if k < head.len() {
                    assert(encode_utf8(s)[k] == head[k]);
                } else {
                    assert(encode_utf8(s)[k] == rest[k - head.len()]);
                }
            }
        } else {
            if c == 0 {
                assert(has_width_1_encoding(c));
                assert((0u32 & 0x7F) as u8 == 0) by (bit_vector);
                assert(head[0] == 0);
                assert(encode_utf8(s)[0] == head[0]);
            } else {
                let i = choose|i: int| 0 <= i < s.len() && s[i] as u32 == 0;
                assert(s.drop_first()[i - 1] as u32 == 0);
                assert(!no_nul_char(s.drop_first()));
                let k = choose|k: int| 0 <= k < rest.len() && rest[k] == 0;
                assert(encode_utf8(s)[head.len() + k] == 0);
            }
        }
    }
}

/// Whether the string holds an interior null, which no null-terminated
/// boundary crossing can carry.  The test scans the byte encoding, as the
/// boundary itself does.
pub fn has_interior_nul(s: &str) -> (r: bool)
    ensures
        r == !no_nul_char(s@),
{
    proof {
        lemma_no_nul_char_iff_no_nul_byte(s@);
    }
    let bytes = s.as_bytes();
    let n = bytes.len();
    let mut i: usize = 0;
    while i < n
        invariant
            i <= n,
            n == bytes@.len(),
            bytes@ == s.spec_bytes(),
            forall|j: int| 0 <= j < i ==> bytes@[j] != 0,
        decreases n - i,
    {
        if bytes[i] == 0 {
            proof {
                assert(bytes@[i as int] == 0);
                assert(!no_nul_byte(s.spec_bytes()));
                assert(!no_nul_byte(encode_utf8(s@)));
                lemma_no_nul_char_iff_no_nul_byte(s@);
                assert(!no_nul_char(s@));
            }
            return true;
        }
        i += 1;
    }
    false
}

/// Terminates the bytes with a null byte, rejecting input that already
/// holds one.
pub fn nul_terminated(s: &[u8]) -> (r: Option<Vec<u8>>)
    ensures
        r is Some <==> no_nul_byte(s@),
        r matches Some(v) ==> v@ == s@.push(0),
{
    let n = s.len();
    let mut i: usize = 0;
    while i < n
        invariant
            i <= n,
            n == s@.len(),
            forall|j: int| 0 <= j < i ==> s@[j] != 0,
        decreases n - i,
    {
        if s[i] == 0 {
            return None;
        }
        i += 1;
    }
    let mut v = slice_to_vec(s);
    v.push(0);
    Some(v)
}

/// Cuts the buffer down to its payload: the bytes before the first null.
pub fn truncate_at_nul(buf: Vec<u8>) -> (r: Vec<u8>)
    ensures
        r@ == nul_prefix(buf@),
{
    let mut buf = buf;
    let n = buf.len();
    let mut i: usize = 0;
    while i < n && buf[i] != 0
        invariant
            i <= n,
            n == buf@.len(),
            forall|j: int| 0 <= j < i ==> buf@[j] != 0,
        decreases n - i,
    {
        i += 1;
    }
    proof {
        lemma_first_nul_unique(buf@, i as int);
    }
    buf.truncate(i);
    buf
}

/// Cuts the buffer down to the prefix the native call reported; a count
/// outside the buffer leaves it whole, as truncation to a larger length
/// does.
pub fn truncate_reported(buf: Vec<u8>, len: i32) -> (r: Vec<u8>)
    ensures
        r@ == reported_prefix(buf@, len as int),
{
    let mut buf = buf;
    if len >= 0 && len as usize <= buf.len() {
        buf.truncate(len as usize);
    }
    buf
}

/// A text output that was not valid UTF-8, carrying the raw payload bytes
/// so the caller can fall back to them.
#[derive(Clone, PartialEq, Eq, Debug)]
pub struct DecodeFailure {
    pub bytes: Vec<u8>,
}

/// Relies on `str::from_utf8` (together with `str::to_string` to take
/// ownership of the parse): it succeeds exactly on valid UTF-8 and yields
/// the decoded characters.
#[verifier::external_body]
fn utf8_to_string(bytes: &[u8]) -> (r: Option<String>)
    ensures
        r is Some <==> valid_utf8(bytes@),
        r matches Some(s) ==> s@ == decode_utf8(bytes@),
{
    match std::str::from_utf8(bytes) {
        Ok(s) => Some(s.to_string()),
        Err(_) => None,
    }
}

/// Decodes payload bytes as UTF-8 text, handing the bytes back on failure.
pub fn decode_text(bytes: Vec<u8>) -> (r: Result<String, DecodeFailure>)
    ensures
        valid_utf8(bytes@) ==> (r matches Ok(s) && s@ == decode_utf8(bytes@)),
        !valid_utf8(bytes@) ==> (r matches Err(e) && e.bytes@ == bytes@),
{
    match utf8_to_string(bytes.as_slice()) {
        Some(s) => Ok(s),
        None => Err(DecodeFailure { bytes }),
    }
}

} // verus!
