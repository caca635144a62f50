use vstd::prelude::*;
use vstd::utf8::*;
use crate::error::ErrorValue;

verus! {

/// The number of bytes before the first null byte, or the whole length when
/// no null byte occurs.
pub open spec fn nul_prefix_len(bytes: Seq<u8>) -> int
    decreases bytes.len(),
{
    if bytes.len() == 0 {
        0
    } else if bytes[0] == 0 {
        0
    } else {
        1 + nul_prefix_len(bytes.drop_first())
    }
}

/// The bytes before the first null terminator: what a native null-terminated
/// buffer actually says.
pub open spec fn nul_prefix(bytes: Seq<u8>) -> Seq<u8> {
    bytes.take(nul_prefix_len(bytes))
}

/// The prefix ends exactly at the first null byte: if every byte before
/// position `i` is non-null and position `i` is null (or the end), the
/// prefix length is `i`.
pub proof fn lemma_nul_prefix_len_at_first_nul(bytes: Seq<u8>, i: int)
    requires
        0 <= i <= bytes.len(),
        forall|j: int| 0 <= j < i ==> bytes[j] != 0,
        i < bytes.len() ==> bytes[i] == 0,
    ensures
        nul_prefix_len(bytes) == i,
    decreases i,
{
    if i == 0 {
    } else {
        assert(bytes[0] != 0);
        let rest = bytes.drop_first();
        assert forall|j: int| 0 <= j < i - 1 implies rest[j] != 0 by {
            assert(rest[j] == bytes[j + 1]);
        }
        if i - 1 < rest.len() {
            assert(rest[i - 1] == bytes[i]);
        }
        lemma_nul_prefix_len_at_first_nul(rest, i - 1);
    }
}

/// Reads the null-terminated prefix out of a fixed-size buffer: every byte
/// up to, and not including, the first null byte, or the whole buffer when
/// no null byte occurs.
pub fn nul_terminated_prefix(buf: &[u8]) -> (r: Vec<u8>)
    ensures
        r@ == nul_prefix(buf@),
{
    let mut r: Vec<u8> = Vec::new();
    let mut i: usize = 0;
    while i < buf.len()
        invariant
            0 <= i <= buf.len(),
            r@ == buf@.take(i as int),
            forall|j: int| 0 <= j < i ==> buf@[j] != 0,
        decreases buf.len() - i,
    {
        if buf[i] == 0 {
            proof {
                lemma_nul_prefix_len_at_first_nul(buf@, i as int);
            }
            return r;
        }
        r.push(buf[i]);
        proof {
            assert(buf@.take(i + 1) =~= buf@.take(i as int).push(buf@[i as int]));
        }
        i += 1;
    }
    proof {
        lemma_nul_prefix_len_at_first_nul(buf@, buf@.len() as int);
        assert(buf@.take(buf@.len() as int) =~= buf@);
    }
    r
}

/// Relies on `String::from_utf8`: it succeeds exactly on valid UTF-8 input
/// and returns the decoding of those bytes.
#[verifier::external_body]
fn bytes_to_text(bytes: Vec<u8>) -> (r: Option<String>)
    ensures
        match r {
            Some(s) => valid_utf8(bytes@) && s@ == decode_utf8(bytes@),
            None => !valid_utf8(bytes@),
        },
{
    String::from_utf8(bytes).ok()
}

/// Decodes a fixed-size, null-terminated text field as the native library
/// means it: the bytes before the first null terminator, validated as UTF-8.
/// Invalid encoding is reported as `EncodingFailure`, never replaced or
/// defaulted.
pub fn cause_text(buf: &[u8]) -> (r: Result<String, ErrorValue>)
    ensures
        valid_utf8(nul_prefix(buf@)) ==> (r matches Ok(s) && s@ == decode_utf8(nul_prefix(buf@))),
        !valid_utf8(nul_prefix(buf@)) ==> r == Err::<String, ErrorValue>(ErrorValue::EncodingFailure),
{
    let prefix = nul_terminated_prefix(buf);
    match bytes_to_text(prefix) {
        Some(s) => Ok(s),
        None => Err(ErrorValue::EncodingFailure),
    }
}

} // verus!
