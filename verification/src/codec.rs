use vstd::prelude::*;
use vstd::slice::{slice_subrange, slice_to_vec};
use vstd::string::{StrSliceExecFns, StringSliceAdditionalSpecFns};
use vstd::utf8::{decode_utf8, encode_utf8, valid_utf8};

use crate::error::Error;

verus! {

/// True when `bytes` contains a NUL byte.
pub open spec fn has_nul(bytes: Seq<u8>) -> bool {
    exists|i: int| 0 <= i < bytes.len() && bytes[i] == 0
}

/// The owned NUL-terminated buffer that carries `bytes` across the native
/// boundary: the bytes themselves followed by one terminating NUL.
pub open spec fn c_encoding(bytes: Seq<u8>) -> Seq<u8> {
    bytes.push(0)
}

/// Index of the first NUL byte, or the length when none occurs.
pub open spec fn nul_index(bytes: Seq<u8>) -> int
    decreases bytes.len(),
{
    if bytes.len() == 0 {
        0
    } else if bytes[0] == 0 {
        0
    } else {
        1 + nul_index(bytes.drop_first())
    }
}

/// The content of a NUL-terminated buffer: the bytes before the first NUL.
pub open spec fn c_content(bytes: Seq<u8>) -> Seq<u8> {
    bytes.take(nul_index(bytes))
}

pub proof fn lemma_nul_index_bounds(bytes: Seq<u8>)
    ensures
        0 <= nul_index(bytes) <= bytes.len(),
        forall|i: int| 0 <= i < nul_index(bytes) ==> bytes[i] != 0,
        nul_index(bytes) < bytes.len() ==> bytes[nul_index(bytes)] == 0,
    decreases bytes.len(),
{
    if bytes.len() == 0 {
    } else if bytes[0] == 0 {
    } else {
        lemma_nul_index_bounds(bytes.drop_first());
        assert forall|i: int| 0 <= i < nul_index(bytes) implies bytes[i] != 0 by {
            if i > 0 {
                assert(bytes.drop_first()[i - 1] == bytes[i]);
            }
        }
        if nul_index(bytes) < bytes.len() {
            assert(bytes.drop_first()[nul_index(bytes) - 1] == bytes[nul_index(bytes)]);
        }
    }
}

/// A position with no NUL before it, and a NUL (or the end) at it, is the
/// first-NUL position.
pub proof fn lemma_nul_index_of_clean(bytes: Seq<u8>, i: int)
    requires
        0 <= i <= bytes.len(),
        forall|j: int| 0 <= j < i ==> bytes[j] != 0,
        i < bytes.len() ==> bytes[i] == 0,
    ensures
        nul_index(bytes) == i,
    decreases bytes.len(),
{
    if bytes.len() == 0 {
    } else if bytes[0] == 0 {
        assert(i == 0);
    } else {
        assert(forall|j: int| 0 <= j < i - 1 ==> bytes.drop_first()[j] == bytes[j + 1]);
        if i - 1 < bytes.drop_first().len() {
            assert(bytes.drop_first()[i - 1] == bytes[i]);
        }
        lemma_nul_index_of_clean(bytes.drop_first(), i - 1);
    }
}

pub proof fn lemma_has_nul_nul_index(bytes: Seq<u8>)
    ensures
        has_nul(bytes) <==> nul_index(bytes) < bytes.len(),
{
    lemma_nul_index_bounds(bytes);
    if has_nul(bytes) && nul_index(bytes) == bytes.len() {
        let i = choose|i: int| 0 <= i < bytes.len() && bytes[i] == 0;
        assert(bytes[i] != 0);
    }
}

/// Scan a buffer for its first NUL byte.
pub fn find_nul(bytes: &[u8]) -> (r: usize)
    ensures
        r as int == nul_index(bytes@),
{
    let n = bytes.len();
    let mut i: usize = 0;
    while i < n
        invariant
            0 <= i <= n,
            n == bytes@.len(),
            forall|j: int| 0 <= j < i ==> bytes@[j] != 0,
        decreases n - i,
    {
        if *slice_subrange(bytes, i, i + 1).first().unwrap() == 0 {
            proof {
                lemma_nul_index_of_clean(bytes@, i as int);
            }
            return i;
        }
        i = i + 1;
    }
    proof {
        lemma_nul_index_of_clean(bytes@, n as int);
    }
    n
}

/// Encode host text as an owned NUL-terminated byte buffer.
///
/// Fails with `InvalidInput` exactly when the text's bytes contain an
/// embedded NUL. The codec never touches native memory: on failure nothing
/// has been allocated anywhere but the rejected local buffer.
pub fn to_c_string(text: &str) -> (r: Result<Vec<u8>, Error>)
    ensures
        !has_nul(text.spec_bytes()) ==> (r matches Ok(b) && b@ == c_encoding(text.spec_bytes())),
        has_nul(text.spec_bytes()) ==> (r matches Err(e) && e == Error::InvalidInput),
{
    let bytes = text.as_bytes_vec();
    let n = find_nul(bytes.as_slice());
    proof {
        lemma_has_nul_nul_index(bytes@);
    }
    if n < bytes.len() {
        Err(Error::InvalidInput)
    } else {
        let mut buf = bytes;
        buf.push(0);
        Ok(buf)
    }
}

/// Relies on `String::from_utf8`: it returns `Ok` exactly when the bytes are
/// valid UTF-8, and the returned string holds exactly the input bytes.
#[verifier::external_body]
fn bytes_to_string(bytes: Vec<u8>) -> (r: Option<String>)
    ensures
        r matches Some(s) ==> encode_utf8(s@) == bytes@,
        r is Some <==> valid_utf8(bytes@),
{
    String::from_utf8(bytes).ok()
}

/// Decode a borrowed NUL-terminated native buffer back to text.
///
/// Reads the bytes before the first NUL (the whole buffer when none occurs)
/// and fails with `InvalidEncoding` when they are not valid text. The buffer
/// is only borrowed: the codec neither owns nor frees it.
pub fn from_c_string(buf: &[u8]) -> (r: Result<String, Error>)
    ensures
        valid_utf8(c_content(buf@)) ==> (r matches Ok(s) && s@ == decode_utf8(c_content(buf@))),
        !valid_utf8(c_content(buf@)) ==> (r matches Err(e) && e == Error::InvalidEncoding),
{
    proof {
        lemma_nul_index_bounds(buf@);
    }
    let n = find_nul(buf);
    let content = slice_to_vec(slice_subrange(buf, 0, n));
    proof {
        assert(content@ =~= c_content(buf@));
    }
    match bytes_to_string(content) {
        Some(s) => {
            proof {
                vstd::utf8::encode_utf8_decode_utf8(s@);
            }
            Ok(s)
        },
        None => Err(Error::InvalidEncoding),
    }
}

/// Compare two byte strings for equality.
pub fn bytes_eq(a: &[u8], b: &[u8]) -> (r: bool)
    ensures
        r == (a@ == b@),
{
    let n = a.len();
    if n != b.len() {
        return false;
    }
    let mut i: usize = 0;
    while i < n
        invariant
            0 <= i <= n,
            n == a@.len(),
            n == b@.len(),
            forall|j: int| 0 <= j < i ==> a@[j] == b@[j],
        decreases n - i,
    {
        if *slice_subrange(a, i, i + 1).first().unwrap() != *slice_subrange(
            b,
            i,
            i + 1,
        ).first().unwrap() {
            return false;
        }
        i = i + 1;
    }
    proof {
        assert(a@ =~= b@);
    }
    true
}

/// True of a well-formed C string buffer: at least the terminator, whose
/// position is the last, with no NUL before it.
pub open spec fn is_c_buffer(b: Seq<u8>) -> bool {
    b.len() >= 1 && nul_index(b) == b.len() - 1
}

/// Encoding NUL-free bytes yields a well-formed C string buffer whose
/// content is those bytes.
pub proof fn lemma_c_encoding_buffer(bytes: Seq<u8>)
    requires
        !has_nul(bytes),
    ensures
        is_c_buffer(c_encoding(bytes)),
        c_content(c_encoding(bytes)) == bytes,
{
    let buf = c_encoding(bytes);
    assert forall|j: int| 0 <= j < bytes.len() implies buf[j] != 0 by {
        assert(!(exists|i: int| 0 <= i < bytes.len() && bytes[i] == 0));
    }
    lemma_nul_index_of_clean(buf, bytes.len() as int);
    assert(buf.take(bytes.len() as int) =~= bytes);
}

/// Law: text whose bytes are free of NUL encodes, and decoding the encoded
/// buffer yields the original text.
pub proof fn lemma_codec_round_trip(text: Seq<char>)
    requires
        !has_nul(encode_utf8(text)),
    ensures
        c_content(c_encoding(encode_utf8(text))) == encode_utf8(text),
        valid_utf8(encode_utf8(text)),
        decode_utf8(encode_utf8(text)) == text,
{
    let enc = encode_utf8(text);
    let buf = c_encoding(enc);
    assert forall|j: int| 0 <= j < enc.len() implies buf[j] != 0 by {
        assert(!(exists|i: int| 0 <= i < enc.len() && enc[i] == 0));
    }
    lemma_nul_index_of_clean(buf, enc.len() as int);
    assert(buf.take(enc.len() as int) =~= enc);
    vstd::utf8::encode_utf8_valid_utf8(text);
    vstd::utf8::encode_utf8_decode_utf8(text);
}

} // verus!
