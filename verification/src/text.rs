//! Text held in fixed-size, NUL-terminated byte buffers, such as player names
//! in game memory and module names in a process snapshot.
use vstd::prelude::*;
use vstd::utf8::{decode_utf8, decode_utf8_encode_utf8, encode_utf8, valid_utf8};

verus! {

/// What `String::from_utf8_lossy` makes of `bytes`: their characters, with
/// each invalid UTF-8 sequence replaced by U+FFFD.
pub uninterp spec fn lossy_text(bytes: Seq<u8>) -> Seq<char>;

/// Whether `i` is the position of the first NUL byte of `bytes`.
pub open spec fn is_first_nul(bytes: Seq<u8>, i: int) -> bool {
    &&& 0 <= i < bytes.len()
    &&& bytes[i] == 0
    &&& forall|j: int| 0 <= j < i ==> bytes[j] != 0
}

/// The bytes before the first NUL, or all of them when there is none.
pub open spec fn c_string_bytes(bytes: Seq<u8>) -> Seq<u8> {
    if exists|i: int| is_first_nul(bytes, i) {
        bytes.take(choose|i: int| is_first_nul(bytes, i))
    } else {
        bytes
    }
}

/// The text of a NUL-terminated buffer, decoded leniently.
pub open spec fn c_string_text(bytes: Seq<u8>) -> Seq<char> {
    lossy_text(c_string_bytes(bytes))
}

/// Calls `String::from_utf8_lossy` and takes ownership of the result. The
/// result is the name `lossy_text` of the bytes; where the bytes are valid
/// UTF-8 it is exactly the text they encode. Every character of the result
/// comes from at least one input byte (a decoded character, or U+FFFD for an
/// invalid sequence), so there are no more characters than bytes, and a NUL
/// character comes only from a NUL byte. Each character's UTF-8 encoding is
/// at most three bytes per input byte it comes from (a k-byte character from
/// k bytes, U+FFFD's three bytes from at least one), so the result's UTF-8
/// encoding is at most three times as long as the input. Which invalid
/// sequences are replaced is left to the name.
#[verifier::external_body]
fn utf8_lossy(bytes: &[u8]) -> (text: String)
    ensures
        text@ == lossy_text(bytes@),
        valid_utf8(bytes@) ==> text@ == decode_utf8(bytes@),
        text@.len() <= bytes@.len(),
        encode_utf8(text@).len() <= 3 * bytes@.len(),
        (forall|i: int| 0 <= i < bytes@.len() ==> bytes@[i] != 0) ==> (forall|j: int|
            0 <= j < text@.len() ==> text@[j] != '\0'),
{
    String::from_utf8_lossy(bytes).into_owned()
}

/// The bytes of `buffer` before its first NUL (all of them when it has none).
pub fn until_nul(buffer: &[u8]) -> (prefix: Vec<u8>)
    ensures
        prefix@ == c_string_bytes(buffer@),
        forall|j: int| 0 <= j < prefix@.len() ==> prefix@[j] != 0,
        prefix@.len() < buffer@.len() ==> buffer@[prefix@.len() as int] == 0,
{
    let mut prefix: Vec<u8> = Vec::new();
    let n = buffer.len();
    let mut k: usize = 0;
    while k < n
        invariant
            n == buffer@.len(),
            k <= n,
            prefix@ == buffer@.take(k as int),
            forall|j: int| 0 <= j < k ==> buffer@[j] != 0,
        decreases n - k,
    {
        if buffer[k] == 0 {
            proof {
                assert(is_first_nul(buffer@, k as int));
                assert forall|i: int| is_first_nul(buffer@, i) implies i == k by {
                    if i < k {
                        assert(buffer@[i] != 0);
                    } else if i > k {
                        assert(buffer@[k as int] != 0);
                    }
                }
            }
            return prefix;
        }
        prefix.push(buffer[k]);
        k = k + 1;
        assert(prefix@ =~= buffer@.take(k as int));
    }
    assert(!exists|i: int| is_first_nul(buffer@, i));
    assert(prefix@ =~= buffer@);
    prefix
}

/// The text of a NUL-terminated buffer: the bytes before the first NUL,
/// decoded as UTF-8 with invalid sequences replaced.
pub fn c_string(buffer: &[u8]) -> (text: String)
    ensures
        text@ == c_string_text(buffer@),
        valid_utf8(c_string_bytes(buffer@)) ==> text@ == decode_utf8(c_string_bytes(buffer@)),
        valid_utf8(c_string_bytes(buffer@)) ==> encode_utf8(text@) == c_string_bytes(buffer@),
        text@.len() <= buffer@.len(),
        encode_utf8(text@).len() <= 3 * buffer@.len(),
        forall|j: int| 0 <= j < text@.len() ==> text@[j] != '\0',
{
    let prefix = until_nul(buffer);
    let text = utf8_lossy(prefix.as_slice());
    proof {
        if valid_utf8(prefix@) {
            decode_utf8_encode_utf8(prefix@);
        }
    }
    text
}

} // verus!
