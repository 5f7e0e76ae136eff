//! Payload text: validation as UTF-8.

use vstd::prelude::*;
use vstd::utf8::{partial_valid_utf8_extend_ascii_block, valid_utf8};
use crate::error::InstructionError;

verus! {

/// The first `k` bytes of `bytes`.
pub open spec fn prefix(bytes: Seq<u8>, k: int) -> Seq<u8> {
    bytes.subrange(0, k)
}

/// `k` is the length of the longest prefix of `bytes` that is valid UTF-8.
pub open spec fn is_valid_up_to(bytes: Seq<u8>, k: int) -> bool {
    &&& 0 <= k <= bytes.len()
    &&& valid_utf8(prefix(bytes, k))
    &&& forall|j: int| k < j <= bytes.len() ==> !valid_utf8(#[trigger] prefix(bytes, j))
}

/// The length of the longest prefix of `bytes` that is valid UTF-8 and no
/// longer than `n`.
pub open spec fn longest_valid_prefix(bytes: Seq<u8>, n: nat) -> nat
    decreases n,
{
    if n == 0 || valid_utf8(prefix(bytes, n as int)) {
        n
    } else {
        longest_valid_prefix(bytes, (n - 1) as nat)
    }
}

/// The offset at which `bytes` stops being valid UTF-8: the length of its
/// longest valid prefix. For valid text this is the length of the text.
pub open spec fn valid_up_to(bytes: Seq<u8>) -> nat {
    longest_valid_prefix(bytes, bytes.len())
}

/// What validating a payload yields: success for valid UTF-8, else the
/// offset of the first violation.
pub open spec fn validated(bytes: Seq<u8>) -> Result<(), InstructionError> {
    if valid_utf8(bytes) {
        Ok(())
    } else {
        Err(InstructionError::InvalidPayload { valid_up_to: valid_up_to(bytes) as usize })
    }
}

proof fn lemma_longest_valid_prefix(bytes: Seq<u8>, n: nat)
    requires
        n <= bytes.len(),
    ensures
        longest_valid_prefix(bytes, n) <= n,
        valid_utf8(prefix(bytes, longest_valid_prefix(bytes, n) as int)),
        forall|j: int|
            longest_valid_prefix(bytes, n) < j <= n ==> !valid_utf8(#[trigger] prefix(bytes, j)),
    decreases n,
{
    if n == 0 {
        assert(prefix(bytes, 0).len() == 0);
    } else if !valid_utf8(prefix(bytes, n as int)) {
        lemma_longest_valid_prefix(bytes, (n - 1) as nat);
    }
}

/// Every byte sequence has exactly one offset up to which it is valid:
/// `valid_up_to`.
pub proof fn lemma_valid_up_to(bytes: Seq<u8>, k: int)
    ensures
        is_valid_up_to(bytes, valid_up_to(bytes) as int),
        is_valid_up_to(bytes, k) ==> k == valid_up_to(bytes),
        valid_utf8(bytes) <==> valid_up_to(bytes) == bytes.len(),
{
    lemma_longest_valid_prefix(bytes, bytes.len());
    assert(prefix(bytes, bytes.len() as int) =~= bytes);
    let m = valid_up_to(bytes) as int;
    if is_valid_up_to(bytes, k) {
        if k < m {
            assert(!valid_utf8(prefix(bytes, m)));
        } else if m < k {
            assert(!valid_utf8(prefix(bytes, k)));
        }
    }
}

/// Bytes below 0x80 are valid text: a payload of ASCII passes validation.
pub proof fn law_ascii_is_valid(bytes: Seq<u8>)
    requires
        forall|i: int| 0 <= i < bytes.len() ==> bytes[i] < 0x80,
    ensures
        valid_utf8(bytes),
        validated(bytes) is Ok,
{
    assert(prefix(bytes, 0).len() == 0);
    partial_valid_utf8_extend_ascii_block(bytes, 0, bytes.len() as int);
    assert(prefix(bytes, bytes.len() as int) =~= bytes);
}

/// Calls `std::str::from_utf8` on `bytes` and, where it fails, hands back
/// `Utf8Error::valid_up_to`. Not proved: that the call succeeds exactly on
/// valid UTF-8, and that the offset of a failure is the greatest index up to
/// which the bytes are valid UTF-8, as the documentation of both says.
#[verifier::external_body]
fn from_utf8_valid_up_to(bytes: &[u8]) -> (r: Result<(), usize>)
    ensures
        r is Ok <==> valid_utf8(bytes@),
        r matches Err(k) ==> is_valid_up_to(bytes@, k as int),
{
    match std::str::from_utf8(bytes) {
        Ok(_) => Ok(()),
        Err(e) => Err(e.valid_up_to()),
    }
}

/// Checks that `bytes` is valid UTF-8 and reports where it stops being so.
pub fn validate(bytes: &[u8]) -> (r: Result<(), InstructionError>)
    ensures
        r == validated(bytes@),
{
    match from_utf8_valid_up_to(bytes) {
        Ok(()) => Ok(()),
        Err(k) => {
            proof {
                lemma_valid_up_to(bytes@, k as int);
            }
            Err(InstructionError::InvalidPayload { valid_up_to: k })
        },
    }
}

} // verus!
