//! Identities and the few operations on byte ranges that the records need.

use vstd::prelude::*;

verus! {

/// Length in bytes of an identity.
pub const KEY_LEN: usize = 32;

/// An identity: a fixed-size opaque token that names a slot or the entity
/// that controls it.
pub type Key = [u8; 32];

/// `n` zero bytes.
pub open spec fn zeros(n: nat) -> Seq<u8> {
    Seq::new(n, |i: int| 0u8)
}

/// The reserved identity that stands for "absent": all bytes zero.
pub open spec fn zero_key() -> Seq<u8> {
    zeros(KEY_LEN as nat)
}

/// Overwrites `dst` with `src`. Both must have the same length.
pub fn copy_bytes(dst: &mut [u8], src: &[u8])
    requires
        old(dst).len() == src.len(),
    ensures
        final(dst)@ == src@,
{
    let n: usize = src.len();
    let mut i: usize = 0;
    while i < n
        invariant
            i <= n,
            n == src.len(),
            dst.len() == n,
            forall|j: int| 0 <= j < i ==> dst@[j] == src@[j],
        decreases n - i,
    {
        dst[i] = src[i];
        i += 1;
    }
    assert(dst@ =~= src@);
}

/// Tells whether two byte ranges hold the same bytes.
pub fn bytes_eq(a: &[u8], b: &[u8]) -> (same: bool)
    ensures
        same == (a@ == b@),
{
    if a.len() != b.len() {
        return false;
    }
    let n: usize = a.len();
    let mut i: usize = 0;
    while i < n
        invariant
            i <= n,
            n == a.len(),
            n == b.len(),
            forall|j: int| 0 <= j < i ==> a@[j] == b@[j],
        decreases n - i,
    {
        if a[i] != b[i] {
            return false;
        }
        i += 1;
    }
    assert(a@ =~= b@);
    true
}

/// Tells whether every byte of `a` is zero.
pub fn is_zero(a: &[u8]) -> (zero: bool)
    ensures
        zero == (a@ == zeros(a@.len())),
{
    let n: usize = a.len();
    let mut i: usize = 0;
    while i < n
        invariant
            i <= n,
            n == a.len(),
            forall|j: int| 0 <= j < i ==> a@[j] == 0,
        decreases n - i,
    {
        if a[i] != 0 {
            assert(zeros(a@.len())[i as int] == 0);
            return false;
        }
        i += 1;
    }
    assert(a@ =~= zeros(a@.len()));
    true
}

} // verus!
