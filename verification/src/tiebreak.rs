//! The tiebreak of a priority key: the 64-bit FNV-1a digest of the bytes
//! that identify the submitting thread.
use fnv::FnvHasher;
use std::hash::Hasher;
use vstd::prelude::*;

verus! {

/// The state of an FNV-1a hasher that has seen no input.
pub const FNV_OFFSET_BASIS: u64 = 0xcbf29ce484222325;

/// The multiplier of the 64-bit FNV hash.
pub const FNV_PRIME: u64 = 0x100000001b3;

/// The hasher state after one more byte: the byte is xor-ed into the low
/// bits of the state, and the result is multiplied by the FNV prime
/// modulo 2^64.
pub open spec fn fnv1a_step(state: u64, byte: u8) -> u64 {
    (state ^ (byte as u64)).wrapping_mul(FNV_PRIME)
}

/// The hasher state after the bytes of `bytes` were fed, first to last, to a
/// hasher in state `state`.
pub open spec fn fnv1a_fold(state: u64, bytes: Seq<u8>) -> u64
    decreases bytes.len(),
{
    if bytes.len() == 0 {
        state
    } else {
        fnv1a_step(fnv1a_fold(state, bytes.drop_last()), bytes.last())
    }
}

/// The 64-bit FNV-1a digest of `bytes`.
pub open spec fn fnv1a(bytes: Seq<u8>) -> u64 {
    fnv1a_fold(FNV_OFFSET_BASIS, bytes)
}

/// `fnv::FnvHasher`, taken as opaque: nothing is known of a hasher but
/// what the assumptions below say of its state.
#[verifier::external_type_specification]
#[verifier::external_body]
pub struct ExFnvHasher(FnvHasher);

/// The 64-bit state that an `fnv::FnvHasher` holds: its only field.
pub uninterp spec fn hasher_state(hasher: FnvHasher) -> u64;

/// `FnvHasher::default()`: assumed to return a hasher whose state is the FNV
/// offset basis.
pub assume_specification[ <FnvHasher as Default>::default ]() -> (hasher: FnvHasher)
    ensures
        hasher_state(hasher) == FNV_OFFSET_BASIS,
;

/// `FnvHasher::write`: assumed to advance the state by one FNV-1a step for
/// each byte of `bytes`, first to last.
pub assume_specification[ <FnvHasher as Hasher>::write ](hasher: &mut FnvHasher, bytes: &[u8])
    ensures
        hasher_state(*final(hasher)) == fnv1a_fold(hasher_state(*old(hasher)), bytes@),
;

/// `FnvHasher::finish`: assumed to return the current state.
pub assume_specification[ <FnvHasher as Hasher>::finish ](hasher: &FnvHasher) -> (digest: u64)
    ensures
        digest == hasher_state(*hasher),
;

/// Hashes the bytes that identify a thread into the tiebreak of its keys.
pub fn thread_hash(thread_id: &[u8]) -> (digest: u64)
    ensures
        digest == fnv1a(thread_id@),
{
    let mut hasher = FnvHasher::default();
    hasher.write(thread_id);
    hasher.finish()
}

} // verus!
