//! The streaming SHA-256 state.
//!
//! The hash itself is computed by `risc0_zkp`; nothing in this file is proved.
//! Each item states what the rest of the crate takes on trust about that code.

use crate::digest::Digest;
use vstd::prelude::*;

verus! {

/// Most bytes that one state may absorb: the hasher counts the bits it has seen
/// in 32 bits, so eight times the length must fit there.
pub const MAX_ABSORBED_BYTES: usize = 0x1FFF_FFFF;

/// A running SHA-256 computation: `rust_crypto::Sha256<Impl>` held opaquely.
#[verifier::external_body]
pub struct Sha256State {
    inner: risc0_zkp::core::hash::sha::rust_crypto::Sha256<risc0_zkp::core::hash::sha::Impl>,
}

/// Every byte that the state has absorbed since it was created, in order.
pub uninterp spec fn absorbed(state: Sha256State) -> Seq<u8>;

/// The 32 bytes that finalizing yields once exactly `bytes` have been absorbed.
/// For inputs of at most [`MAX_ABSORBED_BYTES`] bytes this is SHA-256.
pub uninterp spec fn sha256(bytes: Seq<u8>) -> Seq<u8>;

/// `Digest::new` on `rust_crypto::Sha256<Impl>`: a state that has absorbed
/// nothing yet.
#[verifier::external_body]
pub(crate) fn state_new() -> (state: Sha256State)
    ensures
        absorbed(state) == Seq::<u8>::empty(),
{
    Sha256State { inner: risc0_zkp::core::hash::sha::rust_crypto::Digest::new() }
}

/// `Digest::update`: appends `data` to what the state has absorbed. The total
/// is kept within [`MAX_ABSORBED_BYTES`], below which the hasher's block and
/// bit counters cannot overflow.
#[verifier::external_body]
pub(crate) fn state_update(state: &mut Sha256State, data: &[u8])
    requires
        absorbed(*old(state)).len() + data@.len() <= MAX_ABSORBED_BYTES,
    ensures
        absorbed(*final(state)) == absorbed(*old(state)) + data@,
{
    risc0_zkp::core::hash::sha::rust_crypto::Digest::update(&mut state.inner, data);
}

/// `Digest::finalize`: consumes the state and returns the hash of everything
/// it absorbed, a value that depends on those bytes alone.
#[verifier::external_body]
pub(crate) fn state_finalize(state: Sha256State) -> (digest: Digest)
    requires
        absorbed(state).len() <= MAX_ABSORBED_BYTES,
    ensures
        digest@ == sha256(absorbed(state)),
{
    Digest { bytes: risc0_zkp::core::hash::sha::rust_crypto::Digest::finalize(state.inner).into() }
}

} // verus!
