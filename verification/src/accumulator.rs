//! The hash accumulator handle and its lifecycle.

use crate::digest::Digest;
use crate::sha256::{
    absorbed, sha256, state_finalize, state_new, state_update, Sha256State, MAX_ABSORBED_BYTES,
};
use vstd::prelude::*;

verus! {

/// Handle to a streaming SHA-256 computation.
///
/// A handle is *live* while it owns a hash state and *spent* once
/// [`CSha256::finalize`] has taken that state out. Its view is `Some` of the
/// bytes absorbed so far while live, and `None` once spent.
pub struct CSha256 {
    inner: Option<Sha256State>,
    len: usize,
}

impl View for CSha256 {
    type V = Option<Seq<u8>>;

    closed spec fn view(&self) -> Option<Seq<u8>> {
        match self.inner {
            Some(state) => Some(absorbed(state)),
            None => None,
        }
    }
}

impl CSha256 {
    #[verifier::type_invariant]
    spec fn wf(self) -> bool {
        self.inner matches Some(state) ==> absorbed(state).len() == self.len && self.len
            <= MAX_ABSORBED_BYTES
    }

    /// Whether `n` more bytes may be absorbed: the handle is live and the total
    /// stays within [`MAX_ABSORBED_BYTES`].
    pub open spec fn accepts(&self, n: nat) -> bool {
        self@ matches Some(bytes) && bytes.len() + n <= MAX_ABSORBED_BYTES
    }

    /// A live handle that has absorbed nothing.
    pub fn new() -> (hasher: CSha256)
        ensures
            hasher@ == Some(Seq::<u8>::empty()),
    {
        CSha256 { inner: Some(state_new()), len: 0 }
    }

    /// Whether the handle still owns its hash state.
    pub fn is_live(&self) -> (live: bool)
        ensures
            live == (self@ is Some),
    {
        self.inner.is_some()
    }

    /// Tests whether `n` more bytes may be absorbed.
    pub fn can_absorb(&self, n: usize) -> (ok: bool)
        ensures
            ok == self.accepts(n as nat),
    {
        proof {
            use_type_invariant(self);
        }
        self.inner.is_some() && n <= MAX_ABSORBED_BYTES - self.len
    }

    /// Absorbs `data` after everything absorbed before.
    pub fn update(&mut self, data: &[u8])
        requires
            old(self).accepts(data@.len()),
        ensures
            final(self)@ == Some(old(self)@->0 + data@),
    {
        proof {
            use_type_invariant(&*self);
        }
        let mut taken: Option<Sha256State> = None;
        core::mem::swap(&mut taken, &mut self.inner);
        let mut state = taken.unwrap();
        state_update(&mut state, data);
        self.len = self.len + data.len();
        self.inner = Some(state);
    }

    /// Takes the hash state out and finishes it: the digest of every byte
    /// absorbed. The handle is spent afterwards.
    pub fn finalize(&mut self) -> (digest: Box<Digest>)
        requires
            old(self)@ is Some,
        ensures
            final(self)@ is None,
            digest@ == sha256(old(self)@->0),
    {
        proof {
            use_type_invariant(&*self);
        }
        let mut taken: Option<Sha256State> = None;
        core::mem::swap(&mut taken, &mut self.inner);
        Box::new(state_finalize(taken.unwrap()))
    }
}

/// Creates a fresh accumulator on the heap and hands its ownership to the
/// caller.
pub fn init_sha256() -> (hasher: Box<CSha256>)
    ensures
        hasher@ == Some(Seq::<u8>::empty()),
{
    Box::new(CSha256::new())
}

/// Absorbs `data` into `hasher`. With no handle or no data the call does
/// nothing.
pub fn sha256_update(hasher: Option<&mut CSha256>, data: Option<&[u8]>)
    requires
        hasher matches Some(h) ==> (data matches Some(d) ==> h.accepts(d@.len())),
    ensures
        hasher matches Some(h) ==> final(h)@ == (match data {
            Some(d) => Some(h@->0 + d@),
            None => h@,
        }),
{
    match hasher {
        Some(h) => {
            match data {
                Some(d) => {
                    h.update(d);
                },
                None => {},
            }
        },
        None => {},
    }
}

/// Finishes the hash behind `hasher` and returns its digest, or nothing where
/// there is no handle.
pub fn sha256_finalize(hasher: Option<&mut CSha256>) -> (digest: Option<Box<Digest>>)
    requires
        hasher matches Some(h) ==> h@ is Some,
    ensures
        hasher is None ==> digest is None,
        hasher matches Some(h) ==> (final(h)@ is None && digest is Some && digest->0@ == sha256(
            h@->0,
        )),
{
    match hasher {
        Some(h) => Some(h.finalize()),
        None => None,
    }
}

/// Releases the handle's storage. Without a handle there is nothing to do.
pub fn sha256_free(hasher: Option<Box<CSha256>>) {
    if let Some(handle) = hasher {
        let _released: Box<CSha256> = handle;
    }
}

} // verus!
