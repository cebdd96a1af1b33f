use vstd::prelude::*;

use crate::junction::DeriveJunction;
use crate::signature::Signature;
use sp_core::crypto::Derive;

verus! {

/// The exact byte length of an sr25519 public key.
pub const PUBLIC_KEY_LENGTH: usize = 32;

/// What sr25519 signature verification returns: acceptance is a function of
/// the signature, message and public key bytes alone.
pub uninterp spec fn verifies(sig: Seq<u8>, msg: Seq<u8>, pk: Seq<u8>) -> bool;

/// What one soft public derivation step returns: `None` when the public key
/// bytes do not decode to a Ristretto point, otherwise the child public key
/// bytes; a function of the parent bytes and the chain code alone.
pub uninterp spec fn public_step(pk: Seq<u8>, cc: Seq<u8>) -> Option<Seq<u8>>;

/// The public key bytes at the end of a derivation path, walked left to
/// right: `None` as soon as a hard junction appears, or when a soft step
/// fails on bytes that are not a valid point encoding.
pub open spec fn public_after(pk: Seq<u8>, path: Seq<DeriveJunction>) -> Option<Seq<u8>>
    decreases path.len(),
{
    if path.len() == 0 {
        Some(pk)
    } else {
        match path[0] {
            DeriveJunction::Hard(_) => None,
            DeriveJunction::Soft(cc) => match public_step(pk, cc@) {
                Some(next) => public_after(next, path.skip(1)),
                None => None,
            },
        }
    }
}

/// Law: a path that holds any hard junction has no public-only derivation.
pub proof fn lemma_hard_junction_blocks_public_derive(pk: Seq<u8>, path: Seq<DeriveJunction>)
    requires
        exists|i: int| 0 <= i < path.len() && path[i] is Hard,
    ensures
        public_after(pk, path) is None,
    decreases path.len(),
{
    let i = choose|i: int| 0 <= i < path.len() && path[i] is Hard;
    if i > 0 {
        match path[0] {
            DeriveJunction::Hard(_) => {},
            DeriveJunction::Soft(cc) => {
                match public_step(pk, cc@) {
                    Some(next) => {
                        assert(path.skip(1)[i - 1] is Hard);
                        lemma_hard_junction_blocks_public_derive(next, path.skip(1));
                    },
                    None => {},
                }
            },
        }
    }
}

/// An sr25519 public key: exactly 32 raw bytes. Nothing beyond the length is
/// checked at construction; bytes that are no valid point encoding simply
/// fail to verify anything and cannot be derived from.
#[derive(Debug, Clone, Copy, Eq, PartialEq, Hash, Ord, PartialOrd)]
pub struct PublicKey {
    bytes: [u8; 32],
}

impl View for PublicKey {
    type V = Seq<u8>;

    closed spec fn view(&self) -> Seq<u8> {
        self.bytes@
    }
}

/// Relies on `sp_core::sr25519::Pair::verify` (schnorrkel `verify_simple`
/// under the `substrate` signing context): deterministic in the signature,
/// message and public key bytes; malformed inputs yield `false`, never an
/// error.
#[verifier::external_body]
fn verify_call(pk: &[u8; 32], sig: &[u8; 64], message: &[u8]) -> (r: bool)
    ensures
        r == verifies(sig@, message@, pk@),
{
    let s = sp_core::sr25519::Signature::from_raw(*sig);
    let p = sp_core::sr25519::Public::from_raw(*pk);
    <sp_core::sr25519::Pair as sp_core::crypto::Pair>::verify(&s, message, &p)
}

/// Relies on `sp_core::crypto::Derive::derive` for `sp_core::sr25519::Public`
/// with a single soft junction: deterministic in the parent bytes and chain
/// code; `None` exactly when the parent bytes decode to no Ristretto point.
#[verifier::external_body]
fn public_step_call(pk: &[u8; 32], cc: &[u8; 32]) -> (r: Option<[u8; 32]>)
    ensures
        match r {
            Some(next) => public_step(pk@, cc@) == Some(next@),
            None => public_step(pk@, cc@) is None,
        },
{
    let p = sp_core::sr25519::Public::from_raw(*pk);
    p.derive(core::iter::once(sp_core::crypto::DeriveJunction::Soft(*cc))).map(|q| q.to_raw())
}

impl PublicKey {
    /// Wraps the given 32 bytes as a public key without any point check.
    pub fn from_raw(data: [u8; 32]) -> (r: Self)
        ensures
            r@ == data@,
    {
        PublicKey { bytes: data }
    }

    /// The raw 32 public key bytes.
    pub fn to_raw(&self) -> (r: [u8; 32])
        ensures
            r@ == self@,
    {
        self.bytes
    }

    /// Checks a signature on a message: `true` exactly when the scheme
    /// accepts it. A forged or malformed signature yields `false`; no error
    /// and no detail beyond the boolean is ever reported.
    pub fn verify(&self, sig: &Signature, message: &[u8]) -> (r: bool)
        ensures
            r == verifies(sig@, message@, self@),
    {
        verify_call(&self.bytes, &sig.to_raw(), message)
    }

    /// Walks the path left to right with public-only derivation: `None` as
    /// soon as any junction is hard, since a hard step has no public-key-only
    /// counterpart by construction.
    pub fn derive(&self, path: &[DeriveJunction]) -> (r: Option<PublicKey>)
        ensures
            match r {
                Some(pk) => public_after(self@, path@) == Some(pk@),
                None => public_after(self@, path@) is None,
            },
            (exists|i: int| 0 <= i < path@.len() && path@[i] is Hard) ==> r is None,
    {
        let mut cur: [u8; 32] = self.bytes;
        let mut i: usize = 0;
        proof {
            assert(path@.skip(0) =~= path@);
        }
        while i < path.len()
            invariant
                i <= path@.len(),
                public_after(self@, path@) == public_after(cur@, path@.skip(i as int)),
            decreases path@.len() - i,
        {
            proof {
                assert(path@.skip(i as int)[0] == path@[i as int]);
                assert(path@.skip(i as int).skip(1) =~= path@.skip(i as int + 1));
            }
            match path[i] {
                DeriveJunction::Hard(_) => {
                    return None;
                },
                DeriveJunction::Soft(cc) => {
                    match public_step_call(&cur, &cc) {
                        Some(next) => {
                            cur = next;
                        },
                        None => {
                            return None;
                        },
                    }
                },
            }
            i = i + 1;
        }
        proof {
            assert(path@.skip(path@.len() as int) =~= Seq::<DeriveJunction>::empty());
            if exists|i: int| 0 <= i < path@.len() && path@[i] is Hard {
                lemma_hard_junction_blocks_public_derive(self@, path@);
            }
        }
        Some(PublicKey { bytes: cur })
    }
}

} // verus!
