use vstd::prelude::*;

verus! {

/// What `sp_crypto_hashing::blake2_256` returns: a 32-byte Blake2b digest,
/// a function of the input bytes alone.
pub uninterp spec fn blake2_hash(data: Seq<u8>) -> Seq<u8>;

/// The canonical 32-byte payload an encoded junction index is reduced to:
/// an encoding of at most 32 bytes is kept and zero-padded on the right,
/// a longer one is replaced by its 32-byte Blake2b digest.
pub open spec fn junction_payload(data: Seq<u8>) -> Seq<u8> {
    if data.len() > 32 {
        blake2_hash(data)
    } else {
        data + Seq::new((32 - data.len()) as nat, |i: int| 0u8)
    }
}

/// Relies on `sp_crypto_hashing::blake2_256`: the 256-bit Blake2b digest of
/// the input, depending on the input bytes alone.
#[verifier::external_body]
fn blake2_256(data: &[u8]) -> (r: [u8; 32])
    ensures
        r@ == blake2_hash(data@),
{
    sp_crypto_hashing::blake2_256(data)
}

/// One step of a derivation path: a canonical 32-byte index, tagged by
/// whether the step is soft (public keys have a correspondent derivation)
/// or hard (they do not).
#[derive(Debug, Clone, Copy, Eq, PartialEq, Hash)]
pub enum DeriveJunction {
    /// Soft (vanilla) derivation. Public keys have a correspondent derivation.
    Soft([u8; 32]),
    /// Hard ("hardened") derivation. Public keys do not have a correspondent
    /// derivation.
    Hard([u8; 32]),
}

impl DeriveJunction {
    /// Whether this junction is hard.
    pub open spec fn is_hard_spec(self) -> bool {
        self is Hard
    }

    /// The 32-byte payload of this junction.
    pub open spec fn payload(self) -> Seq<u8> {
        match self {
            DeriveJunction::Soft(cc) => cc@,
            DeriveJunction::Hard(cc) => cc@,
        }
    }

    /// Reduces an encoded index to the canonical 32-byte junction payload.
    fn canonical_payload(index: &[u8]) -> (r: [u8; 32])
        ensures
            r@ == junction_payload(index@),
    {
        if index.len() > 32 {
            blake2_256(index)
        } else {
            let mut cc = [0u8; 32];
            let mut i: usize = 0;
            while i < 32
                invariant
                    i <= 32,
                    index@.len() <= 32,
                    forall|j: int| 0 <= j < i ==> cc@[j] == junction_payload(index@)[j],
                decreases 32 - i,
            {
                if i < index.len() {
                    cc[i] = index[i];
                } else {
                    cc[i] = 0u8;
                }
                i = i + 1;
            }
            proof {
                assert(cc@ =~= junction_payload(index@));
            }
            cc
        }
    }

    /// A new soft junction for a deterministically encoded index value:
    /// identical encoded input always yields the identical payload.
    ///
    /// If you need a hard junction, use `hard()`.
    pub fn soft(index: &[u8]) -> (r: Self)
        ensures
            !r.is_hard_spec(),
            r.payload() == junction_payload(index@),
    {
        DeriveJunction::Soft(Self::canonical_payload(index))
    }

    /// A new hard junction for a deterministically encoded index value; the
    /// payload is formed exactly as for `soft`.
    pub fn hard(index: &[u8]) -> (r: Self)
        ensures
            r.is_hard_spec(),
            r.payload() == junction_payload(index@),
    {
        DeriveJunction::Hard(Self::canonical_payload(index))
    }
}

} // verus!
