use vstd::prelude::*;

use crate::errors::Error;
use crate::junction::DeriveJunction;
use crate::public_key::{public_after, public_step, verifies, PublicKey};
use crate::signature::Signature;
use sp_core::crypto::Pair as PairTrait;
use vstd::pervasive::unreached;
use vstd::slice::slice_to_vec;

verus! {

/// What `sp_core::sr25519::Pair::from_seed_slice` accepts and returns, keyed
/// by the built pair's 64-byte expanded secret (scalar then nonce): `None`
/// when the bytes are rejected; a function of the seed bytes alone, since
/// both the 32-byte mini-seed expansion and the 64-byte re-import are
/// deterministic.
pub uninterp spec fn secret_from_seed(seed: Seq<u8>) -> Option<Seq<u8>>;

/// What `sp_core::sr25519::Pair::public` returns: the 32 public key bytes,
/// a function of the secret's scalar half alone (schnorrkel keeps the public
/// point paired to the scalar; the nonce never enters it).
pub uninterp spec fn public_of(scalar: Seq<u8>) -> Seq<u8>;

/// What `sp_core::crypto::Pair::from_string` accepts for the sr25519 pair,
/// keyed by the resulting pair's secret scalar: `None` when the string is
/// neither a valid seed encoding nor a valid English BIP39 mnemonic (nor a
/// derivable secret URI over one); a function of the string and password
/// alone. Only the scalar is named, because the backend re-randomizes the
/// nonce when a derivation path with soft junctions is part of the string.
pub uninterp spec fn scalar_from_phrase(phrase: Seq<char>, password: Option<Seq<char>>) -> Option<
    Seq<u8>,
>;

/// What one secret derivation step of `sp_core::sr25519::Pair::derive`
/// returns, keyed by the scalars: the child pair's secret scalar, a function
/// of the parent scalar, the junction kind and the junction payload alone.
/// The child's nonce half is freshly randomized by the backend and is
/// therefore not named.
pub uninterp spec fn scalar_step(scalar: Seq<u8>, hard: bool, cc: Seq<u8>) -> Seq<u8>;

/// The scalar half of a 64-byte expanded secret.
pub open spec fn scalar_of(secret: Seq<u8>) -> Seq<u8> {
    secret.take(32)
}

/// The secret scalar at the end of a derivation path, walked left to right;
/// soft and hard junctions both succeed at the secret level.
pub open spec fn scalar_after(scalar: Seq<u8>, path: Seq<DeriveJunction>) -> Seq<u8>
    decreases path.len(),
{
    if path.len() == 0 {
        scalar
    } else {
        scalar_after(scalar_step(scalar, path[0] is Hard, path[0].payload()), path.skip(1))
    }
}

/// Whether every junction of the path is soft.
pub open spec fn all_soft(path: Seq<DeriveJunction>) -> bool {
    forall|i: int| 0 <= i < path.len() ==> !(path[i] is Hard)
}

/// The view of `Option<&str>` as an optional character sequence.
pub open spec fn opt_str_view(s: Option<&str>) -> Option<Seq<char>> {
    match s {
        Some(p) => Some(p@),
        None => None,
    }
}

/// An sr25519 key pair, held as its 64-byte expanded secret (scalar then
/// nonce), the portable encoding the backend itself exports and re-imports.
/// The secret is never exposed except through the explicit `seed` export.
pub struct KeyPair {
    secret: [u8; 64],
}

impl View for KeyPair {
    type V = Seq<u8>;

    closed spec fn view(&self) -> Seq<u8> {
        self.secret@
    }
}

impl KeyPair {
    /// Every pair holds a well-formed expanded secret: re-importing it
    /// through `from_seed` yields it back unchanged.
    #[verifier::type_invariant]
    closed spec fn inv(self) -> bool {
        secret_from_seed(self.secret@) == Some(self.secret@)
    }
}

/// Relies on `sp_core::sr25519::Pair::from_seed_slice`: deterministic in the
/// seed bytes; a 32-byte mini seed is always accepted, a 64-byte export
/// re-imports to itself (schnorrkel's `SecretKey::to_bytes`/`from_bytes`
/// round trip), and every other length is rejected.
#[verifier::external_body]
fn from_seed_call(seed: &[u8]) -> (r: Option<KeyPair>)
    ensures
        match secret_from_seed(seed@) {
            Some(s) => r matches Some(kp) && kp@ == s,
            None => r is None,
        },
        seed@.len() == 32 ==> r is Some,
        seed@.len() != 32 && seed@.len() != 64 ==> r is None,
{
    let pair = sp_core::sr25519::Pair::from_seed_slice(seed).ok()?;
    let mut secret = [0u8; 64];
    secret.copy_from_slice(&pair.to_raw_vec());
    Some(KeyPair { secret })
}

/// Relies on `sp_core::crypto::Pair::from_string` for the sr25519 pair:
/// deterministic scalar in the string and password; fails exactly on strings
/// that name no valid seed, mnemonic or derivable secret URI.
#[verifier::external_body]
fn from_string_call(s: &str, password: Option<&str>) -> (r: Option<KeyPair>)
    ensures
        match scalar_from_phrase(s@, opt_str_view(password)) {
            Some(sc) => r matches Some(kp) && kp@.len() == 64 && scalar_of(kp@) == sc,
            None => r is None,
        },
{
    let pair = sp_core::sr25519::Pair::from_string(s, password).ok()?;
    let mut secret = [0u8; 64];
    secret.copy_from_slice(&pair.to_raw_vec());
    Some(KeyPair { secret })
}

/// Relies on `sp_core::sr25519::Pair::public`: the public key bytes depend
/// on the secret's scalar half alone, schnorrkel keeping the public point
/// paired to the scalar. The stored secret is a backend export, so
/// rebuilding the pair from it cannot fail.
#[verifier::external_body]
fn public_call(kp: &KeyPair) -> (r: [u8; 32])
    ensures
        r@ == public_of(scalar_of(kp@)),
{
    let pair = sp_core::sr25519::Pair::from_seed_slice(&kp.secret).expect("stored secret is valid");
    pair.public().to_raw()
}

/// Relies on `sp_core::sr25519::Pair::sign` and the scheme's correctness: a
/// freshly produced signature is accepted by verification under the pair's
/// public key. Signing is randomized, so nothing further is claimed about
/// the signature bytes. The stored secret is a backend export, so rebuilding
/// the pair from it cannot fail.
#[verifier::external_body]
fn sign_call(kp: &KeyPair, message: &[u8]) -> (r: [u8; 64])
    ensures
        verifies(r@, message@, public_of(scalar_of(kp@))),
{
    let pair = sp_core::sr25519::Pair::from_seed_slice(&kp.secret).expect("stored secret is valid");
    pair.sign(message).to_raw()
}

/// Relies on `sp_core::sr25519::Pair::derive` with a single junction, which
/// never fails for sr25519: the child scalar depends on the parent scalar
/// and the junction alone, and a soft step matches one public-only step on
/// the parent's public key (the soft-derivation homomorphism of schnorrkel
/// HDKD). The stored secret is a backend export, so rebuilding the pair from
/// it cannot fail.
#[verifier::external_body]
fn derive_step_call(kp: &KeyPair, junction: &DeriveJunction) -> (r: KeyPair)
    ensures
        r@.len() == 64,
        scalar_of(r@) == scalar_step(scalar_of(kp@), junction.is_hard_spec(), junction.payload()),
        !junction.is_hard_spec() ==> public_step(public_of(scalar_of(kp@)), junction.payload())
            == Some(public_of(scalar_of(r@))),
{
    let j = match junction {
        DeriveJunction::Soft(cc) => sp_core::crypto::DeriveJunction::Soft(*cc),
        DeriveJunction::Hard(cc) => sp_core::crypto::DeriveJunction::Hard(*cc),
    };
    let pair = sp_core::sr25519::Pair::from_seed_slice(&kp.secret).expect("stored secret is valid");
    let (child, _) = pair.derive(core::iter::once(j), None).expect("sr25519 derivation never fails");
    let mut secret = [0u8; 64];
    secret.copy_from_slice(&child.to_raw_vec());
    KeyPair { secret }
}

/// Relies on `rand::rngs::OsRng` through `RngCore::try_fill_bytes`: draws 32
/// bytes from the operating system's secure entropy source, or reports that
/// the source failed.
#[verifier::external_body]
fn os_random_seed() -> (r: Option<[u8; 32]>) {
    let mut bs = [0u8; 32];
    match rand::RngCore::try_fill_bytes(&mut rand::rngs::OsRng, &mut bs) {
        Ok(()) => Some(bs),
        Err(_) => None,
    }
}

/// Relies on `rand::RngCore::fill_bytes` on the caller's secure generator.
#[verifier::external_body]
fn random_seed_with<R: rand::CryptoRng + rand::RngCore>(rng: &mut R) -> (r: [u8; 32]) {
    let mut bs = [0u8; 32];
    rng.fill_bytes(&mut bs);
    bs
}

impl KeyPair {
    /// Whether `from_seed` accepts these bytes: a 32-byte mini seed, or the
    /// 64-byte expanded secret form that `seed` exports.
    pub open spec fn is_valid_seed(seed: Seq<u8>) -> bool {
        seed.len() == 32 || (seed.len() == 64 && secret_from_seed(seed) is Some)
    }

    /// Deterministically builds the pair for a seed: the same seed always
    /// yields the same expanded secret, hence the same public key. Callers
    /// must hand in a valid seed; `try_from_seed` is the checked counterpart.
    pub fn from_seed(seed: &[u8]) -> (r: KeyPair)
        requires
            Self::is_valid_seed(seed@),
        ensures
            secret_from_seed(seed@) == Some(r@),
    {
        match from_seed_call(seed) {
            Some(kp) => kp,
            None => unreached(),
        }
    }

    /// Builds the pair for a seed, rejecting unacceptable bytes with a typed
    /// error instead of a precondition: any 32-byte seed succeeds.
    pub fn try_from_seed(seed: &[u8]) -> (r: Result<KeyPair, Error>)
        ensures
            match secret_from_seed(seed@) {
                Some(s) => r matches Ok(kp) && kp@ == s,
                None => r matches Err(e) && e is InvalidArgument,
            },
            seed@.len() == 32 ==> r is Ok,
    {
        match from_seed_call(seed) {
            Some(kp) => Ok(kp),
            None => Err(
                Error::InvalidArgument {
                    alg: "KeyPair#try_from_seed",
                    expected: "a 32-byte seed or a 64-byte expanded secret",
                },
            ),
        }
    }

    /// Builds the pair named by a string: a raw (possibly `0x`-prefixed hex)
    /// seed or an English BIP39 mnemonic, optionally extended by a derivation
    /// path and combined with a password; fails with an invalid-argument
    /// error on anything else.
    pub fn from_string(s: &str, password: Option<&str>) -> (r: Result<KeyPair, Error>)
        ensures
            match scalar_from_phrase(s@, opt_str_view(password)) {
                Some(sc) => r matches Ok(kp) && scalar_of(kp@) == sc,
                None => r matches Err(e) && e is InvalidArgument,
            },
    {
        match from_string_call(s, password) {
            Some(kp) => Ok(kp),
            None => Err(
                Error::InvalidArgument {
                    alg: "KeyPair#from_string",
                    expected: "a valid seed or english BIP39 mnemonic",
                },
            ),
        }
    }

    /// Draws a fresh 32-byte seed from the operating system's secure entropy
    /// source and builds the pair from it; fails only when the randomness
    /// source itself fails.
    pub fn generate() -> (r: Result<KeyPair, Error>)
        ensures
            r matches Err(e) ==> e is RandomnessFailure,
            r matches Ok(kp) ==> exists|bs: Seq<u8>|
                bs.len() == 32 && secret_from_seed(bs) == Some(kp@),
    {
        match os_random_seed() {
            Some(bs) => {
                let kp = Self::from_seed(bs.as_slice());
                proof {
                    assert(bs@.len() == 32 && secret_from_seed(bs@) == Some(kp@));
                }
                Ok(kp)
            },
            None => Err(Error::RandomnessFailure),
        }
    }

    /// Draws a fresh 32-byte seed from the supplied secure generator and
    /// builds the pair from it: the result is the pair of the drawn seed,
    /// though the seed itself, being fresh randomness, is not named.
    pub fn generate_with<R: rand::CryptoRng + rand::RngCore>(rng: &mut R) -> (r: KeyPair)
        ensures
            exists|bs: Seq<u8>| bs.len() == 32 && secret_from_seed(bs) == Some(r@),
    {
        let bs = random_seed_with(rng);
        let kp = Self::from_seed(bs.as_slice());
        proof {
            assert(bs@.len() == 32 && secret_from_seed(bs@) == Some(kp@));
        }
        kp
    }

    /// The public key: a pure projection of the pair's secret scalar.
    pub fn public_key(&self) -> (r: PublicKey)
        ensures
            r@ == public_of(scalar_of(self@)),
    {
        PublicKey::from_raw(public_call(self))
    }

    /// Signs a message of any length, the empty one included; the produced
    /// signature verifies under this pair's public key.
    pub fn sign(&self, message: &[u8]) -> (r: Signature)
        ensures
            verifies(r@, message@, public_of(scalar_of(self@))),
    {
        Signature::from_raw(sign_call(self, message))
    }

    /// Walks the path left to right with secret-preserving derivation; soft
    /// and hard junctions both succeed, so the result is always `Ok`. On an
    /// all-soft path the outcome corresponds to public-only derivation from
    /// this pair's public key: the soft-derivation law. The optional chain
    /// code only ever steered the auxiliary seed output of the backend, which
    /// is discarded here, so it cannot influence the derived pair.
    #[allow(unused_variables)]
    pub fn derive(&self, path: &[DeriveJunction], seed: Option<[u8; 32]>) -> (r: Result<
        KeyPair,
        Error,
    >)
        ensures
            r matches Ok(kp) && scalar_of(kp@) == scalar_after(scalar_of(self@), path@) && (
            all_soft(path@) ==> public_after(public_of(scalar_of(self@)), path@) == Some(
                public_of(scalar_of(kp@)),
            )),
    {
        proof {
            use_type_invariant(self);
            assert(path@.skip(0) =~= path@);
        }
        let mut cur = KeyPair { secret: self.secret };
        let mut i: usize = 0;
        while i < path.len()
            invariant
                i <= path@.len(),
                scalar_after(scalar_of(self@), path@) == scalar_after(
                    scalar_of(cur@),
                    path@.skip(i as int),
                ),
                all_soft(path@) ==> public_after(public_of(scalar_of(self@)), path@)
                    == public_after(public_of(scalar_of(cur@)), path@.skip(i as int)),
            decreases path@.len() - i,
        {
            proof {
                assert(path@.skip(i as int)[0] == path@[i as int]);
                assert(path@.skip(i as int).skip(1) =~= path@.skip(i as int + 1));
            }
            let next = derive_step_call(&cur, &path[i]);
            cur = next;
            i = i + 1;
        }
        proof {
            assert(path@.skip(path@.len() as int) =~= Seq::<DeriveJunction>::empty());
        }
        Ok(cur)
    }

    /// Exports the raw secret material: the 64-byte expanded secret, the one
    /// intentional secret-exposure point. Passing it back through `from_seed`
    /// rebuilds a pair with an identical view, hence an identical public key.
    pub fn seed(&self) -> (r: Vec<u8>)
        ensures
            r@ == self@,
            r@.len() == 64,
            secret_from_seed(r@) == Some(self@),
    {
        proof {
            use_type_invariant(self);
        }
        slice_to_vec(self.secret.as_slice())
    }
}

} // verus!
