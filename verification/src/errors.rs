use vstd::prelude::*;

verus! {

/// The closed set of failures this library reports.
///
/// Verification failures are never reported here: an invalid signature only
/// makes `PublicKey::verify` return `false`.
#[derive(Debug, Clone, Copy, PartialEq, Eq)]
pub enum Error {
    /// A malformed input: a wrong byte length, or a string that is neither a
    /// valid seed encoding nor a valid English BIP39 mnemonic.
    InvalidArgument {
        /// Which operation rejected its argument.
        alg: &'static str,
        /// What the argument should have looked like.
        expected: &'static str,
    },
    /// The secure randomness source failed to produce entropy.
    RandomnessFailure,
}

} // verus!
