use vstd::prelude::*;

use crate::errors::Error;

verus! {

/// The exact byte length of an sr25519 signature.
pub const SIGNATURE_LENGTH: usize = 64;

/// An sr25519 signature: exactly 64 raw bytes.
///
/// Holding a value of this type is no proof that the bytes came from a real
/// signing operation; only `PublicKey::verify` decides that, and an invalid
/// signature simply fails to verify.
#[derive(Debug, Clone, Eq, PartialEq)]
pub struct Signature {
    bytes: [u8; 64],
}

impl View for Signature {
    type V = Seq<u8>;

    closed spec fn view(&self) -> Seq<u8> {
        self.bytes@
    }
}

impl Signature {
    /// Wraps a slice as a signature; rejects any slice that is not exactly
    /// 64 bytes long.
    pub fn from_slice(data: &[u8]) -> (r: Result<Self, Error>)
        ensures
            data@.len() == 64 ==> (r matches Ok(s) && s@ == data@),
            data@.len() != 64 ==> (r matches Err(e) && e is InvalidArgument),
    {
        if data.len() == 64 {
            let mut bytes = [0u8; 64];
            let mut i: usize = 0;
            while i < 64
                invariant
                    i <= 64,
                    data@.len() == 64,
                    forall|j: int| 0 <= j < i ==> bytes@[j] == data@[j],
                decreases 64 - i,
            {
                bytes[i] = data[i];
                i = i + 1;
            }
            proof {
                assert(bytes@ =~= data@);
            }
            Ok(Signature { bytes })
        } else {
            Err(Error::InvalidArgument { alg: "bytes", expected: "a 64-byte signature encoding" })
        }
    }

    /// Wraps the given 64 bytes as a signature without any further check.
    pub fn from_raw(data: [u8; 64]) -> (r: Self)
        ensures
            r@ == data@,
    {
        Signature { bytes: data }
    }

    /// The raw 64 signature bytes.
    pub fn to_raw(&self) -> (r: [u8; 64])
        ensures
            r@ == self@,
    {
        self.bytes
    }
}

} // verus!
