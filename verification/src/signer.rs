//! Validator identities and the capability to sign for them.

use vstd::prelude::*;

verus! {

/// The public key of a validator, as the bytes the beacon node knows it by.
#[derive(Debug, PartialEq, Eq)]
pub struct PublicKey {
    pub bytes: Vec<u8>,
}

/// A signature, as the bytes the beacon node verifies.
#[derive(Debug, PartialEq, Eq)]
pub struct Signature {
    pub bytes: Vec<u8>,
}

impl View for PublicKey {
    type V = Seq<u8>;

    open spec fn view(&self) -> Seq<u8> {
        self.bytes@
    }
}

impl View for Signature {
    type V = Seq<u8>;

    open spec fn view(&self) -> Seq<u8> {
        self.bytes@
    }
}

impl Clone for PublicKey {
    fn clone(&self) -> (copy: Self)
        ensures
            copy@ == self@,
    {
        let bytes = self.bytes.clone();
        assert(bytes@ =~= self.bytes@);
        PublicKey { bytes }
    }
}

impl Clone for Signature {
    fn clone(&self) -> (copy: Self)
        ensures
            copy@ == self@,
    {
        let bytes = self.bytes.clone();
        assert(bytes@ =~= self.bytes@);
        Signature { bytes }
    }
}

/// The capability to sign on behalf of the validators held locally.
///
/// An implementation may keep the key material in the process or forward the
/// request to a signing service. It is shared by every duty task of a slot, so
/// it takes `&self` and must be callable from several threads at once.
pub trait Signer {
    /// Signs `message` under `domain` with the key of validator
    /// `validator_index`. `None` means the signer declined or could not answer
    /// in time.
    fn sign(&self, validator_index: usize, message: &Vec<u8>, domain: u64) -> Option<Signature>;
}

} // verus!
