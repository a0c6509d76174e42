//! Carrying out an attestation.
//!
//! An attestation is three exchanges in a row: the beacon node hands out the
//! data to attest to for the slot and committee of the duty, the signer signs
//! it under the attestation domain of the fork, and the beacon node takes the
//! signed attestation. The first exchange that fails ends the attestation.

use crate::duties::AttestationDuty;
use crate::error::{DutyError, RemoteError};
use crate::fork::{ChainSpec, Domain, Fork};
use crate::signer::{Signature, Signer};
use crate::slot::{Epoch, Slot};
use vstd::prelude::*;

verus! {

/// What a validator attests to, as the beacon node hands it out.
#[derive(Debug, PartialEq, Eq)]
pub struct AttestationData {
    /// The slot attested to.
    pub slot: Slot,
    /// The committee that attests.
    pub committee_index: u64,
    /// The data itself, as the bytes to sign.
    pub body: Vec<u8>,
}

/// An attestation by one member of a committee.
#[derive(Debug, PartialEq, Eq)]
pub struct SignedAttestation {
    /// What is attested to.
    pub data: AttestationData,
    /// One bit per member of the committee; the attester's bit is set and no
    /// other.
    pub aggregation_bits: Vec<bool>,
    /// The attester's signature over the data.
    pub signature: Signature,
}

/// The beacon node's side of an attestation.
///
/// The transport is the caller's: the library asks through this trait and
/// relies on nothing about the answers.
pub trait BeaconNodeAttestation {
    /// Asks for the data to attest to in `slot` as a member of committee
    /// `committee_index`.
    fn produce_attestation_data(&self, slot: Slot, committee_index: u64) -> Result<
        AttestationData,
        RemoteError,
    >;

    /// Hands over a signed attestation.
    fn publish_attestation(&self, attestation: SignedAttestation) -> Result<(), RemoteError>;
}

/// What the beacon node and the signer answered in the course of one
/// attestation. An exchange that was never made has an answer here all the
/// same; it plays no part in the outcome.
pub struct AttestationReplies {
    /// The beacon node's answer to the request for attestation data.
    pub data: Result<AttestationData, RemoteError>,
    /// The signer's answer to the request to sign the data.
    pub signature: Option<Signature>,
    /// The beacon node's answer to the signed attestation.
    pub published: Result<(), RemoteError>,
}

/// The bits of a committee of `committee_len` members in which the member at
/// `position` has attested and nobody else.
pub open spec fn single_attester_bits(committee_len: usize, position: usize) -> Seq<bool> {
    Seq::new(committee_len as nat, |i: int| i == position)
}

/// The bits of a committee of `committee_len` members in which only the member
/// at `position` has attested, or `None` where the committee has no such
/// member.
pub fn aggregation_bits(committee_len: usize, position: usize) -> (bits: Option<Vec<bool>>)
    ensures
        bits is Some <==> position < committee_len,
        bits matches Some(b) ==> b@ == single_attester_bits(committee_len, position),
{
    if position >= committee_len {
        return None;
    }
    let mut bits: Vec<bool> = Vec::new();
    let mut i: usize = 0;
    while i < committee_len
        invariant
            i <= committee_len,
            bits@ == single_attester_bits(i, position),
        decreases committee_len - i,
    {
        bits.push(i == position);
        assert(bits@ =~= single_attester_bits((i + 1) as usize, position));
        i += 1;
    }
    Some(bits)
}

/// One attestation: a validator, the duty it fulfils, and the fork and chain
/// constants in force when the slot began.
#[derive(Clone, Copy, Debug, PartialEq, Eq)]
pub struct AttestationProducer {
    /// The fork the chain is on.
    pub fork: Fork,
    /// The duty to fulfil.
    pub duty: AttestationDuty,
    /// The constants of the chain.
    pub spec: ChainSpec,
    /// The number of slots in an epoch; not zero.
    pub slots_per_epoch: u64,
    /// The attester, as its index in the local signer set.
    pub validator_index: usize,
}

impl AttestationProducer {
    /// The epoch of the attestation.
    pub open spec fn spec_epoch(self) -> Epoch {
        self.duty.slot.spec_epoch(self.slots_per_epoch)
    }

    /// The domain under which the attestation is signed: the attestation
    /// domain of the fork version in force in the epoch of the duty.
    pub open spec fn spec_attestation_domain(self) -> u64 {
        self.spec.spec_domain(self.spec_epoch(), Domain::Attestation, self.fork)
    }

    /// How the attestation ends when the answers to its exchanges are
    /// `replies`. A duty that places the validator outside its committee
    /// fails whatever the answers. Otherwise the attestation ends with the
    /// slot when every exchange succeeds, and with the failure of the first
    /// exchange that does not.
    pub open spec fn spec_outcome(self, replies: AttestationReplies) -> Result<Slot, DutyError> {
        if self.duty.committee_position >= self.duty.committee_len {
            Err(DutyError::InvalidCommittee)
        } else {
            match replies.data {
                Err(error) => Err(DutyError::FetchFailed(error)),
                Ok(_) => match replies.signature {
                    None => Err(DutyError::SignerRejection),
                    Some(_) => match replies.published {
                        Err(error) => Err(DutyError::PublishFailed(error)),
                        Ok(_) => Ok(self.duty.slot),
                    },
                },
            }
        }
    }

    /// The domain under which the attestation is signed.
    pub fn attestation_domain(&self) -> (domain: u64)
        requires
            self.slots_per_epoch > 0,
        ensures
            domain == self.spec_attestation_domain(),
    {
        self.spec.get_domain(
            self.duty.slot.epoch(self.slots_per_epoch),
            Domain::Attestation,
            &self.fork,
        )
    }

    /// The attestation to `data` by the committee member whose bit is set in
    /// `bits`, signed with `signature`.
    pub fn sign_attestation(
        data: AttestationData,
        bits: Vec<bool>,
        signature: Signature,
    ) -> (signed: SignedAttestation)
        ensures
            signed.data == data,
            signed.aggregation_bits == bits,
            signed.signature == signature,
    {
        SignedAttestation { data, aggregation_bits: bits, signature }
    }

    /// How the attestation ends when the answers to its exchanges are
    /// `replies`.
    pub fn settle(&self, replies: AttestationReplies) -> (outcome: Result<Slot, DutyError>)
        ensures
            outcome == self.spec_outcome(replies),
    {
        if self.duty.committee_position >= self.duty.committee_len {
            return Err(DutyError::InvalidCommittee);
        }
        match replies.data {
            Err(error) => Err(DutyError::FetchFailed(error)),
            Ok(_) => match replies.signature {
                None => Err(DutyError::SignerRejection),
                Some(_) => match replies.published {
                    Err(error) => Err(DutyError::PublishFailed(error)),
                    Ok(_) => Ok(self.duty.slot),
                },
            },
        }
    }

    /// Carries out the attestation.
    ///
    /// The beacon node is asked for the data of the duty's slot and
    /// committee; the signer is asked to sign the body of the data under
    /// [`AttestationProducer::attestation_domain`]; and the beacon node is
    /// handed [`AttestationProducer::sign_attestation`] of the data, the
    /// [`aggregation_bits`] of the duty and that signature.
    ///
    /// A duty that places the validator outside its committee ends the
    /// attestation before anything is asked. Otherwise the attestation ends as
    /// [`AttestationProducer::spec_outcome`] says of the answers that came:
    /// with the slot of the duty, or with the first failure.
    pub fn handle_produce_attestation<A: BeaconNodeAttestation, S: Signer>(
        &self,
        beacon_node: &A,
        signer: &S,
    ) -> (outcome: Result<Slot, DutyError>)
        requires
            self.slots_per_epoch > 0,
        ensures
            exists|replies: AttestationReplies| outcome == #[trigger] self.spec_outcome(replies),
            self.duty.committee_position >= self.duty.committee_len ==> outcome == Err::<
                Slot,
                DutyError,
            >(DutyError::InvalidCommittee),
            outcome matches Ok(slot) ==> slot == self.duty.slot,
    {
        let ghost mut replies = AttestationReplies {
            data: arbitrary(),
            signature: arbitrary(),
            published: arbitrary(),
        };
        let bits = match aggregation_bits(self.duty.committee_len, self.duty.committee_position) {
            Some(bits) => bits,
            None => {
                assert(self.spec_outcome(replies) == Err::<Slot, DutyError>(
                    DutyError::InvalidCommittee,
                ));
                return Err(DutyError::InvalidCommittee);
            },
        };
        let fetched = beacon_node.produce_attestation_data(
            self.duty.slot,
            self.duty.committee_index,
        );
        proof {
            replies = AttestationReplies { data: fetched, ..replies };
        }
        let data = match fetched {
            Ok(data) => data,
            Err(error) => {
                assert(self.spec_outcome(replies) == Err::<Slot, DutyError>(
                    DutyError::FetchFailed(error),
                ));
                return Err(DutyError::FetchFailed(error));
            },
        };
        let signed = signer.sign(self.validator_index, &data.body, self.attestation_domain());
        proof {
            replies = AttestationReplies { signature: signed, ..replies };
        }
        let signature = match signed {
            Some(signature) => signature,
            None => {
                assert(self.spec_outcome(replies) == Err::<Slot, DutyError>(
                    DutyError::SignerRejection,
                ));
                return Err(DutyError::SignerRejection);
            },
        };
        let published = beacon_node.publish_attestation(
            Self::sign_attestation(data, bits, signature),
        );
        proof {
            replies = AttestationReplies { published, ..replies };
        }
        let outcome = match published {
            Ok(_) => Ok(self.duty.slot),
            Err(error) => Err(DutyError::PublishFailed(error)),
        };
        assert(outcome == self.spec_outcome(replies));
        outcome
    }
}

} // verus!
