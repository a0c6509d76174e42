//! Carrying out a block proposal.
//!
//! A proposal is four exchanges in a row: the signer reveals the validator's
//! randao for the epoch, the beacon node hands out an unsigned block for the
//! slot, the signer signs the block under the proposer domain of the fork, and
//! the beacon node takes the signed block for broadcast. The first exchange
//! that fails ends the proposal.

use crate::error::{DutyError, RemoteError};
use crate::fork::{ChainSpec, Domain, Fork};
use crate::signer::{PublicKey, Signature, Signer};
use crate::slot::{Epoch, Slot};
use vstd::bytes::{spec_u64_to_le_bytes, u64_to_le_bytes};
use vstd::prelude::*;

verus! {

/// A block as the beacon node hands it out, yet to be signed.
#[derive(Debug, PartialEq, Eq)]
pub struct UnsignedBlock {
    /// The slot the block is for.
    pub slot: Slot,
    /// The block itself, as the bytes to sign.
    pub body: Vec<u8>,
}

/// A block with its proposer's signature.
#[derive(Debug, PartialEq, Eq)]
pub struct SignedBlock {
    /// The slot the block is for.
    pub slot: Slot,
    /// The block itself, as it was signed.
    pub body: Vec<u8>,
    /// The proposer's signature over `body`.
    pub signature: Signature,
}

/// The beacon node's side of a block proposal.
///
/// The transport is the caller's: the library asks through this trait and
/// relies on nothing about the answers.
pub trait BeaconNodeBlock {
    /// Asks for a block to propose in `slot` by the validator `proposer`,
    /// whose randao reveal for the epoch is `randao_reveal`.
    fn produce_beacon_block(
        &self,
        slot: Slot,
        proposer: &PublicKey,
        randao_reveal: &Signature,
    ) -> Result<UnsignedBlock, RemoteError>;

    /// Hands over a signed block for broadcast.
    fn publish_beacon_block(&self, block: SignedBlock) -> Result<(), RemoteError>;
}

/// What the signer and the beacon node answered in the course of one
/// proposal. An exchange that was never made has an answer here all the same;
/// it plays no part in the outcome.
pub struct BlockReplies {
    /// The signer's answer to the request for the randao reveal.
    pub randao_reveal: Option<Signature>,
    /// The beacon node's answer to the request for a block.
    pub block: Result<UnsignedBlock, RemoteError>,
    /// The signer's answer to the request to sign the block.
    pub signature: Option<Signature>,
    /// The beacon node's answer to the signed block.
    pub published: Result<(), RemoteError>,
}

/// The message a validator signs to reveal its randao for `epoch`: the epoch
/// number in eight little-endian bytes, padded with zeros to 32 bytes.
pub open spec fn randao_message(epoch: Epoch) -> Seq<u8> {
    spec_u64_to_le_bytes(epoch.0) + Seq::new(24, |i: int| 0u8)
}

/// One block proposal: a validator, the slot it proposes in, and the fork and
/// chain constants in force when the slot began.
#[derive(Clone, Copy, Debug, PartialEq, Eq)]
pub struct BlockProducer {
    /// The fork the chain is on.
    pub fork: Fork,
    /// The slot to propose in.
    pub slot: Slot,
    /// The constants of the chain.
    pub spec: ChainSpec,
    /// The number of slots in an epoch; not zero.
    pub slots_per_epoch: u64,
    /// The proposer, as its index in the local signer set.
    pub validator_index: usize,
}

impl BlockProducer {
    /// The epoch of the proposal.
    pub open spec fn spec_epoch(self) -> Epoch {
        self.slot.spec_epoch(self.slots_per_epoch)
    }

    /// The domain under which the randao reveal is signed: the randao domain
    /// of the fork version in force in the proposal's epoch.
    pub open spec fn spec_randao_domain(self) -> u64 {
        self.spec.spec_domain(self.spec_epoch(), Domain::Randao, self.fork)
    }

    /// The domain under which the block is signed: the proposer domain of the
    /// fork version in force in the proposal's epoch.
    pub open spec fn spec_proposer_domain(self) -> u64 {
        self.spec.spec_domain(self.spec_epoch(), Domain::BeaconProposer, self.fork)
    }

    /// How the proposal ends when the answers to its exchanges are `replies`:
    /// with the slot when every exchange succeeds, with the failure of the
    /// first exchange that does not otherwise.
    pub open spec fn spec_outcome(self, replies: BlockReplies) -> Result<Slot, DutyError> {
        match replies.randao_reveal {
            None => Err(DutyError::SignerRejection),
            Some(_) => match replies.block {
                Err(error) => Err(DutyError::FetchFailed(error)),
                Ok(_) => match replies.signature {
                    None => Err(DutyError::SignerRejection),
                    Some(_) => match replies.published {
                        Err(error) => Err(DutyError::PublishFailed(error)),
                        Ok(_) => Ok(self.slot),
                    },
                },
            },
        }
    }

    /// The message to sign for the randao reveal of the proposal's epoch.
    pub fn randao_reveal_message(&self) -> (message: Vec<u8>)
        requires
            self.slots_per_epoch > 0,
        ensures
            message@ == randao_message(self.spec_epoch()),
            message@.len() == 32,
    {
        let epoch = self.slot.epoch(self.slots_per_epoch);
        let mut message: Vec<u8> = u64_to_le_bytes(epoch.0);
        let ghost head: Seq<u8> = message@;
        let mut i: usize = 0;
        while i < 24
            invariant
                i <= 24,
                head.len() == 8,
                message@ == head + Seq::new(i as nat, |j: int| 0u8),
            decreases 24 - i,
        {
            message.push(0u8);
            i += 1;
        }
        message
    }

    /// The domain under which the randao reveal is signed.
    pub fn randao_domain(&self) -> (domain: u64)
        requires
            self.slots_per_epoch > 0,
        ensures
            domain == self.spec_randao_domain(),
    {
        self.spec.get_domain(self.slot.epoch(self.slots_per_epoch), Domain::Randao, &self.fork)
    }

    /// The domain under which the block is signed.
    pub fn proposer_domain(&self) -> (domain: u64)
        requires
            self.slots_per_epoch > 0,
        ensures
            domain == self.spec_proposer_domain(),
    {
        self.spec.get_domain(
            self.slot.epoch(self.slots_per_epoch),
            Domain::BeaconProposer,
            &self.fork,
        )
    }

    /// The block `block` with `signature` attached.
    pub fn sign_block(block: UnsignedBlock, signature: Signature) -> (signed: SignedBlock)
        ensures
            signed.slot == block.slot,
            signed.body == block.body,
            signed.signature == signature,
    {
        SignedBlock { slot: block.slot, body: block.body, signature }
    }

    /// How the proposal ends when the answers to its exchanges are `replies`.
    pub fn settle(&self, replies: BlockReplies) -> (outcome: Result<Slot, DutyError>)
        ensures
            outcome == self.spec_outcome(replies),
    {
        match replies.randao_reveal {
            None => Err(DutyError::SignerRejection),
            Some(_) => match replies.block {
                Err(error) => Err(DutyError::FetchFailed(error)),
                Ok(_) => match replies.signature {
                    None => Err(DutyError::SignerRejection),
                    Some(_) => match replies.published {
                        Err(error) => Err(DutyError::PublishFailed(error)),
                        Ok(_) => Ok(self.slot),
                    },
                },
            },
        }
    }

    /// Carries out the proposal. `validators` are the public keys of the local
    /// validators.
    ///
    /// The signer is asked to sign [`BlockProducer::randao_reveal_message`]
    /// under [`BlockProducer::randao_domain`]; the beacon node is asked for a
    /// block for the proposal's slot, the proposer's public key and that
    /// reveal; the signer is asked to sign the body of the block under
    /// [`BlockProducer::proposer_domain`]; and the beacon node is handed
    /// [`BlockProducer::sign_block`] of the block and that signature.
    ///
    /// A proposer that is not among `validators` ends the proposal before
    /// anything is asked. Otherwise the proposal ends as
    /// [`BlockProducer::spec_outcome`] says of the answers that came: with the
    /// slot of the proposal, or with the first failure.
    pub fn handle_produce_block<B: BeaconNodeBlock, S: Signer>(
        &self,
        beacon_node: &B,
        signer: &S,
        validators: &Vec<PublicKey>,
    ) -> (outcome: Result<Slot, DutyError>)
        requires
            self.slots_per_epoch > 0,
        ensures
            self.validator_index >= validators.len() ==> outcome == Err::<Slot, DutyError>(
                DutyError::UnknownValidator,
            ),
            self.validator_index < validators.len() ==> exists|replies: BlockReplies|
                outcome == #[trigger] self.spec_outcome(replies),
            outcome matches Ok(slot) ==> slot == self.slot,
    {
        if self.validator_index >= validators.len() {
            return Err(DutyError::UnknownValidator);
        }
        let message = self.randao_reveal_message();
        let revealed = signer.sign(self.validator_index, &message, self.randao_domain());
        let ghost mut replies = BlockReplies {
            randao_reveal: revealed,
            block: arbitrary(),
            signature: arbitrary(),
            published: arbitrary(),
        };
        let randao_reveal = match revealed {
            Some(randao_reveal) => randao_reveal,
            None => {
                assert(self.spec_outcome(replies) == Err::<Slot, DutyError>(
                    DutyError::SignerRejection,
                ));
                return Err(DutyError::SignerRejection);
            },
        };
        let fetched = beacon_node.produce_beacon_block(
            self.slot,
            &validators[self.validator_index],
            &randao_reveal,
        );
        proof {
            replies = BlockReplies { block: fetched, ..replies };
        }
        let block = match fetched {
            Ok(block) => block,
            Err(error) => {
                assert(self.spec_outcome(replies) == Err::<Slot, DutyError>(
                    DutyError::FetchFailed(error),
                ));
                return Err(DutyError::FetchFailed(error));
            },
        };
        let signed = signer.sign(self.validator_index, &block.body, self.proposer_domain());
        proof {
            replies = BlockReplies { signature: signed, ..replies };
        }
        let signature = match signed {
            Some(signature) => signature,
            None => {
                assert(self.spec_outcome(replies) == Err::<Slot, DutyError>(
                    DutyError::SignerRejection,
                ));
                return Err(DutyError::SignerRejection);
            },
        };
        let published = beacon_node.publish_beacon_block(Self::sign_block(block, signature));
        proof {
            replies = BlockReplies { published, ..replies };
        }
        let outcome = match published {
            Ok(_) => Ok(self.slot),
            Err(error) => Err(DutyError::PublishFailed(error)),
        };
        assert(outcome == self.spec_outcome(replies));
        outcome
    }
}

} // verus!
