//! The errors of the validator client.

use vstd::prelude::*;

verus! {

/// A failed exchange with the beacon node, as the transport reports it.
#[derive(Debug, PartialEq, Eq)]
pub struct RemoteError {
    pub message: String,
}

/// What can go wrong in the scheduler and the duties manager.
#[derive(Debug, PartialEq, Eq)]
pub enum Error {
    /// The clock gives no slot: genesis is unknown or still ahead. The
    /// scheduler cannot run and the process is expected to stop.
    GenesisNotInPast,
    /// The clock gave a slot that is not after the last one processed. The
    /// tick is skipped so that nothing is signed twice.
    DuplicateSlot,
    /// The clock cannot say when the next slot starts. The scheduler cannot be
    /// started.
    NoDurationToNextSlot,
    /// The beacon node assigned a duty to a validator that is not held here.
    UnknownValidator,
    /// The beacon node could not be asked or did not answer.
    Remote(RemoteError),
}

/// Why a duty was not carried out. Such a failure ends the one task it
/// happened in and nothing else.
#[derive(Debug, PartialEq, Eq)]
pub enum DutyError {
    /// The duty is for a validator that is not held here.
    UnknownValidator,
    /// The duty places the validator outside its own committee.
    InvalidCommittee,
    /// The signer declined to sign or did not answer.
    SignerRejection,
    /// The beacon node did not hand out the object to sign.
    FetchFailed(RemoteError),
    /// The beacon node did not take the signed object.
    PublishFailed(RemoteError),
}

} // verus!
