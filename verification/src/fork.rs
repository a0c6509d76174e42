//! Fork versions and the signing domains derived from them.
//!
//! Every signature a validator makes is bound to a domain: the kind of object
//! signed, joined with the version of the fork that is active in the epoch of
//! the signature. A signature made for one fork or one kind of object is
//! therefore worthless for another.

use crate::slot::Epoch;
use vstd::bytes::{
    lemma_auto_spec_u32_to_from_le_bytes, lemma_auto_spec_u64_to_from_le_bytes,
    spec_u32_from_le_bytes, spec_u32_to_le_bytes, spec_u64_from_le_bytes, spec_u64_to_le_bytes,
    u32_to_le_bytes, u64_from_le_bytes,
};
use vstd::prelude::*;

verus! {

/// The fork the chain is on: the version before it, the version since, and the
/// epoch in which it took effect.
#[derive(Clone, Copy, Debug, PartialEq, Eq)]
pub struct Fork {
    pub previous_version: [u8; 4],
    pub current_version: [u8; 4],
    pub epoch: Epoch,
}

/// The kinds of object a validator signs.
#[derive(Clone, Copy, Debug, PartialEq, Eq)]
pub enum Domain {
    BeaconProposer,
    Randao,
    Attestation,
}

/// The constants of the chain that the validator client depends on.
#[derive(Clone, Copy, Debug, PartialEq, Eq)]
pub struct ChainSpec {
    /// Length of a slot in milliseconds.
    pub milliseconds_per_slot: u64,
    /// Domain constant for block proposals.
    pub domain_beacon_proposer: u32,
    /// Domain constant for randao reveals.
    pub domain_randao: u32,
    /// Domain constant for attestations.
    pub domain_attestation: u32,
}

impl Fork {
    /// The fork version in force during `epoch`.
    pub open spec fn spec_fork_version(self, epoch: Epoch) -> [u8; 4] {
        if epoch.0 < self.epoch.0 {
            self.previous_version
        } else {
            self.current_version
        }
    }

    /// The fork version in force during `epoch`: the previous version before
    /// the fork's own epoch, the current version from that epoch on.
    pub fn get_fork_version(&self, epoch: Epoch) -> (version: [u8; 4])
        ensures
            version == self.spec_fork_version(epoch),
    {
        if epoch.0 < self.epoch.0 {
            self.previous_version
        } else {
            self.current_version
        }
    }
}

/// The eight bytes of a domain read as a little-endian integer: the four
/// little-endian bytes of the domain constant, then the four bytes of the fork
/// version.
pub open spec fn domain_of(domain_constant: u32, fork_version: [u8; 4]) -> u64 {
    spec_u64_from_le_bytes(spec_u32_to_le_bytes(domain_constant) + fork_version@)
}

/// A domain belongs to one domain constant and one fork version: two domains
/// are equal only if both their constants and their fork versions are.
pub proof fn lemma_domain_separates(
    constant: u32,
    fork_version: [u8; 4],
    other_constant: u32,
    other_fork_version: [u8; 4],
)
    requires
        domain_of(constant, fork_version) == domain_of(other_constant, other_fork_version),
    ensures
        constant == other_constant,
        fork_version@ == other_fork_version@,
{
    lemma_auto_spec_u32_to_from_le_bytes();
    lemma_auto_spec_u64_to_from_le_bytes();
    let bytes = spec_u32_to_le_bytes(constant) + fork_version@;
    let other_bytes = spec_u32_to_le_bytes(other_constant) + other_fork_version@;
    assert(bytes.len() == 8 && other_bytes.len() == 8);
    assert(spec_u64_to_le_bytes(spec_u64_from_le_bytes(bytes)) == bytes);
    assert(spec_u64_to_le_bytes(spec_u64_from_le_bytes(other_bytes)) == other_bytes);
    assert(bytes == other_bytes);
    assert(bytes.subrange(0, 4) == spec_u32_to_le_bytes(constant));
    assert(other_bytes.subrange(0, 4) == spec_u32_to_le_bytes(other_constant));
    assert(spec_u32_from_le_bytes(spec_u32_to_le_bytes(constant)) == constant);
    assert(spec_u32_from_le_bytes(spec_u32_to_le_bytes(other_constant)) == other_constant);
    assert(bytes.subrange(4, 8) == fork_version@);
    assert(other_bytes.subrange(4, 8) == other_fork_version@);
}

impl ChainSpec {
    /// The constant that stands for `domain` on this chain.
    pub open spec fn spec_domain_constant(self, domain: Domain) -> u32 {
        match domain {
            Domain::BeaconProposer => self.domain_beacon_proposer,
            Domain::Randao => self.domain_randao,
            Domain::Attestation => self.domain_attestation,
        }
    }

    /// The constant that stands for `domain` on this chain.
    pub fn get_domain_constant(&self, domain: Domain) -> (constant: u32)
        ensures
            constant == self.spec_domain_constant(domain),
    {
        match domain {
            Domain::BeaconProposer => self.domain_beacon_proposer,
            Domain::Randao => self.domain_randao,
            Domain::Attestation => self.domain_attestation,
        }
    }

    /// The signing domain for objects of kind `domain` signed in `epoch` under `fork`.
    pub open spec fn spec_domain(self, epoch: Epoch, domain: Domain, fork: Fork) -> u64 {
        domain_of(self.spec_domain_constant(domain), fork.spec_fork_version(epoch))
    }

    /// The signing domain for objects of kind `domain` signed in `epoch` under
    /// `fork`.
    pub fn get_domain(&self, epoch: Epoch, domain: Domain, fork: &Fork) -> (value: u64)
        ensures
            value == self.spec_domain(epoch, domain, *fork),
    {
        let version: [u8; 4] = fork.get_fork_version(epoch);
        let mut bytes: Vec<u8> = u32_to_le_bytes(self.get_domain_constant(domain));
        let ghost head: Seq<u8> = bytes@;
        let mut i: usize = 0;
        while i < 4
            invariant
                i <= 4,
                head.len() == 4,
                bytes@ == head + version@.take(i as int),
            decreases 4 - i,
        {
            bytes.push(version[i]);
            i += 1;
        }
        assert(version@.take(4) == version@);
        u64_from_le_bytes(bytes.as_slice())
    }
}

} // verus!
