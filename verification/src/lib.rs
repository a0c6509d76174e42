//! Duty scheduling and signing coordination for a proof-of-stake validator
//! client.
//!
//! Given the validators held locally, the library decides which of them must
//! propose a block or attest in each slot, and drives the exchange with the
//! beacon node and the signer that turns a duty into a published, signed
//! artifact. Everything here works on plain values: the caller reads the wall
//! clock, owns the timer and the threads, and lends the library its transports
//! through the traits of [`duties`], [`block_producer`],
//! [`attestation_producer`] and [`signer`].
//!
//! Beside the scheduler stands [`eth1_cache`], a small cache of the deposit
//! contract's state at recent blocks of the Eth1 chain.

pub mod attestation_producer;
pub mod block_producer;
pub mod clock;
pub mod duties;
pub mod error;
pub mod eth1_cache;
pub mod fork;
pub mod service;
pub mod signer;
pub mod slot;
