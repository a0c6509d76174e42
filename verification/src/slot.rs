//! Slots and epochs, the units of network time.

use vstd::prelude::*;

verus! {

/// A slot: the fixed-length unit of network time, counted from genesis.
#[derive(Clone, Copy, Debug, PartialEq, Eq, Structural, Hash)]
pub struct Slot(pub u64);

/// An epoch: a run of `slots_per_epoch` consecutive slots, counted from genesis.
#[derive(Clone, Copy, Debug, PartialEq, Eq, Structural, Hash)]
pub struct Epoch(pub u64);

impl Slot {
    /// The slot with the given number.
    pub fn new(slot: u64) -> (s: Slot)
        ensures
            s.0 == slot,
    {
        Slot(slot)
    }

    /// The number of the slot.
    pub fn as_u64(&self) -> (number: u64)
        ensures
            number == self.0,
    {
        self.0
    }

    /// The epoch that holds this slot when every epoch has `slots_per_epoch` slots.
    pub open spec fn spec_epoch(self, slots_per_epoch: u64) -> Epoch {
        Epoch((self.0 / slots_per_epoch) as u64)
    }

    /// The epoch that holds this slot.
    #[verifier::when_used_as_spec(spec_epoch)]
    pub fn epoch(self, slots_per_epoch: u64) -> (epoch: Epoch)
        requires
            slots_per_epoch > 0,
        ensures
            epoch == self.spec_epoch(slots_per_epoch),
            epoch.0 * slots_per_epoch <= self.0 < (epoch.0 + 1) * slots_per_epoch,
    {
        let number: u64 = self.0 / slots_per_epoch;
        proof {
            vstd::arithmetic::div_mod::lemma_fundamental_div_mod(
                self.0 as int,
                slots_per_epoch as int,
            );
            vstd::arithmetic::div_mod::lemma_mod_bound(self.0 as int, slots_per_epoch as int);
            assert((number + 1) * slots_per_epoch == number * slots_per_epoch + slots_per_epoch)
                by (nonlinear_arith);
            assert(slots_per_epoch * number == number * slots_per_epoch) by (nonlinear_arith);
        }
        Epoch(number)
    }
}

impl Epoch {
    /// The epoch with the given number.
    pub fn new(epoch: u64) -> (e: Epoch)
        ensures
            e.0 == epoch,
    {
        Epoch(epoch)
    }

    /// The number of the epoch.
    pub fn as_u64(&self) -> (number: u64)
        ensures
            number == self.0,
    {
        self.0
    }
}

} // verus!
