//! The duties of the local validators, epoch by epoch.
//!
//! The beacon node assigns each validator at most one block proposal and one
//! attestation per epoch. [`DutiesManager`] keeps what it was told, one entry
//! per epoch, and answers which duties fall due in a given slot.

use crate::error::{Error, RemoteError};
use crate::signer::PublicKey;
use crate::slot::{Epoch, Slot};
use std::collections::HashMap;
use vstd::prelude::*;

verus! {

broadcast use vstd::std_specs::hash::group_hash_axioms;

/// The attestation a validator owes: the slot to attest to and the committee
/// it sits in.
#[derive(Clone, Copy, Debug, PartialEq, Eq)]
pub struct AttestationDuty {
    /// The slot in which the attestation is due.
    pub slot: Slot,
    /// The committee the validator belongs to in that slot.
    pub committee_index: u64,
    /// The validator's position within the committee.
    pub committee_position: usize,
    /// The number of validators in the committee.
    pub committee_len: usize,
}

/// What one validator owes in one epoch.
#[derive(Clone, Copy, Debug, PartialEq, Eq)]
pub struct DutyAssignment {
    /// The validator, as its index in the local signer set.
    pub validator_index: usize,
    /// The slot in which the validator proposes a block, if it proposes one.
    pub block_production_slot: Option<Slot>,
    /// The attestation the validator owes, if it owes one.
    pub attestation_duty: Option<AttestationDuty>,
}

/// What one validator has to do in one particular slot.
#[derive(Clone, Copy, Debug, PartialEq, Eq)]
pub struct WorkInfo {
    /// The validator proposes the block of this slot.
    pub produce_block: bool,
    /// The attestation due in this slot, if one is.
    pub attestation_duty: Option<AttestationDuty>,
}

/// The duties of all local validators in one epoch, in the order the beacon
/// node gave them.
pub type EpochDuties = Vec<DutyAssignment>;

impl DutyAssignment {
    /// The validator proposes the block of `slot`.
    pub open spec fn block_due(self, slot: Slot) -> bool {
        self.block_production_slot == Some(slot)
    }

    /// The attestation that falls due in `slot`, if one does.
    pub open spec fn attestation_due(self, slot: Slot) -> Option<AttestationDuty> {
        match self.attestation_duty {
            Some(duty) => if duty.slot == slot {
                Some(duty)
            } else {
                None
            },
            None => None,
        }
    }

    /// The part of this assignment that falls due in `slot`, or `None` when
    /// nothing does.
    pub open spec fn spec_is_work_slot(self, slot: Slot) -> Option<WorkInfo> {
        if self.block_due(slot) || self.attestation_due(slot) is Some {
            Some(
                WorkInfo {
                    produce_block: self.block_due(slot),
                    attestation_duty: self.attestation_due(slot),
                },
            )
        } else {
            None
        }
    }

    /// The part of this assignment that falls due in `slot`, or `None` when
    /// nothing does.
    pub fn is_work_slot(&self, slot: Slot) -> (work: Option<WorkInfo>)
        ensures
            work == self.spec_is_work_slot(slot),
    {
        let produce_block = match self.block_production_slot {
            Some(s) => s.0 == slot.0,
            None => false,
        };
        let attestation_duty = match self.attestation_duty {
            Some(duty) => if duty.slot.0 == slot.0 {
                Some(duty)
            } else {
                None
            },
            None => None,
        };
        if produce_block || attestation_duty.is_some() {
            Some(WorkInfo { produce_block, attestation_duty })
        } else {
            None
        }
    }
}

impl WorkInfo {
    /// Every duty named in this work falls due in `slot`, and at least one
    /// duty is named.
    pub open spec fn due_in(self, slot: Slot) -> bool {
        &&& self.produce_block || self.attestation_duty is Some
        &&& self.attestation_duty matches Some(duty) ==> duty.slot == slot
    }
}

/// The work that `duties` hold for `slot`: for each assignment with a duty due
/// in `slot`, in the order of `duties`, the validator and the due part of its
/// assignment.
pub open spec fn due_work(duties: Seq<DutyAssignment>, slot: Slot) -> Seq<(usize, WorkInfo)>
    decreases duties.len(),
{
    if duties.len() == 0 {
        Seq::empty()
    } else {
        let earlier = due_work(duties.drop_last(), slot);
        match duties.last().spec_is_work_slot(slot) {
            Some(work) => earlier.push((duties.last().validator_index, work)),
            None => earlier,
        }
    }
}

/// Every assignment in `duties` names a validator below `validator_count`.
pub open spec fn all_known(duties: Seq<DutyAssignment>, validator_count: nat) -> bool {
    forall|i: int|
        0 <= i < duties.len() ==> (#[trigger] duties[i]).validator_index < validator_count
}

/// Whether every assignment in `duties` names a validator below
/// `validator_count`.
pub fn names_only_known(duties: &EpochDuties, validator_count: usize) -> (known: bool)
    ensures
        known == all_known(duties@, validator_count as nat),
{
    let mut i: usize = 0;
    while i < duties.len()
        invariant
            i <= duties.len(),
            forall|j: int| 0 <= j < i ==> (#[trigger] duties@[j]).validator_index < validator_count,
        decreases duties.len() - i,
    {
        if duties[i].validator_index >= validator_count {
            return false;
        }
        i += 1;
    }
    true
}

/// Each item of `due_work(duties, slot)` comes from an assignment of `duties`
/// and is the part of it that is due in `slot`: nothing is returned for
/// another slot.
pub proof fn lemma_due_work_is_due(duties: Seq<DutyAssignment>, slot: Slot, k: int)
    requires
        0 <= k < due_work(duties, slot).len(),
    ensures
        due_work(duties, slot)[k].1.due_in(slot),
        due_work(duties, slot)[k].1.produce_block ==> exists|j: int|
            0 <= j < duties.len() && duties[j].validator_index == due_work(duties, slot)[k].0
                && (#[trigger] duties[j]).block_production_slot == Some(slot),
        exists|j: int|
            0 <= j < duties.len() && duties[j].validator_index == due_work(duties, slot)[k].0
                && (#[trigger] duties[j]).spec_is_work_slot(slot) == Some(
                due_work(duties, slot)[k].1,
            ),
    decreases duties.len(),
{
    let earlier = due_work(duties.drop_last(), slot);
    let last = duties.len() - 1;
    if k < earlier.len() {
        lemma_due_work_is_due(duties.drop_last(), slot, k);
        let j = choose|j: int|
            0 <= j < duties.drop_last().len() && duties.drop_last()[j].validator_index
                == earlier[k].0 && (#[trigger] duties.drop_last()[j]).spec_is_work_slot(slot)
                == Some(earlier[k].1);
        assert(duties[j] == duties.drop_last()[j]);
        if earlier[k].1.produce_block {
            let b = choose|j: int|
                0 <= j < duties.drop_last().len() && duties.drop_last()[j].validator_index
                    == earlier[k].0 && (#[trigger] duties.drop_last()[j]).block_production_slot
                    == Some(slot);
            assert(duties[b] == duties.drop_last()[b]);
        }
    } else {
        assert(duties[last] == duties.last());
    }
}

/// Every assignment of `duties` with a duty due in `slot` is found in
/// `due_work(duties, slot)`.
pub proof fn lemma_due_work_is_complete(duties: Seq<DutyAssignment>, slot: Slot, j: int)
    requires
        0 <= j < duties.len(),
        duties[j].spec_is_work_slot(slot) is Some,
    ensures
        exists|k: int|
            0 <= k < due_work(duties, slot).len() && #[trigger] due_work(duties, slot)[k] == (
                duties[j].validator_index,
                duties[j].spec_is_work_slot(slot)->0,
            ),
    decreases duties.len(),
{
    let earlier = due_work(duties.drop_last(), slot);
    if j < duties.len() - 1 {
        lemma_due_work_is_complete(duties.drop_last(), slot, j);
        let k = choose|k: int|
            0 <= k < earlier.len() && #[trigger] earlier[k] == (
                duties.drop_last()[j].validator_index,
                duties.drop_last()[j].spec_is_work_slot(slot)->0,
            );
        assert(due_work(duties, slot)[k] == earlier[k]);
    } else {
        let k = earlier.len() as int;
        assert(due_work(duties, slot)[k] == (
            duties[j].validator_index,
            duties[j].spec_is_work_slot(slot)->0,
        ));
    }
}

/// The validators named by `due_work` are validators named by `duties`.
pub proof fn lemma_due_work_known(duties: Seq<DutyAssignment>, slot: Slot, validator_count: nat)
    requires
        all_known(duties, validator_count),
    ensures
        forall|k: int|
            0 <= k < due_work(duties, slot).len() ==> (#[trigger] due_work(duties, slot)[k]).0
                < validator_count,
{
    assert forall|k: int| 0 <= k < due_work(duties, slot).len() implies (#[trigger] due_work(
        duties,
        slot,
    )[k]).0 < validator_count by {
        lemma_due_work_is_due(duties, slot, k);
    }
}

/// The duties known so far: for each epoch that was fetched, the assignments
/// of that epoch.
///
/// An entry is only ever written whole, by [`EpochDutiesMap::insert`]; no
/// method changes part of one.
pub struct EpochDutiesMap {
    slots_per_epoch: u64,
    map: HashMap<u64, EpochDuties>,
}

impl View for EpochDutiesMap {
    type V = Map<Epoch, Seq<DutyAssignment>>;

    closed spec fn view(&self) -> Map<Epoch, Seq<DutyAssignment>> {
        Map::new(|epoch: Epoch| self.map@.contains_key(epoch.0), |epoch: Epoch| self.map@[epoch.0]@)
    }
}

impl EpochDutiesMap {
    /// The map is well formed: an epoch has at least one slot.
    pub closed spec fn wf(&self) -> bool {
        self.slots_per_epoch > 0
    }

    /// The number of slots in an epoch. It is never zero.
    pub closed spec fn spec_slots_per_epoch(&self) -> u64 {
        self.slots_per_epoch
    }

    /// The work due in `slot`: that of the entry of the slot's epoch, and
    /// none where the epoch has no entry.
    pub open spec fn spec_work_at(&self, slot: Slot) -> Seq<(usize, WorkInfo)> {
        let epoch = slot.spec_epoch(self.spec_slots_per_epoch());
        if self@.contains_key(epoch) {
            due_work(self@[epoch], slot)
        } else {
            Seq::empty()
        }
    }

    /// A map without entries, for epochs of `slots_per_epoch` slots.
    pub fn new(slots_per_epoch: u64) -> (duties_map: Self)
        requires
            slots_per_epoch > 0,
        ensures
            duties_map.wf(),
            duties_map@ == Map::<Epoch, Seq<DutyAssignment>>::empty(),
            duties_map.spec_slots_per_epoch() == slots_per_epoch,
    {
        let duties_map = EpochDutiesMap { slots_per_epoch, map: HashMap::new() };
        assert(duties_map@ =~= Map::<Epoch, Seq<DutyAssignment>>::empty());
        duties_map
    }

    /// The number of slots in an epoch.
    pub fn slots_per_epoch(&self) -> (slots_per_epoch: u64)
        requires
            self.wf(),
        ensures
            slots_per_epoch == self.spec_slots_per_epoch(),
            slots_per_epoch > 0,
    {
        self.slots_per_epoch
    }

    /// Makes `duties` the entry of `epoch`, in place of any entry the epoch
    /// had. The entries of other epochs stay as they are.
    pub fn insert(&mut self, epoch: Epoch, duties: EpochDuties)
        requires
            old(self).wf(),
        ensures
            final(self).wf(),
            final(self)@ == old(self)@.insert(epoch, duties@),
            final(self).spec_slots_per_epoch() == old(self).spec_slots_per_epoch(),
    {
        let ghost before = self.map@;
        self.map.insert(epoch.0, duties);
        assert(self.map@ == before.insert(epoch.0, duties));
        assert(self@ =~= old(self)@.insert(epoch, duties@));
    }

    /// The assignments of `epoch`, if the epoch has an entry.
    pub fn get(&self, epoch: Epoch) -> (entry: Option<&EpochDuties>)
        ensures
            entry is Some <==> self@.contains_key(epoch),
            entry matches Some(duties) ==> duties@ == self@[epoch],
    {
        self.map.get(&epoch.0)
    }

    /// The work due in `slot`, in the order of the epoch's entry.
    pub fn work_at(&self, slot: Slot) -> (work: Vec<(usize, WorkInfo)>)
        requires
            self.wf(),
        ensures
            work@ == self.spec_work_at(slot),
    {
        let epoch = slot.epoch(self.slots_per_epoch());
        match self.get(epoch) {
            None => Vec::new(),
            Some(duties) => {
                let mut work: Vec<(usize, WorkInfo)> = Vec::new();
                let mut i: usize = 0;
                while i < duties.len()
                    invariant
                        i <= duties.len(),
                        work@ == due_work(duties@.take(i as int), slot),
                    decreases duties.len() - i,
                {
                    proof {
                        assert(duties@.take(i + 1).drop_last() == duties@.take(i as int));
                    }
                    match duties[i].is_work_slot(slot) {
                        Some(item) => work.push((duties[i].validator_index, item)),
                        None => {},
                    }
                    i += 1;
                }
                assert(duties@.take(i as int) == duties@);
                work
            },
        }
    }
}

/// The beacon node's answer to which duties the local validators have.
///
/// The transport is the caller's: the library asks through this trait and
/// relies on nothing about the answer.
pub trait BeaconNodeDuties {
    /// Asks for the duties in `epoch` of the validators with the given public
    /// keys. An assignment in the answer names its validator by the position
    /// of the validator's key in `validators`.
    fn request_duties(&self, epoch: Epoch, validators: &Vec<PublicKey>) -> Result<
        EpochDuties,
        RemoteError,
    >;
}

/// Keeps the duties of the local validators up to date and tells which are due.
pub struct DutiesManager {
    duties_map: EpochDutiesMap,
    validators: Vec<PublicKey>,
}

impl View for DutiesManager {
    type V = Map<Epoch, Seq<DutyAssignment>>;

    closed spec fn view(&self) -> Map<Epoch, Seq<DutyAssignment>> {
        self.duties_map@
    }
}

impl DutiesManager {
    /// The manager is well formed: an epoch has at least one slot, and every
    /// assignment it holds is for one of its validators.
    pub closed spec fn wf(&self) -> bool {
        &&& self.duties_map.wf()
        &&& forall|epoch: Epoch| #[trigger]
            self.duties_map@.contains_key(epoch) ==> all_known(
                self.duties_map@[epoch],
                self.validators@.len(),
            )
    }

    /// The public keys of the local validators; a validator's index is its
    /// position here.
    pub closed spec fn spec_validators(&self) -> Seq<PublicKey> {
        self.validators@
    }

    /// The number of slots in an epoch. It is never zero.
    pub closed spec fn spec_slots_per_epoch(&self) -> u64 {
        self.duties_map.spec_slots_per_epoch()
    }

    /// The assignments of the epoch of `slot`: those of the epoch's entry,
    /// and none where the epoch has no entry.
    pub open spec fn spec_assignments(&self, slot: Slot) -> Seq<DutyAssignment> {
        let epoch = slot.spec_epoch(self.spec_slots_per_epoch());
        if self@.contains_key(epoch) {
            self@[epoch]
        } else {
            Seq::empty()
        }
    }

    /// The work due in `slot`: what the assignments of the slot's epoch hold
    /// for the slot.
    pub open spec fn spec_get_work(&self, slot: Slot) -> Seq<(usize, WorkInfo)> {
        due_work(self.spec_assignments(slot), slot)
    }

    /// What the manager holds after it was told `response` for `epoch`: the
    /// entry of `epoch` replaced where the response is a set of assignments
    /// for local validators, everything as before otherwise.
    pub open spec fn spec_after_refresh(
        &self,
        epoch: Epoch,
        response: Result<EpochDuties, RemoteError>,
    ) -> Map<Epoch, Seq<DutyAssignment>> {
        match response {
            Ok(duties) => if all_known(duties@, self.spec_validators().len()) {
                self@.insert(epoch, duties@)
            } else {
                self@
            },
            Err(_) => self@,
        }
    }

    /// What a refresh returns when the beacon node's answer was `response`.
    pub open spec fn refresh_result(
        &self,
        response: Result<EpochDuties, RemoteError>,
    ) -> Result<(), Error> {
        match response {
            Ok(duties) => if all_known(duties@, self.spec_validators().len()) {
                Ok(())
            } else {
                Err(Error::UnknownValidator)
            },
            Err(error) => Err(Error::Remote(error)),
        }
    }

    /// A manager for the given validators that knows no duties yet.
    pub fn new(slots_per_epoch: u64, validators: Vec<PublicKey>) -> (manager: Self)
        requires
            slots_per_epoch > 0,
        ensures
            manager.wf(),
            manager@ == Map::<Epoch, Seq<DutyAssignment>>::empty(),
            manager.spec_validators() == validators@,
            manager.spec_slots_per_epoch() == slots_per_epoch,
    {
        DutiesManager { duties_map: EpochDutiesMap::new(slots_per_epoch), validators }
    }

    /// The number of slots in an epoch.
    pub fn slots_per_epoch(&self) -> (slots_per_epoch: u64)
        requires
            self.wf(),
        ensures
            slots_per_epoch == self.spec_slots_per_epoch(),
            slots_per_epoch > 0,
    {
        self.duties_map.slots_per_epoch()
    }

    /// The public keys of the local validators.
    pub fn validators(&self) -> (validators: &Vec<PublicKey>)
        ensures
            validators@ == self.spec_validators(),
    {
        &self.validators
    }

    /// Whether the duties of `epoch` are stale: nothing has been fetched for
    /// the epoch yet.
    pub fn is_stale(&self, epoch: Epoch) -> (stale: bool)
        ensures
            stale == !self@.contains_key(epoch),
    {
        self.duties_map.get(epoch).is_none()
    }

    /// Takes the beacon node's answer to a query for the duties of `epoch`.
    ///
    /// A set of assignments that names only local validators becomes the entry
    /// of `epoch`, whole. A failed query, or an answer that names a validator
    /// that is not held here, changes nothing: what was known of `epoch` and
    /// of every other epoch stays.
    pub fn apply_refresh(
        &mut self,
        epoch: Epoch,
        response: Result<EpochDuties, RemoteError>,
    ) -> (result: Result<(), Error>)
        requires
            old(self).wf(),
        ensures
            final(self).wf(),
            final(self)@ == old(self).spec_after_refresh(epoch, response),
            result == old(self).refresh_result(response),
            result is Err ==> final(self)@ == old(self)@,
            final(self).spec_validators() == old(self).spec_validators(),
            final(self).spec_slots_per_epoch() == old(self).spec_slots_per_epoch(),
    {
        match response {
            Err(error) => Err(Error::Remote(error)),
            Ok(duties) => {
                if names_only_known(&duties, self.validators.len()) {
                    self.duties_map.insert(epoch, duties);
                    Ok(())
                } else {
                    Err(Error::UnknownValidator)
                }
            },
        }
    }

    /// Asks `beacon_node` once for the duties of all local validators in
    /// `epoch` and takes the answer as [`DutiesManager::apply_refresh`] does.
    ///
    /// Whatever the node answers, a refresh that fails leaves every entry as
    /// it was, and one that succeeds replaces the entry of `epoch` and no
    /// other.
    pub fn refresh<D: BeaconNodeDuties>(
        &mut self,
        beacon_node: &D,
        epoch: Epoch,
    ) -> (result: Result<(), Error>)
        requires
            old(self).wf(),
        ensures
            final(self).wf(),
            exists|response: Result<EpochDuties, RemoteError>|
                {
                    &&& final(self)@ == #[trigger] old(self).spec_after_refresh(epoch, response)
                    &&& result == old(self).refresh_result(response)
                },
            result is Err ==> final(self)@ == old(self)@,
            result is Ok ==> final(self)@.contains_key(epoch),
            result is Ok ==> final(self)@.remove(epoch) == old(self)@.remove(epoch),
            final(self).spec_validators() == old(self).spec_validators(),
            final(self).spec_slots_per_epoch() == old(self).spec_slots_per_epoch(),
    {
        let response = beacon_node.request_duties(epoch, &self.validators);
        let ghost answered = response;
        let result = self.apply_refresh(epoch, response);
        proof {
            assert(self@ == old(self).spec_after_refresh(epoch, answered));
            if result is Ok {
                assert(self@.remove(epoch) =~= old(self)@.remove(epoch));
            }
        }
        result
    }

    /// The work due in `slot`: for each assignment of the slot's epoch that
    /// has a duty in `slot`, the validator and that duty. Empty where nothing
    /// is known of the epoch.
    pub fn get_work(&self, slot: Slot) -> (work: Vec<(usize, WorkInfo)>)
        requires
            self.wf(),
        ensures
            work@ == self.spec_get_work(slot),
            forall|k: int| 0 <= k < work.len() ==> (#[trigger] work[k]).1.due_in(slot),
            forall|k: int|
                0 <= k < work.len() ==> exists|j: int|
                    {
                        &&& 0 <= j < self.spec_assignments(slot).len()
                        &&& self.spec_assignments(slot)[j].validator_index == (#[trigger] work[k]).0
                        &&& (#[trigger] self.spec_assignments(slot)[j]).spec_is_work_slot(slot)
                            == Some(work[k].1)
                    },
            forall|k: int|
                0 <= k < work.len() ==> (#[trigger] work[k]).0 < self.spec_validators().len(),
    {
        let work = self.duties_map.work_at(slot);
        proof {
            let known = self.spec_assignments(slot);
            assert(all_known(known, self.validators@.len()));
            lemma_due_work_known(known, slot, self.validators@.len());
            assert forall|k: int| 0 <= k < work.len() implies (#[trigger] work[k]).1.due_in(slot)
                && exists|j: int|
                {
                    &&& 0 <= j < known.len()
                    &&& known[j].validator_index == work[k].0
                    &&& (#[trigger] known[j]).spec_is_work_slot(slot) == Some(work[k].1)
                } by {
                lemma_due_work_is_due(known, slot, k);
            }
        }
        work
    }
}

} // verus!
