//! The scheduler: what the validator client does when a slot begins.
//!
//! The caller owns the timer. When it fires, the caller reads the wall clock
//! and calls [`Service::per_slot_execution`], which moves to the slot of that
//! time, fetches the duties of the slot's epoch if they are not known yet and
//! returns one task for each duty that is due. The caller runs each task on its own, with
//! [`DutyTask::run`], and does not wait for any of them.

use crate::attestation_producer::{AttestationProducer, AttestationReplies, BeaconNodeAttestation};
use crate::block_producer::{BeaconNodeBlock, BlockProducer, BlockReplies};
use crate::clock::Clock;
use crate::duties::{
    BeaconNodeDuties, DutiesManager, DutyAssignment, EpochDuties, WorkInfo,
};
use crate::error::{DutyError, Error, RemoteError};
use crate::fork::{ChainSpec, Fork};
use crate::signer::{PublicKey, Signer};
use crate::slot::{Epoch, Slot};
use vstd::prelude::*;

verus! {

/// The time in milliseconds that the scheduler lets pass after the start of a
/// slot before it acts, so that the beacon node has finished its own work for
/// the slot.
pub const TIME_DELAY_FROM_SLOT: u64 = 100;

/// Where the scheduler stands with respect to genesis.
#[derive(Clone, Copy, Debug, PartialEq, Eq)]
pub enum SchedulerState {
    /// Genesis is still ahead: there is no slot to process yet.
    AwaitingGenesis,
    /// Genesis has passed: every timer tick has a slot.
    Running,
}

/// How the caller has to set its timer.
#[derive(Clone, Copy, Debug, PartialEq, Eq)]
pub struct StartPlan {
    /// Where the scheduler stands at the time of the start.
    pub state: SchedulerState,
    /// The time until the first tick, in milliseconds: the time left until
    /// the next slot starts.
    pub first_tick_in: u64,
    /// The time between two ticks, in milliseconds: the length of a slot.
    pub period: u64,
    /// The time to wait after each tick before acting, in milliseconds.
    pub delay: u64,
}

/// How the duties of an epoch were brought up to date.
#[derive(Debug, PartialEq, Eq)]
pub enum Refresh {
    /// The duties of the epoch were known: the beacon node was not asked.
    NotNeeded,
    /// The beacon node was asked and its answer is now the entry of the epoch.
    Succeeded,
    /// The beacon node was asked and nothing came of it. The duties are as
    /// they were; the next tick asks again.
    Failed(Error),
}

/// What a tick of the timer has brought about.
#[derive(Debug, PartialEq, Eq)]
pub struct SlotWork {
    /// The slot that the tick has moved to.
    pub slot: Slot,
    /// How the duties of the slot's epoch were brought up to date. A failure
    /// here is to be reported and nothing more: the tasks are then those of
    /// the duties known before.
    pub refreshed: Refresh,
    /// The tasks that are due in the slot, each to be run on its own.
    pub tasks: Vec<DutyTask>,
}

/// One duty to carry out, independent of every other.
#[derive(Clone, Copy, Debug, PartialEq, Eq)]
pub enum DutyTask {
    /// Propose a block.
    ProduceBlock(BlockProducer),
    /// Attest.
    ProduceAttestation(AttestationProducer),
}

/// What the signer and the beacon node answered in the course of one task.
/// Only the answers of the task's own kind play a part in its outcome.
pub struct TaskReplies {
    /// The answers to a block proposal.
    pub block: BlockReplies,
    /// The answers to an attestation.
    pub attestation: AttestationReplies,
}

impl DutyTask {
    /// The task can be run: its epochs have at least one slot.
    pub open spec fn wf(self) -> bool {
        match self {
            DutyTask::ProduceBlock(producer) => producer.slots_per_epoch > 0,
            DutyTask::ProduceAttestation(producer) => producer.slots_per_epoch > 0,
        }
    }

    /// The validator the task is for.
    pub open spec fn validator_index(self) -> usize {
        match self {
            DutyTask::ProduceBlock(producer) => producer.validator_index,
            DutyTask::ProduceAttestation(producer) => producer.validator_index,
        }
    }

    /// The slot in which the task is due.
    pub open spec fn slot(self) -> Slot {
        match self {
            DutyTask::ProduceBlock(producer) => producer.slot,
            DutyTask::ProduceAttestation(producer) => producer.duty.slot,
        }
    }

    /// How the task ends, with `validator_count` local validators, when the
    /// answers to its exchanges are `replies`.
    pub open spec fn spec_outcome(self, validator_count: nat, replies: TaskReplies) -> Result<
        Slot,
        DutyError,
    > {
        match self {
            DutyTask::ProduceBlock(producer) => if producer.validator_index >= validator_count {
                Err(DutyError::UnknownValidator)
            } else {
                producer.spec_outcome(replies.block)
            },
            DutyTask::ProduceAttestation(producer) => producer.spec_outcome(replies.attestation),
        }
    }

    /// Carries out the task against the given beacon node and signer, as
    /// [`BlockProducer::handle_produce_block`] or
    /// [`AttestationProducer::handle_produce_attestation`] does. The outcome
    /// depends on the task itself and on the answers to its own exchanges, and on
    /// nothing else.
    pub fn run<B: BeaconNodeBlock, A: BeaconNodeAttestation, S: Signer>(
        &self,
        block_node: &B,
        attestation_node: &A,
        signer: &S,
        validators: &Vec<PublicKey>,
    ) -> (outcome: Result<Slot, DutyError>)
        requires
            self.wf(),
        ensures
            exists|replies: TaskReplies|
                outcome == #[trigger] self.spec_outcome(validators.len() as nat, replies),
            outcome matches Ok(slot) ==> slot == self.slot(),
    {
        match self {
            DutyTask::ProduceBlock(producer) => {
                let outcome = producer.handle_produce_block(block_node, signer, validators);
                proof {
                    let block = if producer.validator_index < validators.len() {
                        choose|replies: BlockReplies|
                            outcome == #[trigger] producer.spec_outcome(replies)
                    } else {
                        arbitrary()
                    };
                    let replies = TaskReplies { block, attestation: arbitrary() };
                    assert(outcome == self.spec_outcome(validators.len() as nat, replies));
                }
                outcome
            },
            DutyTask::ProduceAttestation(producer) => {
                let outcome = producer.handle_produce_attestation(attestation_node, signer);
                proof {
                    let attestation = choose|replies: AttestationReplies|
                        outcome == #[trigger] producer.spec_outcome(replies);
                    let replies = TaskReplies { block: arbitrary(), attestation };
                    assert(outcome == self.spec_outcome(validators.len() as nat, replies));
                }
                outcome
            },
        }
    }
}

/// The tasks for one item of work in `slot`: the block proposal if the item
/// asks for one, then the attestation if it asks for one.
pub open spec fn item_tasks(
    item: (usize, WorkInfo),
    fork: Fork,
    slot: Slot,
    spec: ChainSpec,
    slots_per_epoch: u64,
) -> Seq<DutyTask> {
    let proposal = if item.1.produce_block {
        seq![
            DutyTask::ProduceBlock(
                BlockProducer { fork, slot, spec, slots_per_epoch, validator_index: item.0 },
            ),
        ]
    } else {
        Seq::empty()
    };
    let attestation = match item.1.attestation_duty {
        Some(duty) => seq![
            DutyTask::ProduceAttestation(
                AttestationProducer { fork, duty, spec, slots_per_epoch, validator_index: item.0 },
            ),
        ],
        None => Seq::empty(),
    };
    proposal + attestation
}

/// The tasks for the work of `slot`: those of each item, in the order of the
/// items.
pub open spec fn tasks_for(
    work: Seq<(usize, WorkInfo)>,
    fork: Fork,
    slot: Slot,
    spec: ChainSpec,
    slots_per_epoch: u64,
) -> Seq<DutyTask>
    decreases work.len(),
{
    if work.len() == 0 {
        Seq::empty()
    } else {
        tasks_for(work.drop_last(), fork, slot, spec, slots_per_epoch) + item_tasks(
            work.last(),
            fork,
            slot,
            spec,
            slots_per_epoch,
        )
    }
}

/// Whether the scheduler processes the slot `observed` when the last slot it
/// processed is `current`: only a slot after the last one is processed.
pub open spec fn advances(current: Option<Slot>, observed: Slot) -> bool {
    current matches Some(last) ==> last.0 < observed.0
}

/// The slot processed last after a tick at which the clock gave `observed`,
/// when the slot processed last before was `current`.
pub open spec fn after_tick(current: Option<Slot>, observed: Option<Slot>) -> Option<Slot> {
    match observed {
        Some(slot) => if advances(current, slot) {
            Some(slot)
        } else {
            current
        },
        None => current,
    }
}

/// How a refresh went that the duties manager answered with `result`.
pub open spec fn refresh_of(result: Result<(), Error>) -> Refresh {
    match result {
        Ok(_) => Refresh::Succeeded,
        Err(error) => Refresh::Failed(error),
    }
}

/// Whether `refreshed` and `duties` are what bringing the duties of `epoch`
/// up to date makes of `manager`: nothing where the duties of the epoch are
/// known, and otherwise what follows from some answer of the beacon node to
/// the query for the epoch.
pub open spec fn brought_up_to_date(
    manager: DutiesManager,
    epoch: Epoch,
    refreshed: Refresh,
    duties: Map<Epoch, Seq<DutyAssignment>>,
) -> bool {
    if manager@.contains_key(epoch) {
        refreshed == Refresh::NotNeeded && duties == manager@
    } else {
        exists|response: Result<EpochDuties, RemoteError>|
            duties == #[trigger] manager.spec_after_refresh(epoch, response) && refreshed
                == refresh_of(manager.refresh_result(response))
    }
}

/// The validator service: the state of the scheduler.
pub struct Service {
    fork: Fork,
    slot_clock: Clock,
    current_slot: Option<Slot>,
    slots_per_epoch: u64,
    spec: ChainSpec,
    duties_manager: DutiesManager,
}

impl Service {
    /// The service is well formed: an epoch has at least one slot, and the
    /// duties manager is well formed for epochs of that length.
    pub closed spec fn wf(&self) -> bool {
        &&& self.slots_per_epoch > 0
        &&& self.duties_manager.wf()
        &&& self.duties_manager.spec_slots_per_epoch() == self.slots_per_epoch
        &&& self.slot_clock.spec_slot_duration() == self.spec.milliseconds_per_slot
        &&& self.spec.milliseconds_per_slot > 0
    }

    /// The fork the service signs under.
    pub closed spec fn spec_fork(&self) -> Fork {
        self.fork
    }

    /// The clock of the service.
    pub closed spec fn spec_clock(&self) -> Clock {
        self.slot_clock
    }

    /// The slot that was processed last, if any was.
    pub closed spec fn spec_current_slot(&self) -> Option<Slot> {
        self.current_slot
    }

    /// The number of slots in an epoch.
    pub closed spec fn spec_slots_per_epoch(&self) -> u64 {
        self.slots_per_epoch
    }

    /// The constants of the chain.
    pub closed spec fn spec_chain_spec(&self) -> ChainSpec {
        self.spec
    }

    /// The duties manager of the service.
    pub closed spec fn spec_duties_manager(&self) -> DutiesManager {
        self.duties_manager
    }

    /// Everything but the last processed slot and the known duties is the same
    /// in `self` and `other`.
    pub open spec fn same_setup(&self, other: &Service) -> bool {
        &&& self.spec_fork() == other.spec_fork()
        &&& self.spec_clock() == other.spec_clock()
        &&& self.spec_slots_per_epoch() == other.spec_slots_per_epoch()
        &&& self.spec_chain_spec() == other.spec_chain_spec()
        &&& self.spec_duties_manager().spec_validators()
            == other.spec_duties_manager().spec_validators()
        &&& self.spec_duties_manager().spec_slots_per_epoch()
            == other.spec_duties_manager().spec_slots_per_epoch()
    }

    /// The epoch of the slot processed last.
    pub open spec fn spec_current_epoch(&self) -> Epoch {
        self.spec_current_slot()->0.spec_epoch(self.spec_slots_per_epoch())
    }

    /// The tasks that are due in the slot processed last: those for the work
    /// that the duties manager holds for that slot.
    pub open spec fn spec_due_tasks(&self) -> Seq<DutyTask> {
        tasks_for(
            self.spec_duties_manager().spec_get_work(self.spec_current_slot()->0),
            self.spec_fork(),
            self.spec_current_slot()->0,
            self.spec_chain_spec(),
            self.spec_slots_per_epoch(),
        )
    }

    /// A service for the validators with the given public keys, on a chain
    /// with the given constants, fork and genesis time (in milliseconds since
    /// the Unix epoch; `None` while it is not known). No slot has been
    /// processed and no duty is known.
    pub fn new(
        fork: Fork,
        genesis: Option<u64>,
        spec: ChainSpec,
        slots_per_epoch: u64,
        validators: Vec<PublicKey>,
    ) -> (service: Self)
        requires
            slots_per_epoch > 0,
            spec.milliseconds_per_slot > 0,
        ensures
            service.wf(),
            service.spec_fork() == fork,
            service.spec_clock().spec_genesis() == genesis,
            service.spec_clock().spec_slot_duration() == spec.milliseconds_per_slot,
            service.spec_current_slot() is None,
            service.spec_slots_per_epoch() == slots_per_epoch,
            service.spec_chain_spec() == spec,
            service.spec_duties_manager()@ == Map::<Epoch, Seq<DutyAssignment>>::empty(),
            service.spec_duties_manager().spec_validators() == validators@,
    {
        Service {
            fork,
            slot_clock: Clock::new(genesis, spec.milliseconds_per_slot),
            current_slot: None,
            slots_per_epoch,
            spec,
            duties_manager: DutiesManager::new(slots_per_epoch, validators),
        }
    }

    /// How to set the timer when the service is started at `wall_time`: the
    /// first tick at the start of the next slot, one tick per slot from then
    /// on. Fails where the clock cannot tell when the next slot starts.
    pub fn start(&self, wall_time: u64) -> (plan: Result<StartPlan, Error>)
        requires
            self.wf(),
        ensures
            match self.spec_clock().until_next_slot(wall_time) {
                Some(first_tick_in) => plan == Ok::<StartPlan, Error>(
                    StartPlan {
                        state: if self.spec_clock().slot_at(wall_time) is Some {
                            SchedulerState::Running
                        } else {
                            SchedulerState::AwaitingGenesis
                        },
                        first_tick_in,
                        period: self.spec_chain_spec().milliseconds_per_slot,
                        delay: TIME_DELAY_FROM_SLOT,
                    },
                ),
                None => plan == Err::<StartPlan, Error>(Error::NoDurationToNextSlot),
            },
    {
        let first_tick_in = match self.slot_clock.duration_to_next_slot(wall_time) {
            Some(duration) => duration,
            None => {
                return Err(Error::NoDurationToNextSlot);
            },
        };
        let state = if self.slot_clock.now(wall_time).is_some() {
            SchedulerState::Running
        } else {
            SchedulerState::AwaitingGenesis
        };
        Ok(
            StartPlan {
                state,
                first_tick_in,
                period: self.spec.milliseconds_per_slot,
                delay: TIME_DELAY_FROM_SLOT,
            },
        )
    }

    /// Moves to the slot of `wall_time`.
    ///
    /// Fails, and changes nothing, where the clock has no slot for
    /// `wall_time` and where its slot is not after the slot processed last.
    /// Otherwise that slot becomes the slot processed last.
    pub fn update_current_slot(&mut self, wall_time: u64) -> (result: Result<(), Error>)
        requires
            old(self).wf(),
        ensures
            final(self).wf(),
            final(self).same_setup(old(self)),
            final(self).spec_duties_manager() == old(self).spec_duties_manager(),
            final(self).spec_current_slot() == after_tick(
                old(self).spec_current_slot(),
                old(self).spec_clock().slot_at(wall_time),
            ),
            match old(self).spec_clock().slot_at(wall_time) {
                None => result == Err::<(), Error>(Error::GenesisNotInPast),
                Some(slot) => if advances(old(self).spec_current_slot(), slot) {
                    result == Ok::<(), Error>(())
                } else {
                    result == Err::<(), Error>(Error::DuplicateSlot)
                },
            },
            result is Err ==> final(self).spec_current_slot() == old(self).spec_current_slot(),
    {
        let wall_clock_slot = match self.slot_clock.now(wall_time) {
            Some(slot) => slot,
            None => {
                return Err(Error::GenesisNotInPast);
            },
        };
        if let Some(current_slot) = self.current_slot {
            if wall_clock_slot.0 <= current_slot.0 {
                return Err(Error::DuplicateSlot);
            }
        }
        self.current_slot = Some(wall_clock_slot);
        Ok(())
    }

    /// Whether the duties of the epoch of the slot processed last have yet to
    /// be fetched.
    pub fn needs_duties(&self) -> (stale: bool)
        requires
            self.wf(),
            self.spec_current_slot() is Some,
        ensures
            stale == !self.spec_duties_manager()@.contains_key(self.spec_current_epoch()),
    {
        let current_epoch = self.current_slot.unwrap().epoch(self.slots_per_epoch);
        self.duties_manager.is_stale(current_epoch)
    }

    /// Takes the beacon node's answer to the query for the duties of the
    /// epoch of the slot processed last, as [`DutiesManager::apply_refresh`]
    /// does.
    pub fn apply_duties(&mut self, response: Result<EpochDuties, RemoteError>) -> (refreshed: Refresh)
        requires
            old(self).wf(),
            old(self).spec_current_slot() is Some,
        ensures
            final(self).wf(),
            final(self).same_setup(old(self)),
            final(self).spec_current_slot() == old(self).spec_current_slot(),
            final(self).spec_duties_manager()@ == old(self).spec_duties_manager().spec_after_refresh(
                old(self).spec_current_epoch(),
                response,
            ),
            refreshed == refresh_of(old(self).spec_duties_manager().refresh_result(response)),
            refreshed != Refresh::Succeeded ==> final(self).spec_duties_manager()@
                == old(self).spec_duties_manager()@,
            refreshed == Refresh::Succeeded ==> final(self).spec_duties_manager()@.contains_key(
                old(self).spec_current_epoch(),
            ),
    {
        let current_epoch = self.current_slot.unwrap().epoch(self.slots_per_epoch);
        match self.duties_manager.apply_refresh(current_epoch, response) {
            Ok(_) => Refresh::Succeeded,
            Err(error) => Refresh::Failed(error),
        }
    }

    /// Brings the duties of the epoch of the slot processed last up to date.
    ///
    /// Where the duties of that epoch are known, nothing is done. Where they
    /// are not, `beacon_node` is asked once for the duties of all local
    /// validators in that epoch, and its answer is taken as
    /// [`Service::apply_duties`] does. A failed refresh is reported and
    /// changes nothing: the duties known before stay in force, and the next
    /// check asks again.
    pub fn check_for_duties<D: BeaconNodeDuties>(&mut self, beacon_node: &D) -> (refreshed: Refresh)
        requires
            old(self).wf(),
            old(self).spec_current_slot() is Some,
        ensures
            final(self).wf(),
            final(self).same_setup(old(self)),
            final(self).spec_current_slot() == old(self).spec_current_slot(),
            brought_up_to_date(
                old(self).spec_duties_manager(),
                old(self).spec_current_epoch(),
                refreshed,
                final(self).spec_duties_manager()@,
            ),
            refreshed != Refresh::Succeeded ==> final(self).spec_duties_manager()@
                == old(self).spec_duties_manager()@,
            !(refreshed is Failed) ==> final(self).spec_duties_manager()@.contains_key(
                old(self).spec_current_epoch(),
            ),
    {
        if !self.needs_duties() {
            return Refresh::NotNeeded;
        }
        let current_epoch = self.current_slot.unwrap().epoch(self.slots_per_epoch);
        let response = beacon_node.request_duties(current_epoch, self.duties_manager.validators());
        let ghost answered = response;
        let refreshed = self.apply_duties(response);
        proof {
            assert(self.spec_duties_manager()@ == old(self).spec_duties_manager().spec_after_refresh(
                current_epoch,
                answered,
            ));
        }
        refreshed
    }

    /// The tasks that are due in the slot processed last: for each validator
    /// with work in that slot, its block proposal and its attestation, each a
    /// task of its own that carries the fork and the chain constants of this
    /// moment.
    pub fn process_duties(&self) -> (tasks: Vec<DutyTask>)
        requires
            self.wf(),
            self.spec_current_slot() is Some,
        ensures
            tasks@ == self.spec_due_tasks(),
            forall|k: int| 0 <= k < tasks.len() ==> (#[trigger] tasks[k]).wf(),
            forall|k: int|
                0 <= k < tasks.len() ==> Some((#[trigger] tasks[k]).slot())
                    == self.spec_current_slot(),
            forall|k: int|
                0 <= k < tasks.len() ==> (#[trigger] tasks[k]).validator_index()
                    < self.spec_duties_manager().spec_validators().len(),
    {
        let slot = self.current_slot.unwrap();
        let work = self.duties_manager.get_work(slot);
        let mut tasks: Vec<DutyTask> = Vec::new();
        let mut i: usize = 0;
        while i < work.len()
            invariant
                i <= work.len(),
                self.slots_per_epoch > 0,
                tasks@ == tasks_for(
                    work@.take(i as int),
                    self.fork,
                    slot,
                    self.spec,
                    self.slots_per_epoch,
                ),
                forall|k: int| 0 <= k < work.len() ==> (#[trigger] work[k]).1.due_in(slot),
                forall|k: int|
                    0 <= k < work.len() ==> (#[trigger] work[k]).0
                        < self.duties_manager.spec_validators().len(),
                forall|k: int| 0 <= k < tasks.len() ==> (#[trigger] tasks[k]).wf(),
                forall|k: int| 0 <= k < tasks.len() ==> (#[trigger] tasks[k]).slot() == slot,
                forall|k: int|
                    0 <= k < tasks.len() ==> (#[trigger] tasks[k]).validator_index()
                        < self.duties_manager.spec_validators().len(),
            decreases work.len() - i,
        {
            let validator_index: usize = work[i].0;
            let info: WorkInfo = work[i].1;
            let ghost before = tasks@;
            proof {
                assert(work@.take(i + 1).drop_last() == work@.take(i as int));
                assert(work@.take(i + 1).last() == work@[i as int]);
                assert(work[i as int].1.due_in(slot));
            }
            if info.produce_block {
                tasks.push(
                    DutyTask::ProduceBlock(
                        BlockProducer {
                            fork: self.fork,
                            slot,
                            spec: self.spec,
                            slots_per_epoch: self.slots_per_epoch,
                            validator_index,
                        },
                    ),
                );
            }
            match info.attestation_duty {
                Some(duty) => {
                    tasks.push(
                        DutyTask::ProduceAttestation(
                            AttestationProducer {
                                fork: self.fork,
                                duty,
                                spec: self.spec,
                                slots_per_epoch: self.slots_per_epoch,
                                validator_index,
                            },
                        ),
                    );
                },
                None => {},
            }
            proof {
                assert(tasks@ =~= before + item_tasks(
                    work@[i as int],
                    self.fork,
                    slot,
                    self.spec,
                    self.slots_per_epoch,
                ));
            }
            i += 1;
        }
        assert(work@.take(i as int) == work@);
        tasks
    }

    /// What the service does when the timer fires at `wall_time`: it moves to
    /// the slot of that time, brings the duties of the slot's epoch up to
    /// date, and returns the tasks that are due in the slot, for the caller to
    /// run each on its own.
    ///
    /// Where the clock has no slot for `wall_time`, and where its slot is not
    /// after the slot processed last, the tick fails, nothing changes, the
    /// beacon node is not asked and no task is returned. The duties are
    /// refreshed as [`Service::check_for_duties`] does it. A refresh that
    /// fails does not fail the tick: the tasks are then those of the duties
    /// known before.
    pub fn per_slot_execution<D: BeaconNodeDuties>(
        &mut self,
        wall_time: u64,
        beacon_node: &D,
    ) -> (result: Result<SlotWork, Error>)
        requires
            old(self).wf(),
        ensures
            final(self).wf(),
            final(self).same_setup(old(self)),
            final(self).spec_current_slot() == after_tick(
                old(self).spec_current_slot(),
                old(self).spec_clock().slot_at(wall_time),
            ),
            match old(self).spec_clock().slot_at(wall_time) {
                None => result == Err::<SlotWork, Error>(Error::GenesisNotInPast),
                Some(slot) => if advances(old(self).spec_current_slot(), slot) {
                    result matches Ok(work) && work.slot == slot
                } else {
                    result == Err::<SlotWork, Error>(Error::DuplicateSlot)
                },
            },
            result is Err ==> final(self).spec_duties_manager() == old(self).spec_duties_manager(),
            result matches Ok(work) ==> {
                &&& brought_up_to_date(
                    old(self).spec_duties_manager(),
                    work.slot.spec_epoch(old(self).spec_slots_per_epoch()),
                    work.refreshed,
                    final(self).spec_duties_manager()@,
                )
                &&& work.refreshed != Refresh::Succeeded ==> final(self).spec_duties_manager()@
                    == old(self).spec_duties_manager()@
                &&& work.tasks@ == final(self).spec_due_tasks()
                &&& forall|k: int| 0 <= k < work.tasks.len() ==> (#[trigger] work.tasks[k]).wf()
                &&& forall|k: int|
                    0 <= k < work.tasks.len() ==> (#[trigger] work.tasks[k]).slot() == work.slot
                &&& forall|k: int|
                    0 <= k < work.tasks.len() ==> (#[trigger] work.tasks[k]).validator_index()
                        < final(self).spec_duties_manager().spec_validators().len()
            },
    {
        match self.update_current_slot(wall_time) {
            Ok(_) => {},
            Err(error) => {
                return Err(error);
            },
        }
        let slot = self.current_slot.unwrap();
        let refreshed = self.check_for_duties(beacon_node);
        let tasks = self.process_duties();
        Ok(SlotWork { slot, refreshed, tasks })
    }

    /// The slot that was processed last, if any was.
    pub fn current_slot(&self) -> (slot: Option<Slot>)
        ensures
            slot == self.spec_current_slot(),
    {
        self.current_slot
    }

    /// The fork the service signs under.
    pub fn fork(&self) -> (fork: Fork)
        ensures
            fork == self.spec_fork(),
    {
        self.fork
    }

    /// The clock of the service.
    pub fn slot_clock(&self) -> (clock: Clock)
        ensures
            clock == self.spec_clock(),
    {
        self.slot_clock
    }

    /// The duties manager of the service.
    pub fn duties_manager(&self) -> (manager: &DutiesManager)
        ensures
            *manager == self.spec_duties_manager(),
    {
        &self.duties_manager
    }
}

/// The slot processed last after the scheduler, with `current` as the slot
/// processed last, has seen the clock give `observed`, tick after tick.
pub open spec fn last_processed(current: Option<Slot>, observed: Seq<Option<Slot>>) -> Option<Slot>
    decreases observed.len(),
{
    if observed.len() == 0 {
        current
    } else {
        after_tick(last_processed(current, observed.drop_last()), observed.last())
    }
}

/// The slots that the scheduler processes, in order, when it starts with
/// `current` as the slot processed last and the clock gives `observed`, tick
/// after tick.
pub open spec fn processed_slots(current: Option<Slot>, observed: Seq<Option<Slot>>) -> Seq<Slot>
    decreases observed.len(),
{
    if observed.len() == 0 {
        Seq::empty()
    } else {
        let earlier = processed_slots(current, observed.drop_last());
        let before = last_processed(current, observed.drop_last());
        match observed.last() {
            Some(slot) => if advances(before, slot) {
                earlier.push(slot)
            } else {
                earlier
            },
            None => earlier,
        }
    }
}

/// Whatever the clock gives, tick after tick, the slots that the scheduler
/// processes are strictly increasing, and each is after the slot it started
/// from: no slot is processed twice.
pub proof fn lemma_processed_slots_increase(current: Option<Slot>, observed: Seq<Option<Slot>>)
    ensures
        forall|i: int, j: int|
            0 <= i < j < processed_slots(current, observed).len() ==> (#[trigger] processed_slots(
                current,
                observed,
            )[i]).0 < (#[trigger] processed_slots(current, observed)[j]).0,
        forall|i: int|
            0 <= i < processed_slots(current, observed).len() ==> advances(
                current,
                #[trigger] processed_slots(current, observed)[i],
            ),
        processed_slots(current, observed).len() == 0 ==> last_processed(current, observed)
            == current,
        processed_slots(current, observed).len() > 0 ==> last_processed(current, observed) == Some(
            processed_slots(current, observed).last(),
        ),
    decreases observed.len(),
{
    if observed.len() > 0 {
        lemma_processed_slots_increase(current, observed.drop_last());
        let earlier = processed_slots(current, observed.drop_last());
        let all = processed_slots(current, observed);
        assert forall|i: int, j: int| 0 <= i < j < all.len() implies (#[trigger] all[i]).0 < (
        #[trigger] all[j]).0 by {
            if j < earlier.len() {
                assert(all[i] == earlier[i] && all[j] == earlier[j]);
            } else {
                assert(all[i] == earlier[i]);
                if i < earlier.len() - 1 {
                    assert(earlier[i].0 < earlier[earlier.len() - 1].0);
                }
            }
        }
    }
}

/// The task can succeed: its validator is among `validator_count` local
/// validators, and an attester sits in its own committee.
pub open spec fn feasible(task: DutyTask, validator_count: nat) -> bool {
    match task {
        DutyTask::ProduceBlock(producer) => producer.validator_index < validator_count,
        DutyTask::ProduceAttestation(producer) => producer.duty.committee_position
            < producer.duty.committee_len,
    }
}

/// None of the answers to the exchanges of `task` is a failure.
pub open spec fn answered(task: DutyTask, replies: TaskReplies) -> bool {
    match task {
        DutyTask::ProduceBlock(_) => {
            &&& replies.block.randao_reveal is Some
            &&& replies.block.block is Ok
            &&& replies.block.signature is Some
            &&& replies.block.published is Ok
        },
        DutyTask::ProduceAttestation(_) => {
            &&& replies.attestation.data is Ok
            &&& replies.attestation.signature is Some
            &&& replies.attestation.published is Ok
        },
    }
}

/// How each of `tasks` ends when the answers to the exchanges of task `i` are
/// `replies[i]`.
pub open spec fn spec_outcomes(
    tasks: Seq<DutyTask>,
    validator_count: nat,
    replies: Seq<TaskReplies>,
) -> Seq<Result<Slot, DutyError>> {
    Seq::new(tasks.len(), |i: int| tasks[i].spec_outcome(validator_count, replies[i]))
}

/// Of the tasks of a slot, exactly those complete whose own exchanges all
/// succeed: a task that can succeed ends with its slot if none of its answers
/// is a failure, and with a failure otherwise.
pub proof fn lemma_unfailed_tasks_complete(
    tasks: Seq<DutyTask>,
    validator_count: nat,
    replies: Seq<TaskReplies>,
    i: int,
)
    requires
        replies.len() == tasks.len(),
        0 <= i < tasks.len(),
    ensures
        spec_outcomes(tasks, validator_count, replies)[i] is Ok <==> feasible(
            tasks[i],
            validator_count,
        ) && answered(tasks[i], replies[i]),
        spec_outcomes(tasks, validator_count, replies)[i] matches Ok(slot) ==> slot
            == tasks[i].slot(),
{
}

/// A failure in one task does not reach another: how task `i` ends depends on
/// the answers to its own exchanges alone, whatever the other tasks of the
/// slot were answered.
pub proof fn lemma_failures_stay_isolated(
    tasks: Seq<DutyTask>,
    validator_count: nat,
    replies: Seq<TaskReplies>,
    other_replies: Seq<TaskReplies>,
    i: int,
)
    requires
        replies.len() == tasks.len(),
        other_replies.len() == tasks.len(),
        0 <= i < tasks.len(),
        replies[i] == other_replies[i],
    ensures
        spec_outcomes(tasks, validator_count, replies)[i] == spec_outcomes(
            tasks,
            validator_count,
            other_replies,
        )[i],
{
}

} // verus!
