use std::cell::RefCell;
use validator_client::duties::{
    names_only_known, AttestationDuty, BeaconNodeDuties, DutiesManager, DutyAssignment,
    EpochDuties, EpochDutiesMap, WorkInfo,
};
use validator_client::error::{Error, RemoteError};
use validator_client::signer::PublicKey;
use validator_client::slot::{Epoch, Slot};

fn keys(count: u8) -> Vec<PublicKey> {
    (0..count).map(|i| PublicKey { bytes: vec![i; 48] }).collect()
}

fn attestation(slot: u64) -> AttestationDuty {
    AttestationDuty {
        slot: Slot(slot),
        committee_index: 3,
        committee_position: 1,
        committee_len: 4,
    }
}

fn proposer(validator_index: usize, slot: u64) -> DutyAssignment {
    DutyAssignment {
        validator_index,
        block_production_slot: Some(Slot(slot)),
        attestation_duty: None,
    }
}

fn attester(validator_index: usize, slot: u64) -> DutyAssignment {
    DutyAssignment {
        validator_index,
        block_production_slot: None,
        attestation_duty: Some(attestation(slot)),
    }
}

fn down() -> RemoteError {
    RemoteError { message: String::from("connection refused") }
}

/// A beacon node that answers from a table and is down for every other epoch.
struct TableNode {
    answers: Vec<(u64, EpochDuties)>,
    asked: RefCell<Vec<(u64, usize)>>,
}

impl TableNode {
    fn new(answers: Vec<(u64, EpochDuties)>) -> Self {
        TableNode { answers, asked: RefCell::new(Vec::new()) }
    }
}

impl BeaconNodeDuties for TableNode {
    fn request_duties(
        &self,
        epoch: Epoch,
        validators: &Vec<PublicKey>,
    ) -> Result<EpochDuties, RemoteError> {
        self.asked.borrow_mut().push((epoch.0, validators.len()));
        for (e, duties) in &self.answers {
            if *e == epoch.0 {
                return Ok(duties.clone());
            }
        }
        Err(down())
    }
}

#[test]
fn work_for_a_block_only_in_its_slot() {
    let mut manager = DutiesManager::new(32, keys(4));
    assert_eq!(manager.apply_refresh(Epoch(2), Ok(vec![proposer(3, 64)])), Ok(()));
    assert_eq!(manager.get_work(Slot(63)), vec![]);
    assert_eq!(
        manager.get_work(Slot(64)),
        vec![(3, WorkInfo { produce_block: true, attestation_duty: None })]
    );
    assert_eq!(manager.get_work(Slot(65)), vec![]);
}

#[test]
fn work_is_empty_for_an_unknown_epoch() {
    let mut manager = DutiesManager::new(32, keys(4));
    assert_eq!(manager.get_work(Slot(0)), vec![]);
    manager.apply_refresh(Epoch(2), Ok(vec![proposer(3, 64)])).unwrap();
    assert_eq!(manager.get_work(Slot(32)), vec![]);
    assert_eq!(manager.get_work(Slot(96)), vec![]);
}

#[test]
fn work_holds_only_what_is_due_in_the_slot() {
    let mut manager = DutiesManager::new(32, keys(4));
    let both = DutyAssignment {
        validator_index: 1,
        block_production_slot: Some(Slot(70)),
        attestation_duty: Some(attestation(71)),
    };
    let same = DutyAssignment {
        validator_index: 2,
        block_production_slot: Some(Slot(71)),
        attestation_duty: Some(attestation(71)),
    };
    manager
        .apply_refresh(Epoch(2), Ok(vec![attester(0, 70), both, same, proposer(3, 64)]))
        .unwrap();
    assert_eq!(
        manager.get_work(Slot(70)),
        vec![
            (0, WorkInfo { produce_block: false, attestation_duty: Some(attestation(70)) }),
            (1, WorkInfo { produce_block: true, attestation_duty: None }),
        ]
    );
    assert_eq!(
        manager.get_work(Slot(71)),
        vec![
            (1, WorkInfo { produce_block: false, attestation_duty: Some(attestation(71)) }),
            (2, WorkInfo { produce_block: true, attestation_duty: Some(attestation(71)) }),
        ]
    );
    for slot in 64..96 {
        for (_, work) in manager.get_work(Slot(slot)) {
            assert!(work.produce_block || work.attestation_duty.is_some());
            if let Some(duty) = work.attestation_duty {
                assert_eq!(duty.slot, Slot(slot));
            }
        }
    }
}

#[test]
fn is_work_slot_of_one_assignment() {
    let both = DutyAssignment {
        validator_index: 1,
        block_production_slot: Some(Slot(5)),
        attestation_duty: Some(attestation(6)),
    };
    assert_eq!(both.is_work_slot(Slot(4)), None);
    assert_eq!(
        both.is_work_slot(Slot(5)),
        Some(WorkInfo { produce_block: true, attestation_duty: None })
    );
    assert_eq!(
        both.is_work_slot(Slot(6)),
        Some(WorkInfo { produce_block: false, attestation_duty: Some(attestation(6)) })
    );
    let idle =
        DutyAssignment { validator_index: 1, block_production_slot: None, attestation_duty: None };
    assert_eq!(idle.is_work_slot(Slot(0)), None);
}

#[test]
fn failed_refresh_keeps_the_entry() {
    let mut manager = DutiesManager::new(32, keys(4));
    manager.apply_refresh(Epoch(2), Ok(vec![proposer(3, 64)])).unwrap();
    assert_eq!(manager.apply_refresh(Epoch(2), Err(down())), Err(Error::Remote(down())));
    assert_eq!(
        manager.get_work(Slot(64)),
        vec![(3, WorkInfo { produce_block: true, attestation_duty: None })]
    );
}

#[test]
fn refresh_replaces_the_whole_entry() {
    let mut manager = DutiesManager::new(32, keys(4));
    manager.apply_refresh(Epoch(2), Ok(vec![proposer(3, 64), attester(1, 64)])).unwrap();
    manager.apply_refresh(Epoch(3), Ok(vec![proposer(0, 96)])).unwrap();
    manager.apply_refresh(Epoch(2), Ok(vec![proposer(2, 65)])).unwrap();
    assert_eq!(manager.get_work(Slot(64)), vec![]);
    assert_eq!(
        manager.get_work(Slot(65)),
        vec![(2, WorkInfo { produce_block: true, attestation_duty: None })]
    );
    assert_eq!(
        manager.get_work(Slot(96)),
        vec![(0, WorkInfo { produce_block: true, attestation_duty: None })]
    );
}

#[test]
fn refresh_rejects_a_validator_that_is_not_held() {
    let mut manager = DutiesManager::new(32, keys(4));
    manager.apply_refresh(Epoch(2), Ok(vec![proposer(3, 64)])).unwrap();
    assert_eq!(
        manager.apply_refresh(Epoch(2), Ok(vec![proposer(0, 64), proposer(4, 64)])),
        Err(Error::UnknownValidator)
    );
    assert_eq!(
        manager.get_work(Slot(64)),
        vec![(3, WorkInfo { produce_block: true, attestation_duty: None })]
    );
    assert!(names_only_known(&vec![proposer(0, 1), proposer(3, 1)], 4));
    assert!(!names_only_known(&vec![proposer(0, 1), proposer(4, 1)], 4));
    assert!(names_only_known(&vec![], 0));
}

#[test]
fn refresh_asks_the_node_once_for_all_validators() {
    let node = TableNode::new(vec![(2, vec![proposer(3, 64)])]);
    let mut manager = DutiesManager::new(32, keys(4));
    assert_eq!(manager.refresh(&node, Epoch(2)), Ok(()));
    assert_eq!(*node.asked.borrow(), vec![(2, 4)]);
    assert_eq!(
        manager.get_work(Slot(64)),
        vec![(3, WorkInfo { produce_block: true, attestation_duty: None })]
    );
}

#[test]
fn network_failure_during_refresh_of_epoch_two() {
    let node = TableNode::new(vec![(1, vec![proposer(0, 40)])]);
    let mut manager = DutiesManager::new(32, keys(4));
    assert_eq!(manager.refresh(&node, Epoch(1)), Ok(()));
    assert_eq!(manager.refresh(&node, Epoch(2)), Err(Error::Remote(down())));
    for slot in 64..96 {
        assert_eq!(manager.get_work(Slot(slot)), vec![]);
    }
    assert_eq!(
        manager.get_work(Slot(40)),
        vec![(0, WorkInfo { produce_block: true, attestation_duty: None })]
    );

    manager.apply_refresh(Epoch(2), Ok(vec![attester(1, 70)])).unwrap();
    assert_eq!(manager.refresh(&node, Epoch(2)), Err(Error::Remote(down())));
    assert_eq!(
        manager.get_work(Slot(70)),
        vec![(1, WorkInfo { produce_block: false, attestation_duty: Some(attestation(70)) })]
    );
}

#[test]
fn epoch_is_stale_until_it_is_fetched() {
    let mut manager = DutiesManager::new(32, keys(4));
    assert!(manager.is_stale(Epoch(2)));
    manager.apply_refresh(Epoch(2), Err(down())).unwrap_err();
    assert!(manager.is_stale(Epoch(2)));
    manager.apply_refresh(Epoch(2), Ok(vec![])).unwrap();
    assert!(!manager.is_stale(Epoch(2)));
    assert!(manager.is_stale(Epoch(3)));
}

#[test]
fn manager_knows_its_validators() {
    let manager = DutiesManager::new(32, keys(3));
    assert_eq!(manager.slots_per_epoch(), 32);
    assert_eq!(manager.validators(), &keys(3));
}

#[test]
fn duties_map_by_epoch() {
    let mut map = EpochDutiesMap::new(8);
    assert_eq!(map.slots_per_epoch(), 8);
    assert_eq!(map.get(Epoch(1)), None);
    map.insert(Epoch(1), vec![proposer(0, 9)]);
    assert_eq!(map.get(Epoch(1)), Some(&vec![proposer(0, 9)]));
    assert_eq!(map.get(Epoch(0)), None);
    assert_eq!(
        map.work_at(Slot(9)),
        vec![(0, WorkInfo { produce_block: true, attestation_duty: None })]
    );
    assert_eq!(map.work_at(Slot(8)), vec![]);
    assert_eq!(map.work_at(Slot(1)), vec![]);
    map.insert(Epoch(1), vec![]);
    assert_eq!(map.work_at(Slot(9)), vec![]);
}
