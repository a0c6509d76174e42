use std::cell::RefCell;
use validator_client::attestation_producer::{
    aggregation_bits, AttestationData, AttestationProducer, AttestationReplies,
    BeaconNodeAttestation, SignedAttestation,
};
use validator_client::block_producer::{
    BeaconNodeBlock, BlockProducer, BlockReplies, SignedBlock, UnsignedBlock,
};
use validator_client::duties::AttestationDuty;
use validator_client::error::{DutyError, RemoteError};
use validator_client::fork::{ChainSpec, Fork};
use validator_client::service::DutyTask;
use validator_client::signer::{PublicKey, Signature, Signer};
use validator_client::slot::{Epoch, Slot};

fn chain_spec() -> ChainSpec {
    ChainSpec {
        milliseconds_per_slot: 6_000,
        domain_beacon_proposer: 0,
        domain_randao: 1,
        domain_attestation: 2,
    }
}

fn fork() -> Fork {
    Fork { previous_version: [1, 0, 0, 0], current_version: [2, 0, 0, 0], epoch: Epoch(3) }
}

fn keys(count: u8) -> Vec<PublicKey> {
    (0..count).map(|i| PublicKey { bytes: vec![i; 48] }).collect()
}

fn down() -> RemoteError {
    RemoteError { message: String::from("connection refused") }
}

fn block_producer(validator_index: usize, slot: u64) -> BlockProducer {
    BlockProducer {
        fork: fork(),
        slot: Slot(slot),
        spec: chain_spec(),
        slots_per_epoch: 32,
        validator_index,
    }
}

fn attestation_producer(validator_index: usize, slot: u64) -> AttestationProducer {
    AttestationProducer {
        fork: fork(),
        duty: AttestationDuty {
            slot: Slot(slot),
            committee_index: 5,
            committee_position: 2,
            committee_len: 4,
        },
        spec: chain_spec(),
        slots_per_epoch: 32,
        validator_index,
    }
}

/// A signer that signs with the validator's index, the domain and the length
/// of the message, and declines for the validators it is told to.
struct StubSigner {
    declined: Vec<usize>,
    asked: RefCell<Vec<(usize, Vec<u8>, u64)>>,
}

impl StubSigner {
    fn new(declined: Vec<usize>) -> Self {
        StubSigner { declined, asked: RefCell::new(Vec::new()) }
    }
}

impl Signer for StubSigner {
    fn sign(&self, validator_index: usize, message: &Vec<u8>, domain: u64) -> Option<Signature> {
        self.asked.borrow_mut().push((validator_index, message.clone(), domain));
        if self.declined.contains(&validator_index) {
            return None;
        }
        let mut bytes = vec![validator_index as u8];
        bytes.extend_from_slice(&domain.to_le_bytes());
        bytes.push(message.len() as u8);
        Some(Signature { bytes })
    }
}

/// A beacon node that fails to hand out blocks or data to the validators in
/// `no_fetch`, fails to take anything signed by those in `no_publish`, and
/// keeps what it took.
struct StubNode {
    no_fetch: Vec<u8>,
    no_publish: Vec<u8>,
    blocks: RefCell<Vec<SignedBlock>>,
    attestations: RefCell<Vec<SignedAttestation>>,
    asked: RefCell<Vec<(u64, Vec<u8>)>>,
}

impl StubNode {
    fn new(no_fetch: Vec<u8>, no_publish: Vec<u8>) -> Self {
        StubNode {
            no_fetch,
            no_publish,
            blocks: RefCell::new(Vec::new()),
            attestations: RefCell::new(Vec::new()),
            asked: RefCell::new(Vec::new()),
        }
    }
}

impl BeaconNodeBlock for StubNode {
    fn produce_beacon_block(
        &self,
        slot: Slot,
        proposer: &PublicKey,
        randao_reveal: &Signature,
    ) -> Result<UnsignedBlock, RemoteError> {
        self.asked.borrow_mut().push((slot.0, randao_reveal.bytes.clone()));
        if self.no_fetch.contains(&proposer.bytes[0]) {
            return Err(down());
        }
        Ok(UnsignedBlock { slot, body: vec![0xb0, proposer.bytes[0], slot.0 as u8] })
    }

    fn publish_beacon_block(&self, block: SignedBlock) -> Result<(), RemoteError> {
        if self.no_publish.contains(&block.signature.bytes[0]) {
            return Err(down());
        }
        self.blocks.borrow_mut().push(block);
        Ok(())
    }
}

impl BeaconNodeAttestation for StubNode {
    fn produce_attestation_data(
        &self,
        slot: Slot,
        committee_index: u64,
    ) -> Result<AttestationData, RemoteError> {
        if self.no_fetch.contains(&(committee_index as u8)) {
            return Err(down());
        }
        Ok(AttestationData { slot, committee_index, body: vec![0xa7, slot.0 as u8] })
    }

    fn publish_attestation(&self, attestation: SignedAttestation) -> Result<(), RemoteError> {
        if self.no_publish.contains(&attestation.signature.bytes[0]) {
            return Err(down());
        }
        self.attestations.borrow_mut().push(attestation);
        Ok(())
    }
}

fn signature(validator_index: u8, domain: u64, message_len: u8) -> Signature {
    let mut bytes = vec![validator_index];
    bytes.extend_from_slice(&domain.to_le_bytes());
    bytes.push(message_len);
    Signature { bytes }
}

#[test]
fn block_is_fetched_signed_and_published() {
    let node = StubNode::new(vec![], vec![]);
    let signer = StubSigner::new(vec![]);
    let producer = block_producer(1, 100);
    assert_eq!(producer.handle_produce_block(&node, &signer, &keys(4)), Ok(Slot(100)));

    let randao_domain = (2u64 << 32) + 1;
    let proposer_domain = 2u64 << 32;
    let mut epoch_message = vec![3u8];
    epoch_message.extend_from_slice(&[0u8; 31]);
    assert_eq!(
        *signer.asked.borrow(),
        vec![
            (1, epoch_message, randao_domain),
            (1, vec![0xb0, 1, 100], proposer_domain),
        ]
    );
    assert_eq!(*node.asked.borrow(), vec![(100, signature(1, randao_domain, 32).bytes)]);
    assert_eq!(
        *node.blocks.borrow(),
        vec![SignedBlock {
            slot: Slot(100),
            body: vec![0xb0, 1, 100],
            signature: signature(1, proposer_domain, 3),
        }]
    );
}

#[test]
fn block_is_signed_under_the_fork_of_its_epoch() {
    let node = StubNode::new(vec![], vec![]);
    let signer = StubSigner::new(vec![]);
    let producer = block_producer(0, 95);
    assert_eq!(producer.handle_produce_block(&node, &signer, &keys(1)), Ok(Slot(95)));
    let asked = signer.asked.borrow();
    assert_eq!(asked[0].2, (1u64 << 32) + 1);
    assert_eq!(asked[1].2, 1u64 << 32);
    assert_eq!(asked[0].1[0], 2);
}

#[test]
fn randao_message_is_the_epoch_in_32_bytes() {
    let producer = BlockProducer { slot: Slot(0x0102_0304 * 32 + 5), ..block_producer(0, 0) };
    let mut expected = vec![0x04, 0x03, 0x02, 0x01];
    expected.extend_from_slice(&[0u8; 28]);
    assert_eq!(producer.randao_reveal_message(), expected);
}

#[test]
fn block_of_an_unknown_validator_is_not_asked_for() {
    let node = StubNode::new(vec![], vec![]);
    let signer = StubSigner::new(vec![]);
    let producer = block_producer(4, 100);
    assert_eq!(
        producer.handle_produce_block(&node, &signer, &keys(4)),
        Err(DutyError::UnknownValidator)
    );
    assert!(signer.asked.borrow().is_empty());
    assert!(node.asked.borrow().is_empty());
}

#[test]
fn block_fails_at_the_first_failure() {
    let producer = block_producer(1, 100);

    let node = StubNode::new(vec![], vec![]);
    let signer = StubSigner::new(vec![1]);
    assert_eq!(
        producer.handle_produce_block(&node, &signer, &keys(4)),
        Err(DutyError::SignerRejection)
    );
    assert!(node.asked.borrow().is_empty());

    let node = StubNode::new(vec![1], vec![]);
    let signer = StubSigner::new(vec![]);
    assert_eq!(
        producer.handle_produce_block(&node, &signer, &keys(4)),
        Err(DutyError::FetchFailed(down()))
    );
    assert_eq!(signer.asked.borrow().len(), 1);

    let node = StubNode::new(vec![], vec![1]);
    let signer = StubSigner::new(vec![]);
    assert_eq!(
        producer.handle_produce_block(&node, &signer, &keys(4)),
        Err(DutyError::PublishFailed(down()))
    );
    assert!(node.blocks.borrow().is_empty());
}

fn block_replies() -> BlockReplies {
    BlockReplies {
        randao_reveal: Some(Signature { bytes: vec![1] }),
        block: Ok(UnsignedBlock { slot: Slot(100), body: vec![2] }),
        signature: Some(Signature { bytes: vec![3] }),
        published: Ok(()),
    }
}

#[test]
fn block_settles_on_the_first_failure() {
    let producer = block_producer(1, 100);
    assert_eq!(producer.settle(block_replies()), Ok(Slot(100)));
    assert_eq!(
        producer.settle(BlockReplies { randao_reveal: None, block: Err(down()), ..block_replies() }),
        Err(DutyError::SignerRejection)
    );
    assert_eq!(
        producer.settle(BlockReplies { block: Err(down()), signature: None, ..block_replies() }),
        Err(DutyError::FetchFailed(down()))
    );
    assert_eq!(
        producer.settle(BlockReplies {
            signature: None,
            published: Err(down()),
            ..block_replies()
        }),
        Err(DutyError::SignerRejection)
    );
    assert_eq!(
        producer.settle(BlockReplies { published: Err(down()), ..block_replies() }),
        Err(DutyError::PublishFailed(down()))
    );
}

#[test]
fn sign_block_keeps_the_block() {
    let signed = BlockProducer::sign_block(
        UnsignedBlock { slot: Slot(7), body: vec![1, 2, 3] },
        Signature { bytes: vec![9] },
    );
    assert_eq!(
        signed,
        SignedBlock { slot: Slot(7), body: vec![1, 2, 3], signature: Signature { bytes: vec![9] } }
    );
}

#[test]
fn attestation_is_fetched_signed_and_published() {
    let node = StubNode::new(vec![], vec![]);
    let signer = StubSigner::new(vec![]);
    let producer = attestation_producer(3, 100);
    assert_eq!(producer.handle_produce_attestation(&node, &signer), Ok(Slot(100)));
    let domain = (2u64 << 32) + 2;
    assert_eq!(*signer.asked.borrow(), vec![(3, vec![0xa7, 100], domain)]);
    assert_eq!(
        *node.attestations.borrow(),
        vec![SignedAttestation {
            data: AttestationData { slot: Slot(100), committee_index: 5, body: vec![0xa7, 100] },
            aggregation_bits: vec![false, false, true, false],
            signature: signature(3, domain, 2),
        }]
    );
}

#[test]
fn attestation_fails_at_the_first_failure() {
    let producer = attestation_producer(3, 100);

    let node = StubNode::new(vec![5], vec![]);
    let signer = StubSigner::new(vec![]);
    assert_eq!(
        producer.handle_produce_attestation(&node, &signer),
        Err(DutyError::FetchFailed(down()))
    );
    assert!(signer.asked.borrow().is_empty());

    let node = StubNode::new(vec![], vec![]);
    let signer = StubSigner::new(vec![3]);
    assert_eq!(
        producer.handle_produce_attestation(&node, &signer),
        Err(DutyError::SignerRejection)
    );
    assert!(node.attestations.borrow().is_empty());

    let node = StubNode::new(vec![], vec![3]);
    let signer = StubSigner::new(vec![]);
    assert_eq!(
        producer.handle_produce_attestation(&node, &signer),
        Err(DutyError::PublishFailed(down()))
    );
}

#[test]
fn attestation_outside_the_committee_is_not_asked_for() {
    let node = StubNode::new(vec![], vec![]);
    let signer = StubSigner::new(vec![]);
    let mut producer = attestation_producer(3, 100);
    producer.duty.committee_position = 4;
    assert_eq!(
        producer.handle_produce_attestation(&node, &signer),
        Err(DutyError::InvalidCommittee)
    );
    assert!(signer.asked.borrow().is_empty());
    assert!(node.attestations.borrow().is_empty());
}

fn attestation_replies() -> AttestationReplies {
    AttestationReplies {
        data: Ok(AttestationData { slot: Slot(100), committee_index: 5, body: vec![2] }),
        signature: Some(Signature { bytes: vec![3] }),
        published: Ok(()),
    }
}

#[test]
fn attestation_settles_on_the_first_failure() {
    let producer = attestation_producer(3, 100);
    assert_eq!(producer.settle(attestation_replies()), Ok(Slot(100)));
    assert_eq!(
        producer.settle(AttestationReplies {
            data: Err(down()),
            signature: None,
            ..attestation_replies()
        }),
        Err(DutyError::FetchFailed(down()))
    );
    assert_eq!(
        producer.settle(AttestationReplies { signature: None, ..attestation_replies() }),
        Err(DutyError::SignerRejection)
    );
    assert_eq!(
        producer.settle(AttestationReplies { published: Err(down()), ..attestation_replies() }),
        Err(DutyError::PublishFailed(down()))
    );
    let mut outside = producer;
    outside.duty.committee_len = 2;
    assert_eq!(outside.settle(attestation_replies()), Err(DutyError::InvalidCommittee));
}

#[test]
fn aggregation_bits_mark_one_member() {
    assert_eq!(aggregation_bits(4, 2), Some(vec![false, false, true, false]));
    assert_eq!(aggregation_bits(1, 0), Some(vec![true]));
    assert_eq!(aggregation_bits(4, 4), None);
    assert_eq!(aggregation_bits(0, 0), None);
}

#[test]
fn failures_do_not_reach_other_tasks() {
    let tasks = vec![
        DutyTask::ProduceBlock(block_producer(0, 100)),
        DutyTask::ProduceBlock(block_producer(1, 100)),
        DutyTask::ProduceAttestation(attestation_producer(2, 100)),
        DutyTask::ProduceBlock(block_producer(3, 100)),
        DutyTask::ProduceAttestation(attestation_producer(4, 100)),
        DutyTask::ProduceBlock(block_producer(5, 100)),
    ];
    let node = StubNode::new(vec![1], vec![3]);
    let signer = StubSigner::new(vec![4]);
    let validators = keys(6);
    let outcomes: Vec<_> =
        tasks.iter().map(|task| task.run(&node, &node, &signer, &validators)).collect();
    assert_eq!(
        outcomes,
        vec![
            Ok(Slot(100)),
            Err(DutyError::FetchFailed(down())),
            Ok(Slot(100)),
            Err(DutyError::PublishFailed(down())),
            Err(DutyError::SignerRejection),
            Ok(Slot(100)),
        ]
    );
    let published: Vec<u8> = node.blocks.borrow().iter().map(|b| b.signature.bytes[0]).collect();
    assert_eq!(published, vec![0, 5]);
    let attested: Vec<u8> =
        node.attestations.borrow().iter().map(|a| a.signature.bytes[0]).collect();
    assert_eq!(attested, vec![2]);

    let healthy = StubNode::new(vec![], vec![]);
    let willing = StubSigner::new(vec![]);
    for (task, outcome) in tasks.iter().zip(outcomes) {
        if outcome.is_ok() {
            assert_eq!(task.run(&healthy, &healthy, &willing, &validators), outcome);
        }
    }
}
