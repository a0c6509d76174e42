//! A cache of what the deposit contract looked like at recent blocks of the
//! Eth1 chain.
//!
//! The cache is filled by walking back from the head of the Eth1 chain: the
//! block at distance `d` from a head at `n` is block `n - d`. What is read at
//! a block is kept under that block's number.

use std::collections::BTreeMap;
use vstd::prelude::*;
use web3::types::U256;

verus! {

broadcast use {vstd::std_specs::btree::group_btree_axioms, vstd::laws_cmp::group_laws_cmp};

/// A 32-byte hash.
pub type Hash256 = [u8; 32];

/// The state of the deposit contract at one Eth1 block.
#[derive(Clone, Copy, Debug, PartialEq, Eq)]
pub struct Eth1Data {
    /// The root of the deposit tree.
    pub deposit_root: Hash256,
    /// The number of deposits made so far.
    pub deposit_count: u64,
    /// The hash of the block.
    pub block_hash: Hash256,
}

/// Access to the Eth1 chain.
///
/// The transport is the caller's: the library asks through this trait and
/// relies on nothing about the answers.
pub trait Eth1DataFetcher {
    /// The number of the block at the head of the chain.
    fn get_current_block_number(&self) -> Result<u64, ()>;

    /// The hash of the block with the given number, if there is such a block.
    fn get_block_hash_by_height(&self, height: u64) -> Result<Option<Hash256>, ()>;

    /// The number of deposits at the given block, if the contract can tell.
    fn get_deposit_count(&self, block_number: u64) -> Result<Option<u64>, ()>;

    /// The root of the deposit tree at the given block.
    fn get_deposit_root(&self, block_number: u64) -> Result<Hash256, ()>;
}

/// `U256::checked_sub`, on numbers that fit 64 bits: the difference of the
/// two numbers, or `None` where the second is the larger. Both numbers are
/// widened with `U256::from`, and the difference, which is no larger than the
/// first, is narrowed with `U256::low_u64`.
#[verifier::external_body]
fn checked_sub(minuend: u64, subtrahend: u64) -> (difference: Option<u64>)
    ensures
        match difference {
            Some(d) => subtrahend <= minuend && d == minuend - subtrahend,
            None => minuend < subtrahend,
        },
{
    match U256::from(minuend).checked_sub(U256::from(subtrahend)) {
        Some(difference) => Some(difference.low_u64()),
        None => None,
    }
}

/// The number of the block at `distance` behind a head at
/// `current_block_number`; block 0 where the chain is shorter than that.
pub open spec fn spec_block_number_at(distance: u64, current_block_number: u64) -> int {
    if distance <= current_block_number {
        current_block_number - distance
    } else {
        0
    }
}

/// The number of the block at `distance` behind a head at
/// `current_block_number`; block 0 where the chain is shorter than that.
pub fn block_number_at(distance: u64, current_block_number: u64) -> (block_number: u64)
    ensures
        block_number == spec_block_number_at(distance, current_block_number),
{
    match checked_sub(current_block_number, distance) {
        Some(block_number) => block_number,
        None => 0,
    }
}

/// What is kept of block `block_number` when the deposit contract gave
/// `deposit_root` and `deposit_count` and the chain gave `block_hash`: the
/// block's number with the three together, or nothing where the count or the
/// hash is missing.
pub open spec fn spec_eth1_data_at(
    block_number: u64,
    deposit_root: Hash256,
    deposit_count: Option<u64>,
    block_hash: Option<Hash256>,
) -> Option<(u64, Eth1Data)> {
    match (deposit_count, block_hash) {
        (Some(deposit_count), Some(block_hash)) => Some(
            (block_number, Eth1Data { deposit_root, deposit_count, block_hash }),
        ),
        _ => None,
    }
}

/// What is kept of block `block_number` when the deposit contract gave
/// `deposit_root` and `deposit_count` and the chain gave `block_hash`: the
/// block's number with the three together, or nothing where the count or the
/// hash is missing.
pub fn eth1_data_at(
    block_number: u64,
    deposit_root: Hash256,
    deposit_count: Option<u64>,
    block_hash: Option<Hash256>,
) -> (entry: Option<(u64, Eth1Data)>)
    ensures
        entry == spec_eth1_data_at(block_number, deposit_root, deposit_count, block_hash),
        entry is Some <==> deposit_count is Some && block_hash is Some,
{
    match (deposit_count, block_hash) {
        (Some(deposit_count), Some(block_hash)) => Some(
            (block_number, Eth1Data { deposit_root, deposit_count, block_hash }),
        ),
        _ => None,
    }
}

/// What the chain answered to the three questions about one block.
pub struct Eth1Replies {
    /// The answer to the question for the deposit root.
    pub deposit_root: Result<Hash256, ()>,
    /// The answer to the question for the deposit count.
    pub deposit_count: Result<Option<u64>, ()>,
    /// The answer to the question for the block's hash.
    pub block_hash: Result<Option<Hash256>, ()>,
}

/// What reading block `block_number` gives when the chain answers `replies`:
/// a failure if any answer is a failure, and otherwise what
/// [`spec_eth1_data_at`] makes of the three answers.
pub open spec fn spec_read_block(block_number: u64, replies: Eth1Replies) -> Result<
    Option<(u64, Eth1Data)>,
    (),
> {
    match (replies.deposit_root, replies.deposit_count, replies.block_hash) {
        (Ok(deposit_root), Ok(deposit_count), Ok(block_hash)) => Ok(
            spec_eth1_data_at(block_number, deposit_root, deposit_count, block_hash),
        ),
        _ => Err(()),
    }
}

/// What reading block `block_number` gives when the chain answers `replies`.
pub fn read_block(block_number: u64, replies: Eth1Replies) -> (fetched: Result<
    Option<(u64, Eth1Data)>,
    (),
>)
    ensures
        fetched == spec_read_block(block_number, replies),
{
    match (replies.deposit_root, replies.deposit_count, replies.block_hash) {
        (Ok(deposit_root), Ok(deposit_count), Ok(block_hash)) => Ok(
            eth1_data_at(block_number, deposit_root, deposit_count, block_hash),
        ),
        _ => Err(()),
    }
}

/// Reads from `fetcher` the state of the deposit contract at the block
/// `distance` behind a head at `current_block_number`.
///
/// All three questions are asked of the same block, and a failure of any of
/// them fails the whole. What comes back, if anything, is under the number of
/// that block.
pub fn fetch_eth1_data<F: Eth1DataFetcher>(
    distance: u64,
    current_block_number: u64,
    fetcher: &F,
) -> (fetched: Result<Option<(u64, Eth1Data)>, ()>)
    ensures
        exists|block_number: u64, replies: Eth1Replies|
            block_number == spec_block_number_at(distance, current_block_number) && fetched
                == #[trigger] spec_read_block(block_number, replies),
        fetched matches Ok(Some(entry)) ==> entry.0 == spec_block_number_at(
            distance,
            current_block_number,
        ),
{
    let block_number = block_number_at(distance, current_block_number);
    let deposit_root = fetcher.get_deposit_root(block_number);
    let deposit_count = fetcher.get_deposit_count(block_number);
    let block_hash = fetcher.get_block_hash_by_height(block_number);
    read_block(block_number, Eth1Replies { deposit_root, deposit_count, block_hash })
}

/// The cache: the state of the deposit contract at the blocks read so far,
/// the block from which the next update starts, and the fetcher that the
/// updates read from.
pub struct Eth1DataCache<F: Eth1DataFetcher> {
    cache: BTreeMap<u64, Eth1Data>,
    last_block: u64,
    fetcher: F,
}

impl<F: Eth1DataFetcher> View for Eth1DataCache<F> {
    type V = Map<u64, Eth1Data>;

    closed spec fn view(&self) -> Map<u64, Eth1Data> {
        self.cache@
    }
}

impl<F: Eth1DataFetcher> Eth1DataCache<F> {
    /// The block from which the next update starts.
    pub closed spec fn spec_last_block(&self) -> u64 {
        self.last_block
    }

    /// The fetcher that the updates read from.
    pub closed spec fn spec_fetcher(&self) -> F {
        self.fetcher
    }

    /// `distances` are the numbers from `self.spec_last_block()` up to, but
    /// not including, `current_block_number` that are not the number of a
    /// cached block, in increasing order.
    pub open spec fn is_missing(&self, current_block_number: u64, distances: Seq<u64>) -> bool {
        &&& forall|k: int|
            0 <= k < distances.len() ==> self.spec_last_block() <= (#[trigger] distances[k])
                < current_block_number && !self@.contains_key(distances[k])
        &&& forall|i: int, j: int|
            0 <= i < j < distances.len() ==> (#[trigger] distances[i]) < (#[trigger] distances[j])
        &&& forall|d: u64|
            self.spec_last_block() <= d < current_block_number && !self@.contains_key(d)
                ==> #[trigger] distances.contains(d)
    }

    /// An empty cache that reads from `fetcher` and whose updates start from
    /// block 0.
    pub fn new(fetcher: F) -> (cache: Self)
        ensures
            cache@ == Map::<u64, Eth1Data>::empty(),
            cache.spec_last_block() == 0,
            cache.spec_fetcher() == fetcher,
    {
        Eth1DataCache { cache: BTreeMap::new(), last_block: 0, fetcher }
    }

    /// The fetcher that the updates read from.
    pub fn fetcher(&self) -> (fetcher: &F)
        ensures
            *fetcher == self.spec_fetcher(),
    {
        &self.fetcher
    }

    /// The block from which the next update starts.
    pub fn last_block(&self) -> (last_block: u64)
        ensures
            last_block == self.spec_last_block(),
    {
        self.last_block
    }

    /// What is cached of block `block_number`, if anything is.
    pub fn get(&self, block_number: u64) -> (data: Option<Eth1Data>)
        ensures
            data is Some <==> self@.contains_key(block_number),
            data matches Some(d) ==> d == self@[block_number],
    {
        match self.cache.get(&block_number) {
            Some(data) => Some(*data),
            None => None,
        }
    }

    /// Keeps `fetched`, if it is something, in place of what was cached of
    /// its block.
    pub fn store(&mut self, fetched: Option<(u64, Eth1Data)>)
        ensures
            final(self).spec_last_block() == old(self).spec_last_block(),
            final(self).spec_fetcher() == old(self).spec_fetcher(),
            final(self)@ == match fetched {
                Some(entry) => old(self)@.insert(entry.0, entry.1),
                None => old(self)@,
            },
    {
        match fetched {
            Some(entry) => {
                self.cache.insert(entry.0, entry.1);
            },
            None => {},
        }
    }

    /// The distances to read when the head of the chain is at
    /// `current_block_number`: each number from the start of the update up
    /// to, but not including, `current_block_number` that is not the number
    /// of a cached block, in increasing order.
    pub fn missing_distances(&self, current_block_number: u64) -> (distances: Vec<u64>)
        ensures
            self.is_missing(current_block_number, distances@),
    {
        let mut distances: Vec<u64> = Vec::new();
        let mut i: u64 = self.last_block;
        while i < current_block_number
            invariant
                self.last_block <= i,
                forall|k: int|
                    0 <= k < distances@.len() ==> self.last_block <= (#[trigger] distances@[k]) < i
                        && distances@[k] < current_block_number && !self@.contains_key(
                        distances@[k],
                    ),
                forall|a: int, b: int|
                    0 <= a < b < distances@.len() ==> (#[trigger] distances@[a])
                        < (#[trigger] distances@[b]),
                forall|d: u64|
                    self.last_block <= d < i && d < current_block_number && !self@.contains_key(d)
                        ==> #[trigger] distances@.contains(d),
            decreases current_block_number - i,
        {
            let ghost before = distances@;
            if !self.cache.contains_key(&i) {
                distances.push(i);
                assert(distances@[before.len() as int] == i);
                assert forall|d: u64|
                    self.last_block <= d < i + 1 && d < current_block_number
                        && !self@.contains_key(d) implies #[trigger] distances@.contains(d) by {
                    if d < i {
                        assert(before.contains(d));
                        let k = choose|k: int| 0 <= k < before.len() && before[k] == d;
                        assert(distances@[k] == d);
                    }
                }
            }
            i += 1;
        }
        distances
    }

    /// Brings the cache up to a head at `current_block_number`: reads the
    /// block at each missing distance from the head, nearest first, and keeps
    /// what each read gives, as [`Eth1DataCache::store`] does.
    ///
    /// A block that cannot be read is left out and the update goes on with
    /// the next. Nothing that was cached is dropped, and the start of the
    /// next update stays where it was.
    pub fn update_from_head(&mut self, current_block_number: u64)
        ensures
            final(self).spec_last_block() == old(self).spec_last_block(),
            final(self).spec_fetcher() == old(self).spec_fetcher(),
            old(self).updated_from_head(current_block_number, final(self)@),
            old(self).only_grown(current_block_number, final(self)@),
    {
        let distances = self.missing_distances(current_block_number);
        let ghost mut reads: Seq<Fetched> = Seq::empty();
        let mut i: usize = 0;
        while i < distances.len()
            invariant
                i <= distances.len(),
                old(self).is_missing(current_block_number, distances@),
                self.spec_last_block() == old(self).spec_last_block(),
                self.spec_fetcher() == old(self).spec_fetcher(),
                reads_of(distances@.take(i as int), current_block_number, reads),
                self@ == stored_all(old(self)@, reads),
                old(self).only_grown(current_block_number, self@),
            decreases distances.len() - i,
        {
            let distance = distances[i];
            let fetched = fetch_eth1_data(distance, current_block_number, &self.fetcher);
            proof {
                let earlier = reads;
                reads = reads.push(fetched);
                assert(reads.drop_last() == earlier);
                assert(distances@.take(i + 1) == distances@.take(i as int).push(distance));
            }
            match fetched {
                Ok(entry) => self.store(entry),
                Err(_) => {},
            }
            i += 1;
        }
        assert(distances@.take(i as int) == distances@);
    }

    /// Brings the cache up to the head of the chain: asks the fetcher where
    /// the head is, and reads and keeps the block at each missing distance
    /// from it, as [`Eth1DataCache::update_from_head`] does.
    ///
    /// If the head cannot be told, the update fails and changes nothing. If
    /// it can, the update succeeds, whatever becomes of the reads. Nothing
    /// that was cached is dropped, and the start of the next update stays
    /// where it was.
    pub fn update_cache(&mut self) -> (result: Result<(), ()>)
        ensures
            final(self).spec_last_block() == old(self).spec_last_block(),
            final(self).spec_fetcher() == old(self).spec_fetcher(),
            old(self).updated(result, final(self)@),
            result is Err ==> final(self)@ == old(self)@,
            forall|block_number: u64| #[trigger]
                old(self)@.contains_key(block_number) ==> final(self)@.contains_key(block_number),
    {
        let head = self.fetcher.get_current_block_number();
        match head {
            Ok(current_block_number) => {
                self.update_from_head(current_block_number);
                Ok(())
            },
            Err(_) => Err(()),
        }
    }

    /// Whether `after` is what an update to a head at `current_block_number`
    /// makes of this cache: what the cache holds once the reads of the blocks
    /// at the missing distances, each with some outcome, have been stored in
    /// the order of the distances.
    pub open spec fn updated_from_head(
        &self,
        current_block_number: u64,
        after: Map<u64, Eth1Data>,
    ) -> bool {
        exists|distances: Seq<u64>, reads: Seq<Fetched>|
            #![trigger self.is_missing(current_block_number, distances), stored_all(self@, reads)]
            {
                &&& self.is_missing(current_block_number, distances)
                &&& reads_of(distances, current_block_number, reads)
                &&& after == stored_all(self@, reads)
            }
    }

    /// Whether `result` and `after` are what an update makes of this cache:
    /// a failure that changes nothing where the head of the chain cannot be
    /// told, and otherwise success with an update to the head that was told.
    pub open spec fn updated(&self, result: Result<(), ()>, after: Map<u64, Eth1Data>) -> bool {
        match result {
            Ok(_) => exists|current_block_number: u64| #[trigger]
                self.updated_from_head(current_block_number, after),
            Err(_) => after == self@,
        }
    }

    /// Nothing that this cache holds is missing from `after`, and every block
    /// that is new in `after` lies at a missing distance from a head at
    /// `current_block_number`.
    pub open spec fn only_grown(
        &self,
        current_block_number: u64,
        after: Map<u64, Eth1Data>,
    ) -> bool {
        &&& forall|block_number: u64| #[trigger]
            self@.contains_key(block_number) ==> after.contains_key(block_number)
        &&& forall|block_number: u64|
            #[trigger] after.contains_key(block_number) && !self@.contains_key(block_number)
                ==> exists|distance: u64|
                {
                    &&& self.spec_last_block() <= distance < current_block_number
                    &&& !self@.contains_key(distance)
                    &&& block_number == #[trigger] spec_block_number_at(
                        distance,
                        current_block_number,
                    )
                }
    }
}

/// What a read of one block gives: the block's number with its data, nothing
/// where the chain has no such data, or a failure.
pub type Fetched = Result<Option<(u64, Eth1Data)>, ()>;

/// Whether `fetched` can come of a read of block `block_number`: what it
/// holds, if anything, is under that number.
pub open spec fn is_read_of(block_number: int, fetched: Fetched) -> bool {
    fetched matches Ok(Some(entry)) ==> entry.0 == block_number
}

/// Whether `reads` can come of reading, one after the other, the blocks at
/// `distances` behind a head at `current_block_number`.
pub open spec fn reads_of(
    distances: Seq<u64>,
    current_block_number: u64,
    reads: Seq<Fetched>,
) -> bool {
    &&& reads.len() == distances.len()
    &&& forall|i: int|
        0 <= i < reads.len() ==> is_read_of(
            spec_block_number_at(distances[i], current_block_number),
            #[trigger] reads[i],
        )
}

/// What `cache` holds once `fetched` has been stored: the entry that was
/// read in place of what was cached of its block, and `cache` as it was
/// where the read gave nothing or failed.
pub open spec fn stored(cache: Map<u64, Eth1Data>, fetched: Fetched) -> Map<u64, Eth1Data> {
    match fetched {
        Ok(Some(entry)) => cache.insert(entry.0, entry.1),
        _ => cache,
    }
}

/// What `cache` holds once `reads` have been stored, one after the other.
pub open spec fn stored_all(cache: Map<u64, Eth1Data>, reads: Seq<Fetched>) -> Map<u64, Eth1Data>
    decreases reads.len(),
{
    if reads.len() == 0 {
        cache
    } else {
        stored(stored_all(cache, reads.drop_last()), reads.last())
    }
}

} // verus!
