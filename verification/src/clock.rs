//! The slot clock: from wall-clock time to slots.
//!
//! The clock is a function of the time it is given. It never reads the system
//! time itself, so any number of readers may share one clock. All times are
//! milliseconds since the Unix epoch.

use crate::slot::Slot;
use vstd::arithmetic::div_mod::{
    lemma_div_is_ordered, lemma_fundamental_div_mod, lemma_fundamental_div_mod_converse,
    lemma_mod_bound,
};
use vstd::prelude::*;

verus! {

/// A clock that divides the time since genesis into slots of equal length.
#[derive(Clone, Copy, Debug, PartialEq, Eq)]
pub struct Clock {
    genesis: Option<u64>,
    slot_duration: u64,
}

impl Clock {
    #[verifier::type_invariant]
    spec fn positive_slot_duration(&self) -> bool {
        self.slot_duration > 0
    }

    /// The time of genesis, the start of slot 0, where it is known.
    pub closed spec fn spec_genesis(&self) -> Option<u64> {
        self.genesis
    }

    /// The length of a slot. It is never zero.
    pub closed spec fn spec_slot_duration(&self) -> u64 {
        self.slot_duration
    }

    /// The slot that `wall_time` falls in: the number of whole slots since
    /// genesis. There is none before genesis, nor without a genesis.
    pub open spec fn slot_at(&self, wall_time: u64) -> Option<Slot> {
        match self.spec_genesis() {
            Some(genesis) => if wall_time >= genesis {
                Some(Slot(((wall_time - genesis) / (self.spec_slot_duration() as int)) as u64))
            } else {
                None
            },
            None => None,
        }
    }

    /// The time from `wall_time` to the start of the next slot: to genesis
    /// before genesis, to the end of the running slot after it. There is none
    /// without a genesis.
    pub open spec fn until_next_slot(&self, wall_time: u64) -> Option<u64> {
        match self.spec_genesis() {
            Some(genesis) => if wall_time >= genesis {
                Some(
                    (self.spec_slot_duration() - (wall_time - genesis) % (
                    self.spec_slot_duration() as int)) as u64,
                )
            } else {
                Some((genesis - wall_time) as u64)
            },
            None => None,
        }
    }

    /// A clock with slots of `slot_duration` milliseconds that start at
    /// `genesis`, or with no genesis yet.
    pub fn new(genesis: Option<u64>, slot_duration: u64) -> (clock: Self)
        requires
            slot_duration > 0,
        ensures
            clock.spec_genesis() == genesis,
            clock.spec_slot_duration() == slot_duration,
    {
        Clock { genesis, slot_duration }
    }

    /// The time of genesis, where it is known.
    pub fn genesis(&self) -> (genesis: Option<u64>)
        ensures
            genesis == self.spec_genesis(),
    {
        self.genesis
    }

    /// The length of a slot in milliseconds.
    pub fn slot_duration(&self) -> (slot_duration: u64)
        ensures
            slot_duration == self.spec_slot_duration(),
            slot_duration > 0,
    {
        proof {
            use_type_invariant(self);
        }
        self.slot_duration
    }

    /// The slot at `wall_time`, or `None` if that is before genesis or genesis
    /// is not known.
    ///
    /// The slot returned is the one whose span holds `wall_time`.
    pub fn now(&self, wall_time: u64) -> (slot: Option<Slot>)
        ensures
            slot == self.slot_at(wall_time),
            slot is None <==> (self.spec_genesis() matches Some(genesis) ==> wall_time < genesis),
            slot matches Some(s) ==> {
                let genesis = self.spec_genesis()->0;
                genesis + s.0 * self.spec_slot_duration() <= wall_time < genesis + (s.0 + 1)
                    * self.spec_slot_duration()
            },
    {
        proof {
            use_type_invariant(self);
        }
        match self.genesis {
            Some(genesis) => {
                if wall_time >= genesis {
                    let since_genesis: u64 = wall_time - genesis;
                    let number: u64 = since_genesis / self.slot_duration;
                    proof {
                        lemma_slot_spans(since_genesis as int, self.slot_duration as int);
                    }
                    Some(Slot(number))
                } else {
                    None
                }
            },
            None => None,
        }
    }

    /// The time left at `wall_time` until the next slot starts, or `None` if
    /// genesis is not known.
    ///
    /// Before genesis the next slot is slot 0. From genesis on it is the slot
    /// after the one at `wall_time`, and the time left is never zero.
    pub fn duration_to_next_slot(&self, wall_time: u64) -> (duration: Option<u64>)
        ensures
            duration == self.until_next_slot(wall_time),
            duration is None <==> self.spec_genesis() is None,
            duration matches Some(d) ==> {
                let genesis = self.spec_genesis()->0;
                match self.slot_at(wall_time) {
                    Some(s) => 0 < d <= self.spec_slot_duration() && wall_time + d == genesis + (s.0
                        + 1) * self.spec_slot_duration(),
                    None => wall_time + d == genesis,
                }
            },
    {
        proof {
            use_type_invariant(self);
        }
        match self.genesis {
            Some(genesis) => {
                if wall_time >= genesis {
                    let since_genesis: u64 = wall_time - genesis;
                    let into_slot: u64 = since_genesis % self.slot_duration;
                    proof {
                        lemma_slot_spans(since_genesis as int, self.slot_duration as int);
                        let number = since_genesis as int / self.slot_duration as int;
                        assert(self.slot_at(wall_time) == Some(Slot(number as u64)));
                        assert((number + 1) * self.slot_duration == number * self.slot_duration
                            + self.slot_duration) by (nonlinear_arith);
                    }
                    Some(self.slot_duration - into_slot)
                } else {
                    Some(genesis - wall_time)
                }
            },
            None => None,
        }
    }
}

/// A time `since` genesis lies in the span of slot `since / duration`: at
/// `since % duration` after its start and before its end.
pub proof fn lemma_slot_spans(since: int, duration: int)
    requires
        0 <= since,
        0 < duration,
    ensures
        0 <= since / duration <= since,
        0 <= since % duration < duration,
        (since / duration) * duration + since % duration == since,
        (since / duration) * duration <= since < (since / duration + 1) * duration,
{
    lemma_fundamental_div_mod(since, duration);
    lemma_mod_bound(since, duration);
    let q = since / duration;
    assert(duration * q == q * duration) by (nonlinear_arith);
    assert((q + 1) * duration == q * duration + duration) by (nonlinear_arith);
    assert(0 <= q) by (nonlinear_arith)
        requires
            q * duration + since % duration == since,
            0 <= since % duration < duration,
            0 <= since,
            0 < duration,
    ;
    assert(q <= since) by (nonlinear_arith)
        requires
            q * duration + since % duration == since,
            0 <= since % duration,
            0 <= q,
            1 <= duration,
    ;
}

/// Time does not run backwards through the slots: a later time is in the same
/// slot or a later one, and once a time has a slot every later time has one.
pub proof fn lemma_slots_follow_time(clock: Clock, earlier: u64, later: u64)
    requires
        clock.spec_slot_duration() > 0,
        earlier <= later,
    ensures
        clock.slot_at(earlier) matches Some(first) ==> (clock.slot_at(later) matches Some(second)
            && first.0 <= second.0),
{
    if let Some(genesis) = clock.spec_genesis() {
        if earlier >= genesis {
            let duration = clock.spec_slot_duration() as int;
            lemma_div_is_ordered(earlier - genesis, later - genesis, duration);
            lemma_slot_spans(earlier - genesis, duration);
            lemma_slot_spans(later - genesis, duration);
        }
    }
}

/// The wait that the clock announces ends at the start of the next slot: when
/// it is over, the clock is in slot 0 if it was before genesis, and in the
/// slot after the one it was in otherwise.
pub proof fn lemma_next_slot_follows(clock: Clock, wall_time: u64)
    requires
        clock.spec_slot_duration() > 0,
        clock.until_next_slot(wall_time) is Some,
        wall_time + clock.until_next_slot(wall_time)->0 <= u64::MAX,
    ensures
        clock.slot_at((wall_time + clock.until_next_slot(wall_time)->0) as u64) == Some(
            match clock.slot_at(wall_time) {
                Some(slot) => Slot((slot.0 + 1) as u64),
                None => Slot(0),
            },
        ),
{
    let genesis = clock.spec_genesis()->0;
    let duration = clock.spec_slot_duration() as int;
    let wait = clock.until_next_slot(wall_time)->0;
    if wall_time >= genesis {
        let since = wall_time - genesis;
        lemma_slot_spans(since, duration);
        let number = since / duration;
        assert((number + 1) * duration == number * duration + duration) by (nonlinear_arith);
        lemma_fundamental_div_mod_converse(since + wait, duration, number + 1, 0);
    } else {
        lemma_fundamental_div_mod_converse(0, duration, 0, 0);
    }
}

} // verus!
