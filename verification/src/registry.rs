//! The reservation registry: which seats of which events are reserved.
//!
//! A seat is identified by a [`SeatKey`], the pair of an event identifier and
//! a seat identifier. The registry holds the reserved/free status of every
//! seat; a key that was never inserted counts as free. No operation ever
//! clears a reservation: once a key is reserved it stays reserved for the
//! lifetime of the registry.
//!
//! The registry's abstract state, its view, is the set of reserved seat keys.

use vstd::prelude::*;
use vstd::assert_sets_equal;
use std::collections::HashMap;

verus! {

broadcast use vstd::std_specs::hash::group_hash_axioms;

/// Identifies one seat within one event. Any pair of unsigned integers is a
/// valid key; no range validation is performed.
#[derive(Clone, Copy, Debug, PartialEq, Eq, Structural)]
pub struct SeatKey {
    pub event_id: u64,
    pub seat_id: u64,
}

/// The table packs both halves of a key into one 128-bit word: the event
/// identifier in the high 64 bits, the seat identifier in the low 64 bits.
pub closed spec fn key_code(key: SeatKey) -> u128 {
    ((key.event_id as u128) << 64) | (key.seat_id as u128)
}

/// Distinct seat keys pack to distinct codes, so the table never conflates
/// two seats.
proof fn lemma_key_code_injective(a: SeatKey, b: SeatKey)
    ensures
        key_code(a) == key_code(b) ==> a == b,
{
    let (ae, asid) = (a.event_id, a.seat_id);
    let (be, bsid) = (b.event_id, b.seat_id);
    assert((((ae as u128) << 64) | (asid as u128)) == (((be as u128) << 64) | (bsid as u128))
        ==> ae == be && asid == bsid) by (bit_vector);
}

fn encode(key: SeatKey) -> (code: u128)
    ensures
        code == key_code(key),
{
    ((key.event_id as u128) << 64) | (key.seat_id as u128)
}

/// The shared mapping from seat keys to reserved/free status. It is created
/// empty at process start and is meant to be shared behind one
/// mutual-exclusion lock; every method is a bounded in-memory step, so
/// nothing slow ever runs while the lock is held.
pub struct ReservationRegistry {
    table: HashMap<u128, bool>,
}

impl View for ReservationRegistry {
    type V = Set<SeatKey>;

    /// The set of seat keys that are currently reserved. A key absent from
    /// the table is free, as is one explicitly marked free.
    closed spec fn view(&self) -> Set<SeatKey> {
        Set::new(|key: SeatKey| self.table@.contains_key(key_code(key)) && self.table@[key_code(key)])
    }
}

impl ReservationRegistry {
    /// A fresh registry with every seat free.
    pub fn new() -> (registry: Self)
        ensures
            registry@ == Set::<SeatKey>::empty(),
    {
        let registry = ReservationRegistry { table: HashMap::new() };
        proof {
            assert_sets_equal!(registry@ == Set::<SeatKey>::empty());
        }
        registry
    }

    /// The current status of one seat: `true` means reserved, `false` free.
    pub fn status_of(&self, key: SeatKey) -> (reserved: bool)
        ensures
            reserved == self@.contains(key),
    {
        let code = encode(key);
        match self.table.get(&code) {
            Some(status) => *status,
            None => false,
        }
    }

    /// Marks one seat reserved. Every other seat keeps its status.
    pub fn set_reserved(&mut self, key: SeatKey)
        ensures
            final(self)@ == old(self)@.insert(key),
    {
        let code = encode(key);
        self.table.insert(code, true);
        proof {
            assert_sets_equal!(self@ == old(self)@.insert(key), other => {
                lemma_key_code_injective(other, key);
            });
        }
    }
}

} // verus!
