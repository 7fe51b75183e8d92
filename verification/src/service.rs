//! The reservation service: the atomic check-and-set that issues a seat.
//!
//! A single `reserve` call looks the seat up, and either reports it already
//! taken or marks it reserved and hands out a fresh reservation identifier.
//! The caller must hold exclusive access to the registry for the whole call,
//! so that the check and the write are one indivisible critical section; the
//! lock then totally orders concurrent callers, and the sequential laws
//! proved here speak for every such ordered run.

use vstd::prelude::*;
use crate::registry::{ReservationRegistry, SeatKey};

verus! {

/// What one reserve call came to: the seat was granted, with the identifier
/// issued for it, or it was already taken.
#[derive(Clone, Copy, Debug, PartialEq, Eq, Structural)]
pub enum ReserveOutcome {
    Reserved { reservation_id: u64 },
    AlreadyTaken,
}

impl ReserveOutcome {
    /// The HTTP status the backend answers with: "created" for a granted
    /// seat, "not found" for a taken one.
    pub fn status_code(&self) -> (code: u16)
        ensures
            self is Reserved ==> code == 201,
            self is AlreadyTaken ==> code == 404,
    {
        match self {
            ReserveOutcome::Reserved { .. } => 201,
            ReserveOutcome::AlreadyTaken => 404,
        }
    }
}

/// Whether a reserve call on `key` succeeds against the given registry
/// state: exactly when the seat is still free.
pub open spec fn reserve_succeeds(reserved: Set<SeatKey>, key: SeatKey) -> bool {
    !reserved.contains(key)
}

/// The registry state after a reserve call on `key`: the seat is reserved,
/// whether this call granted it or an earlier one did.
pub open spec fn reserve_result(reserved: Set<SeatKey>, key: SeatKey) -> Set<SeatKey> {
    reserved.insert(key)
}

/// Checks and sets one seat with a caller-supplied identifier: the whole
/// reservation logic apart from drawing the identifier. Grants the seat
/// exactly when it was free, and never touches any other seat.
pub fn try_reserve(registry: &mut ReservationRegistry, key: SeatKey, reservation_id: u64) -> (outcome:
    ReserveOutcome)
    ensures
        outcome is Reserved <==> reserve_succeeds(old(registry)@, key),
        outcome is Reserved ==> outcome == (ReserveOutcome::Reserved { reservation_id }),
        old(registry)@.contains(key) ==> final(registry)@ == old(registry)@,
        !old(registry)@.contains(key) ==> final(registry)@ == reserve_result(old(registry)@, key),
        final(registry)@.contains(key),
        forall|other: SeatKey|
            other != key ==> final(registry)@.contains(other) == old(registry)@.contains(other),
{
    if registry.status_of(key) {
        ReserveOutcome::AlreadyTaken
    } else {
        registry.set_reserved(key);
        ReserveOutcome::Reserved { reservation_id }
    }
}

/// Relies on rand::random: draws a value of the requested type from the
/// thread-local generator. The value is random; nothing is promised of it.
#[verifier::external_body]
fn fresh_reservation_id() -> u64 {
    rand::random::<u64>()
}

/// The externally visible reservation operation: checks the seat and, if it
/// is free, marks it reserved and issues a best-effort-unique random
/// identifier. Identifiers are not guaranteed collision-free.
pub fn reserve(registry: &mut ReservationRegistry, key: SeatKey) -> (outcome: ReserveOutcome)
    ensures
        outcome is Reserved <==> reserve_succeeds(old(registry)@, key),
        old(registry)@.contains(key) ==> final(registry)@ == old(registry)@,
        !old(registry)@.contains(key) ==> final(registry)@ == reserve_result(old(registry)@, key),
        final(registry)@.contains(key),
        forall|other: SeatKey|
            other != key ==> final(registry)@.contains(other) == old(registry)@.contains(other),
{
    let reservation_id = fresh_reservation_id();
    try_reserve(registry, key, reservation_id)
}

} // verus!
