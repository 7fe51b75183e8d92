//! The laws of the reservation service.
//!
//! Concurrent reserve calls are serialized by the registry's lock, so any
//! group of callers racing for one seat executes as some totally ordered
//! run of sequential calls. The run model below folds such a run over the
//! abstract registry state, and the proofs state what every run satisfies:
//! exactly one winner per seat, conflicts forever after, no effect on other
//! seats, and no reservation ever silently released.

use vstd::prelude::*;
use crate::registry::SeatKey;
use crate::service::{reserve_result, reserve_succeeds};

verus! {

/// The registry state after `n` ordered reserve calls on `key`.
pub open spec fn run_result(reserved: Set<SeatKey>, key: SeatKey, n: nat) -> Set<SeatKey>
    decreases n,
{
    if n == 0 {
        reserved
    } else {
        run_result(reserve_result(reserved, key), key, (n - 1) as nat)
    }
}

/// How many of `n` ordered reserve calls on `key` succeed.
pub open spec fn run_successes(reserved: Set<SeatKey>, key: SeatKey, n: nat) -> nat
    decreases n,
{
    if n == 0 {
        0
    } else {
        (if reserve_succeeds(reserved, key) {
            1nat
        } else {
            0nat
        }) + run_successes(reserve_result(reserved, key), key, (n - 1) as nat)
    }
}

/// Idempotent failure: on a seat that is already reserved, every further
/// reserve call returns a conflict, indefinitely, and none of them changes
/// the registry.
pub proof fn lemma_idempotent_failure(reserved: Set<SeatKey>, key: SeatKey, n: nat)
    requires
        reserved.contains(key),
    ensures
        run_successes(reserved, key, n) == 0,
        run_result(reserved, key, n) == reserved,
    decreases n,
{
    assert(reserve_result(reserved, key) =~= reserved);
    if n > 0 {
        lemma_idempotent_failure(reserve_result(reserved, key), key, (n - 1) as nat);
    }
}

/// Mutual exclusivity: when a seat starts free, a run of any number of
/// reserve calls on it grants it exactly once — never zero times, never
/// more than once. The remaining calls all report a conflict.
pub proof fn lemma_mutual_exclusion(reserved: Set<SeatKey>, key: SeatKey, n: nat)
    requires
        n >= 1,
        !reserved.contains(key),
    ensures
        run_successes(reserved, key, n) == 1,
{
    lemma_idempotent_failure(reserve_result(reserved, key), key, (n - 1) as nat);
}

/// Independence: a reserve call on one seat neither changes the status of
/// any other seat nor whether a reserve call on that other seat would
/// succeed.
pub proof fn lemma_independence(reserved: Set<SeatKey>, key: SeatKey, other: SeatKey)
    requires
        other != key,
    ensures
        reserve_result(reserved, key).contains(other) == reserved.contains(other),
        reserve_succeeds(reserve_result(reserved, key), other) == reserve_succeeds(
            reserved,
            other,
        ),
{
}

/// Fresh-key default: a seat key never seen before is free, and a reserve
/// call on it succeeds.
pub proof fn lemma_fresh_key_succeeds(reserved: Set<SeatKey>, key: SeatKey)
    requires
        !reserved.contains(key),
    ensures
        reserve_succeeds(reserved, key),
        run_successes(reserved, key, 1) == 1,
{
    lemma_mutual_exclusion(reserved, key, 1);
}

/// No silent release: a seat that is reserved stays reserved through any
/// further run of reserve calls; no code path in this subsystem frees it.
pub proof fn lemma_reserved_keys_persist(reserved: Set<SeatKey>, key: SeatKey, n: nat)
    ensures
        forall|k: SeatKey| reserved.contains(k) ==> run_result(reserved, key, n).contains(k),
    decreases n,
{
    if n > 0 {
        lemma_reserved_keys_persist(reserve_result(reserved, key), key, (n - 1) as nat);
        assert forall|k: SeatKey|
            reserved.contains(k) implies run_result(reserved, key, n).contains(k) by {
            assert(reserve_result(reserved, key).contains(k));
        };
    }
}

} // verus!
