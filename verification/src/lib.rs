//! In-memory seat reservation core for a small event-ticketing backend.
//!
//! The heart of the library is the reservation registry: a mapping from a
//! `(event id, seat id)` pair to a reserved/free status, together with the
//! atomic check-and-set operation that issues reservations. The registry is
//! meant to live behind a single mutual-exclusion lock for the lifetime of
//! the process; every operation here is a plain, bounded computation so that
//! nothing slow ever runs inside the critical section.
//!
//! [`registry`] holds the shared seat table, [`service`] the reserve
//! operation, [`laws`] the proofs about runs of reserve calls, and
//! [`handler`] and [`ticket`] the decision logic of the HTTP endpoints.

pub mod handler;
pub mod laws;
pub mod registry;
pub mod service;
pub mod ticket;
