//! Event-sourced back-office domain library.
//!
//! Write-side state is an append-only sequence of domain events per
//! aggregate; query-side state is a set of denormalized documents derived
//! from the same events. The crate provides:
//!
//! * primitive value objects (`money`, `time`),
//! * per-aggregate state machines that validate commands, emit events and
//!   reconstitute state from replay (`extra_service`, `media`, `prostitute`,
//!   `schedule`, `reservation`, `service`),
//! * the event envelope codec that maps events to log records and back
//!   (`codec`),
//! * the pure planning and folding halves of the event-log repositories
//!   (`repository`), and
//! * the projection worker's routing and checkpoint rules (`projection`).
//!
//! I/O against the event-log database and the search index stays outside
//! this crate; callers hand records in and carry plans out as plain values.

pub mod config;
pub mod queue;
pub mod text;
pub mod money;
pub mod time;
pub mod extra_service;
pub mod media;
pub mod prostitute;
pub mod schedule;
pub mod customer;
pub mod reservation;
pub mod service;
pub mod codec;
pub mod repository;
pub mod projection;
