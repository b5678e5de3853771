//! The bridge between a service that must never block and a database client
//! that does.
//!
//! Two things are decided here, and proved. The first is how the connection
//! pool is opened at startup: `initializer` is the state machine that says
//! when to try, how long to pause (`backoff`), and when to give up for good.
//! The second is how work reaches the database afterwards: `pool` holds a
//! mailbox for each of a fixed set of workers, binds every message to one of
//! them, and keeps the order of arrival; `response` says what a worker
//! answers. `config` holds where the database is.
//!
//! What the library decides, its user carries out: connecting, sleeping,
//! reading the clock, running the workers' threads. The modules whose names
//! end in `_laws` state what holds of every run, whatever the user reports.

pub mod backoff;
pub mod config;
pub mod initializer;
pub mod initializer_laws;
pub mod order_laws;
pub mod pool;
pub mod pool_laws;
pub mod response;
