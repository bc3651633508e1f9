//! Generation barrier coordinator: bookkeeping for a system generation counter
//! and the watchers that must catch up with it.

pub mod bus;
pub mod clock;
pub mod coordinator;
pub mod registry;
pub mod trace;
