//! The state the whole process shares: when it started and how many
//! connections to the platform are live.

use std::sync::atomic::AtomicU64;
use std::sync::Arc;
use std::time::Instant;
use vstd::prelude::*;

verus! {

/// `std::time::Instant`, a point on the monotonic clock. A value of it is
/// carried about and handed back to the clock; nothing is read out of it.
#[verifier::external_type_specification]
#[verifier::external_body]
pub struct ExInstant(Instant);

/// `std::time::Instant::now` reads the monotonic clock. No two readings need
/// agree, so nothing is claimed of the result.
pub assume_specification[ Instant::now ]() -> Instant;

/// The state of the process, shared by the bot and the liveness endpoint.
#[derive(Debug)]
pub struct AppState {
    /// When the process started.
    pub start_time: Instant,
    /// The number of live connections to the platform.
    pub num_connected: Arc<AtomicU64>,
}

impl AppState {
    /// The state of a process that starts now, with its own counter of live
    /// connections.
    pub fn new() -> AppState {
        AppState { start_time: Instant::now(), num_connected: Arc::new(AtomicU64::new(0)) }
    }
}

impl Clone for AppState {
    /// Another handle on the same state: it has the same start and shares the
    /// counter of live connections.
    fn clone(&self) -> (copy: Self)
        ensures
            copy == *self,
    {
        AppState { start_time: self.start_time, num_connected: self.num_connected.clone() }
    }
}

} // verus!
