//! The liveness check: whether the process counts as healthy, judged by how
//! long it has been up and how many connections to the platform are live.

use std::convert::Infallible;
use std::sync::atomic::Ordering;
use std::time::{Duration, Instant};
use vstd::prelude::*;
use crate::state::AppState;

verus! {

/// The length of the grace window after the start of the process, in seconds.
pub const GRACE_SECS: u64 = 60;

/// `std::time::Instant::elapsed` reads the monotonic clock and hands back the
/// time that has passed since the instant. The clock moves, so nothing is
/// claimed of the result.
pub assume_specification[ Instant::elapsed ](instant: &Instant) -> Duration;

/// `std::time::Duration::as_secs` gives the whole seconds of a duration.
/// Nothing else is read out of a duration here, so nothing is claimed of the
/// result.
pub assume_specification[ Duration::as_secs ](duration: &Duration) -> u64;

/// What the liveness endpoint reports.
#[derive(Debug, Clone, Copy, PartialEq, Eq, Structural)]
pub enum HealthStatus {
    /// The process is fit to serve.
    Healthy,
    /// The grace window is not over and no connection to the platform is live.
    NotEnoughServers,
}

/// A process is healthy once its uptime has left the grace window behind, or
/// as soon as one connection is live.
pub open spec fn healthy(uptime_secs: u64, num_connected: u64) -> bool {
    uptime_secs >= GRACE_SECS || num_connected >= 1
}

/// What is reported for a process that has been up for `uptime_secs` and has
/// `num_connected` live connections.
pub fn health_status(uptime_secs: u64, num_connected: u64) -> (status: HealthStatus)
    ensures
        status == if healthy(uptime_secs, num_connected) {
            HealthStatus::Healthy
        } else {
            HealthStatus::NotEnoughServers
        },
{
    if uptime_secs >= GRACE_SECS || num_connected >= 1 {
        HealthStatus::Healthy
    } else {
        HealthStatus::NotEnoughServers
    }
}

impl HealthStatus {
    /// The HTTP status with which the endpoint answers.
    pub open spec fn spec_status_code(self) -> u16 {
        match self {
            HealthStatus::Healthy => 200,
            HealthStatus::NotEnoughServers => 500,
        }
    }

    /// The text with which the endpoint answers.
    pub open spec fn spec_reply(self) -> Seq<char> {
        match self {
            HealthStatus::Healthy => "OK"@,
            HealthStatus::NotEnoughServers => "NOT OK - NOT ENOUGH SERVERS"@,
        }
    }

    /// The HTTP status with which the endpoint answers.
    pub fn status_code(&self) -> (code: u16)
        ensures
            code == self.spec_status_code(),
    {
        match self {
            HealthStatus::Healthy => 200,
            HealthStatus::NotEnoughServers => 500,
        }
    }

    /// The text with which the endpoint answers.
    pub fn reply(&self) -> (text: &'static str)
        ensures
            text@ == self.spec_reply(),
    {
        match self {
            HealthStatus::Healthy => "OK",
            HealthStatus::NotEnoughServers => "NOT OK - NOT ENOUGH SERVERS",
        }
    }
}

/// Collects what a liveness check needs.
#[derive(Debug)]
pub struct HealthcheckBuilder {
    state: Option<AppState>,
}

impl HealthcheckBuilder {
    /// The state that has been given, if any.
    pub closed spec fn given_state(&self) -> Option<AppState> {
        self.state
    }

    /// The state whose clock and counter the check reads.
    pub fn state(self, state: AppState) -> (builder: Self)
        ensures
            builder.given_state() == Some(state),
    {
        HealthcheckBuilder { state: Some(state) }
    }

    /// The liveness check over the state that was given.
    pub fn build(self) -> (built: Result<Healthcheck, Infallible>)
        requires
            self.given_state().is_some(),
        ensures
            built matches Ok(healthcheck) && Some(healthcheck.app_state()) == self.given_state(),
    {
        Ok(Healthcheck { state: self.state.unwrap() })
    }
}

/// The liveness check of one process.
#[derive(Debug)]
pub struct Healthcheck {
    state: AppState,
}

impl Healthcheck {
    /// The state the check reads.
    pub closed spec fn app_state(&self) -> AppState {
        self.state
    }

    /// A builder to which no state has been given yet.
    pub fn builder() -> (builder: HealthcheckBuilder)
        ensures
            builder.given_state().is_none(),
    {
        HealthcheckBuilder { state: None }
    }

    /// Reads the clock and the counter of live connections and reports on
    /// them as [`health_status`] does. Both readings may change from one call
    /// to the next, so the report may too.
    pub fn check(&self) -> (status: HealthStatus) {
        let uptime_secs = self.state.start_time.elapsed().as_secs();
        let num_connected = self.state.num_connected.load(Ordering::Relaxed);
        health_status(uptime_secs, num_connected)
    }
}

} // verus!
