//! The poll loop: what the watcher does, state by state, cycle after cycle.

use crate::config::Config;
use vstd::prelude::*;

verus! {

/// Where the watcher stands within a cycle.
#[derive(Debug, Clone, Copy, PartialEq, Eq, Structural)]
pub enum PollState {
    /// Between two cycles.
    Idle,
    /// Reading the watch lists and asking the registries.
    Polling,
    /// Running the detector and announcing what is new.
    Dispatching,
    /// Waiting for the next cycle.
    Sleeping,
}

/// What there is to do in a state.
#[derive(Debug, Clone, Copy, PartialEq, Eq, Structural)]
pub enum PollTask {
    /// Start the next cycle.
    Begin,
    /// Read the watch lists and fetch the current release of every entity;
    /// an entity whose fetch fails is skipped for this cycle.
    FetchReleases,
    /// Feed every fetched release to the detector and announce the new ones.
    Notify,
    /// Wait for so many seconds.
    Sleep(u64),
}

/// The state that follows `state`. The states form one cycle; none is final.
pub open spec fn following(state: PollState) -> PollState {
    match state {
        PollState::Idle => PollState::Polling,
        PollState::Polling => PollState::Dispatching,
        PollState::Dispatching => PollState::Sleeping,
        PollState::Sleeping => PollState::Idle,
    }
}

/// The time to sleep, in seconds, for a configured interval. A negative
/// interval gives none.
pub open spec fn pause(timeout: i64) -> Option<u64> {
    if timeout >= 0 {
        Some(timeout as u64)
    } else {
        None
    }
}

/// The task of `state` where the pause between two cycles is `seconds`.
pub open spec fn task_of(state: PollState, seconds: u64) -> PollTask {
    match state {
        PollState::Idle => PollTask::Begin,
        PollState::Polling => PollTask::FetchReleases,
        PollState::Dispatching => PollTask::Notify,
        PollState::Sleeping => PollTask::Sleep(seconds),
    }
}

/// The time to sleep between two cycles, in seconds.
pub fn sleep_seconds(config: &Config) -> (seconds: Option<u64>)
    ensures
        seconds == pause(config.timeout),
{
    if config.timeout >= 0 {
        Some(config.timeout as u64)
    } else {
        None
    }
}

impl PollState {
    /// The state in which the watcher starts.
    pub fn start() -> (state: PollState)
        ensures
            state == PollState::Idle,
    {
        PollState::Idle
    }

    /// The state to enter once the task of this one is done.
    pub fn next(self) -> (state: PollState)
        ensures
            state == following(self),
    {
        match self {
            PollState::Idle => PollState::Polling,
            PollState::Polling => PollState::Dispatching,
            PollState::Dispatching => PollState::Sleeping,
            PollState::Sleeping => PollState::Idle,
        }
    }

    /// What there is to do in this state, with `seconds` between two cycles.
    pub fn task(self, seconds: u64) -> (task: PollTask)
        ensures
            task == task_of(self, seconds),
    {
        match self {
            PollState::Idle => PollTask::Begin,
            PollState::Polling => PollTask::FetchReleases,
            PollState::Dispatching => PollTask::Notify,
            PollState::Sleeping => PollTask::Sleep(seconds),
        }
    }
}

/// The loop never ends and never gets stuck: every state leads to another
/// one, and four steps lead back to where they began, through every state.
pub proof fn lemma_cycle(state: PollState)
    ensures
        following(state) != state,
        following(following(following(following(state)))) == state,
        following(PollState::Idle) == PollState::Polling,
        following(PollState::Polling) == PollState::Dispatching,
        following(PollState::Dispatching) == PollState::Sleeping,
        following(PollState::Sleeping) == PollState::Idle,
{
}

} // verus!
