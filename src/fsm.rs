//! Per-deployment finite state machine. Pure: no I/O.

use vstd::prelude::*;

verus! {

/// Settings for deployment operations (durations in seconds).
#[derive(Debug, Clone)]
pub struct FsmSettings {
    /// Timeout for deployment operations.
    pub deployment_timeout_secs: u64,
    /// Retry count for failed deployments.
    pub retry_count: u32,
    /// Delay between retries.
    pub retry_delay_secs: u64,
}

impl Default for FsmSettings {
    fn default() -> (r: Self)
        ensures
            r.deployment_timeout_secs == 60,
            r.retry_count == 3,
            r.retry_delay_secs == 5,
    {
        FsmSettings { deployment_timeout_secs: 60, retry_count: 3, retry_delay_secs: 5 }
    }
}

/// Deployment state.
#[derive(Debug, Clone, Copy, PartialEq, Eq, Structural)]
pub enum DeploymentState {
    Pending,
    Deploying,
    Deployed,
    Running,
    Paused,
    Failed,
    Stopped,
}

/// Deployment event.
#[derive(Debug, Clone)]
pub enum DeploymentEvent {
    Deploy,
    DeploySuccess,
    DeployFailed(String),
    Start,
    Pause,
    Resume,
    Stop,
    Complete,
    Error(String),
    Reset,
}

/// Mathematical state of a deployment machine.
pub struct FsmModel {
    pub state: DeploymentState,
    pub error: Option<Seq<char>>,
    pub retry_count: u32,
}

/// The machine a fresh deployment starts in.
pub open spec fn initial_model() -> FsmModel {
    FsmModel { state: DeploymentState::Pending, error: None, retry_count: 0 }
}

/// `retry_count + 1`, held at the largest `u32`.
pub open spec fn bumped(n: u32) -> u32 {
    if n == u32::MAX { n } else { (n + 1) as u32 }
}

/// The transition table: `Some(next)` for a legal transition, `None` otherwise.
pub open spec fn step(m: FsmModel, e: DeploymentEvent) -> Option<FsmModel> {
    match (m.state, e) {
        (DeploymentState::Pending, DeploymentEvent::Deploy) =>
            Some(FsmModel { state: DeploymentState::Deploying, error: None, ..m }),
        (DeploymentState::Deploying, DeploymentEvent::DeploySuccess) =>
            Some(FsmModel { state: DeploymentState::Deployed, retry_count: 0, ..m }),
        (DeploymentState::Deploying, DeploymentEvent::DeployFailed(err)) => Some(
            FsmModel {
                state: DeploymentState::Failed,
                error: Some(err@),
                retry_count: bumped(m.retry_count),
            },
        ),
        (DeploymentState::Deployed, DeploymentEvent::Start) =>
            Some(FsmModel { state: DeploymentState::Running, ..m }),
        (DeploymentState::Deployed, DeploymentEvent::Deploy) =>
            Some(FsmModel { state: DeploymentState::Deploying, ..m }),
        (DeploymentState::Running, DeploymentEvent::Pause) =>
            Some(FsmModel { state: DeploymentState::Paused, ..m }),
        (DeploymentState::Running, DeploymentEvent::Stop) =>
            Some(FsmModel { state: DeploymentState::Stopped, ..m }),
        (DeploymentState::Running, DeploymentEvent::Complete) =>
            Some(FsmModel { state: DeploymentState::Deployed, ..m }),
        (DeploymentState::Running, DeploymentEvent::Error(err)) =>
            Some(FsmModel { state: DeploymentState::Failed, error: Some(err@), ..m }),
        (DeploymentState::Paused, DeploymentEvent::Resume) =>
            Some(FsmModel { state: DeploymentState::Running, ..m }),
        (DeploymentState::Paused, DeploymentEvent::Stop) =>
            Some(FsmModel { state: DeploymentState::Stopped, ..m }),
        (DeploymentState::Failed, DeploymentEvent::Deploy) =>
            Some(FsmModel { state: DeploymentState::Deploying, error: None, ..m }),
        (DeploymentState::Failed, DeploymentEvent::Reset) =>
            Some(FsmModel { state: DeploymentState::Pending, error: None, retry_count: 0 }),
        (DeploymentState::Stopped, DeploymentEvent::Start) =>
            Some(FsmModel { state: DeploymentState::Running, ..m }),
        (DeploymentState::Stopped, DeploymentEvent::Deploy) =>
            Some(FsmModel { state: DeploymentState::Deploying, ..m }),
        (DeploymentState::Stopped, DeploymentEvent::Reset) =>
            Some(FsmModel { state: DeploymentState::Pending, error: None, ..m }),
        _ => None,
    }
}

/// The machine after feeding it `events` in order; a rejected event leaves it as it was.
pub open spec fn run(m: FsmModel, events: Seq<DeploymentEvent>) -> FsmModel
    decreases events.len(),
{
    if events.len() == 0 {
        m
    } else {
        let before = run(m, events.drop_last());
        match step(before, events.last()) {
            Some(next) => next,
            None => before,
        }
    }
}

/// How many `DeployFailed` events a sequence holds.
pub open spec fn failures_seen(events: Seq<DeploymentEvent>) -> nat
    decreases events.len(),
{
    if events.len() == 0 {
        0
    } else {
        failures_seen(events.drop_last()) + if events.last() is DeployFailed {
            1nat
        } else {
            0nat
        }
    }
}

/// Deployment FSM.
#[derive(Debug, Clone)]
pub struct DeploymentFsm {
    state: DeploymentState,
    error: Option<String>,
    retry_count: u32,
}

impl View for DeploymentFsm {
    type V = FsmModel;

    closed spec fn view(&self) -> FsmModel {
        FsmModel {
            state: self.state,
            error: match self.error {
                Some(s) => Some(s@),
                None => None,
            },
            retry_count: self.retry_count,
        }
    }
}

fn state_name(s: DeploymentState) -> (r: &'static str) {
    match s {
        DeploymentState::Pending => "Pending",
        DeploymentState::Deploying => "Deploying",
        DeploymentState::Deployed => "Deployed",
        DeploymentState::Running => "Running",
        DeploymentState::Paused => "Paused",
        DeploymentState::Failed => "Failed",
        DeploymentState::Stopped => "Stopped",
    }
}

fn event_name(e: &DeploymentEvent) -> (r: &'static str) {
    match e {
        DeploymentEvent::Deploy => "Deploy",
        DeploymentEvent::DeploySuccess => "DeploySuccess",
        DeploymentEvent::DeployFailed(_) => "DeployFailed",
        DeploymentEvent::Start => "Start",
        DeploymentEvent::Pause => "Pause",
        DeploymentEvent::Resume => "Resume",
        DeploymentEvent::Stop => "Stop",
        DeploymentEvent::Complete => "Complete",
        DeploymentEvent::Error(_) => "Error",
        DeploymentEvent::Reset => "Reset",
    }
}

impl DeploymentFsm {
    /// A machine in the `Pending` state, with no error and no retries.
    pub fn new() -> (r: Self)
        ensures
            r@ == initial_model(),
    {
        DeploymentFsm { state: DeploymentState::Pending, error: None, retry_count: 0 }
    }

    /// Current state.
    pub fn state(&self) -> (r: &DeploymentState)
        ensures
            *r == self@.state,
    {
        &self.state
    }

    /// Error message of the last failure, if any.
    pub fn error(&self) -> (r: Option<&str>)
        ensures
            match r {
                Some(s) => self@.error == Some(s@),
                None => self@.error is None,
            },
    {
        match &self.error {
            Some(e) => Some(e.as_str()),
            None => None,
        }
    }

    /// Number of failed deployments since the last success or reset.
    pub fn retry_count(&self) -> (r: u32)
        ensures
            r == self@.retry_count,
    {
        self.retry_count
    }

    /// Processes one event: a legal transition moves the machine as the table says,
    /// any other pair is rejected and leaves it unchanged.
    pub fn process(&mut self, event: DeploymentEvent) -> (r: Result<(), String>)
        ensures
            match step(old(self)@, event) {
                Some(next) => r is Ok && final(self)@ == next,
                None => r is Err && final(self)@ == old(self)@,
            },
    {
        let state = self.state;
        let new_state = match (state, &event) {
            (DeploymentState::Pending, DeploymentEvent::Deploy) => {
                self.error = None;
                DeploymentState::Deploying
            },
            (DeploymentState::Deploying, DeploymentEvent::DeploySuccess) => {
                self.retry_count = 0;
                DeploymentState::Deployed
            },
            (DeploymentState::Deploying, DeploymentEvent::DeployFailed(err)) => {
                self.error = Some(err.clone());
                self.retry_count = self.retry_count.saturating_add(1);
                DeploymentState::Failed
            },
            (DeploymentState::Deployed, DeploymentEvent::Start) => DeploymentState::Running,
            (DeploymentState::Deployed, DeploymentEvent::Deploy) => DeploymentState::Deploying,
            (DeploymentState::Running, DeploymentEvent::Pause) => DeploymentState::Paused,
            (DeploymentState::Running, DeploymentEvent::Stop) => DeploymentState::Stopped,
            (DeploymentState::Running, DeploymentEvent::Complete) => DeploymentState::Deployed,
            (DeploymentState::Running, DeploymentEvent::Error(err)) => {
                self.error = Some(err.clone());
                DeploymentState::Failed
            },
            (DeploymentState::Paused, DeploymentEvent::Resume) => DeploymentState::Running,
            (DeploymentState::Paused, DeploymentEvent::Stop) => DeploymentState::Stopped,
            (DeploymentState::Failed, DeploymentEvent::Deploy) => {
                self.error = None;
                DeploymentState::Deploying
            },
            (DeploymentState::Failed, DeploymentEvent::Reset) => {
                self.error = None;
                self.retry_count = 0;
                DeploymentState::Pending
            },
            (DeploymentState::Stopped, DeploymentEvent::Start) => DeploymentState::Running,
            (DeploymentState::Stopped, DeploymentEvent::Deploy) => DeploymentState::Deploying,
            (DeploymentState::Stopped, DeploymentEvent::Reset) => {
                self.error = None;
                DeploymentState::Pending
            },
            _ => {
                let msg = String::from_str("Invalid transition: ");
                let msg = msg.concat(state_name(state));
                let msg = msg.concat(" -> ");
                let msg = msg.concat(event_name(&event));
                return Err(msg);
            },
        };
        self.state = new_state;
        Ok(())
    }

    /// True when the machine has failed and fewer than `max_retries` failures were counted.
    pub fn can_retry(&self, max_retries: u32) -> (r: bool)
        ensures
            r == (self@.state == DeploymentState::Failed && self@.retry_count < max_retries),
    {
        self.state == DeploymentState::Failed && self.retry_count < max_retries
    }
}

impl Default for DeploymentFsm {
    fn default() -> (r: Self)
        ensures
            r@ == initial_model(),
    {
        Self::new()
    }
}

/// Along any sequence of events, the retry counter grows by at most one per
/// `DeployFailed` event.
pub proof fn lemma_retry_count_bounded_by_failures(m: FsmModel, events: Seq<DeploymentEvent>)
    ensures
        run(m, events).retry_count <= m.retry_count + failures_seen(events),
    decreases events.len(),
{
    if events.len() > 0 {
        lemma_retry_count_bounded_by_failures(m, events.drop_last());
    }
}

/// From the initial state, no reachable machine has counted more retries than
/// the `DeployFailed` events it has seen.
pub proof fn lemma_reachable_retry_count(events: Seq<DeploymentEvent>)
    ensures
        run(initial_model(), events).retry_count <= failures_seen(events),
{
    lemma_retry_count_bounded_by_failures(initial_model(), events);
}

} // verus!
