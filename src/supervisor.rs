//! Lifecycle bookkeeping of the supervisor: activity tracking, the run-phase
//! gates, set-once worker handle slots, the fixed join order and the shutdown
//! deadline. The waiting itself is done by the caller.

use vstd::prelude::*;
use crate::error::AgentError;
use crate::text::owned;

verus! {

/// Time of the last served request, Unix seconds.
#[derive(Debug)]
pub struct ActivityTracker {
    last_touched: u64,
}

impl View for ActivityTracker {
    type V = u64;

    closed spec fn view(&self) -> u64 {
        self.last_touched
    }
}

impl ActivityTracker {
    /// A tracker last touched at `now`.
    pub fn new(now: u64) -> (r: Self)
        ensures
            r@ == now,
    {
        ActivityTracker { last_touched: now }
    }

    /// Records activity at `now`.
    pub fn touch(&mut self, now: u64)
        ensures
            final(self)@ == now,
    {
        self.last_touched = now;
    }

    /// Time of the last activity.
    pub fn last_touched(&self) -> (r: u64)
        ensures
            r == self@,
    {
        self.last_touched
    }

    /// True when more than `idle_timeout_secs` have passed since the last
    /// activity; a clock that reads earlier than the last activity never expires.
    pub fn idle_expired(&self, now: u64, idle_timeout_secs: u64) -> (r: bool)
        ensures
            r == (now >= self@ && now - self@ > idle_timeout_secs),
    {
        now >= self.last_touched && now - self.last_touched > idle_timeout_secs
    }
}

/// Why the run phase ends.
#[derive(Debug, Clone, Copy, PartialEq, Eq, Structural)]
pub enum RunExit {
    Continue,
    ShutdownSignal,
    IdleTimeout,
    MaxRuntime,
}

/// Run-phase gate: a shutdown signal always ends the run; a non-persistent agent
/// also stops when idle past `idle_timeout_secs` or after `max_runtime_secs`
/// since `started_at`.
pub fn run_gate(
    signal: bool,
    is_persistent: bool,
    tracker: &ActivityTracker,
    started_at: u64,
    now: u64,
    idle_timeout_secs: u64,
    max_runtime_secs: u64,
) -> (r: RunExit)
    ensures
        signal ==> r == RunExit::ShutdownSignal,
        !signal && is_persistent ==> r == RunExit::Continue,
        !signal && !is_persistent ==> r == (if now >= tracker@ && now - tracker@ > idle_timeout_secs {
            RunExit::IdleTimeout
        } else if now >= started_at && now - started_at >= max_runtime_secs {
            RunExit::MaxRuntime
        } else {
            RunExit::Continue
        }),
{
    if signal {
        return RunExit::ShutdownSignal;
    }
    if is_persistent {
        return RunExit::Continue;
    }
    if tracker.idle_expired(now, idle_timeout_secs) {
        RunExit::IdleTimeout
    } else if now >= started_at && now - started_at >= max_runtime_secs {
        RunExit::MaxRuntime
    } else {
        RunExit::Continue
    }
}

/// The supervised workers, in join order.
#[derive(Debug, Clone, Copy, PartialEq, Eq, Structural)]
pub enum WorkerKind {
    TokenRefresh,
    Poller,
    Mqtt,
    Relay,
    Deployer,
    SocketServer,
    AppState,
}

/// Position of a worker in the join order.
pub open spec fn join_rank(k: WorkerKind) -> int {
    match k {
        WorkerKind::TokenRefresh => 0,
        WorkerKind::Poller => 1,
        WorkerKind::Mqtt => 2,
        WorkerKind::Relay => 3,
        WorkerKind::Deployer => 4,
        WorkerKind::SocketServer => 5,
        WorkerKind::AppState => 6,
    }
}

fn rank(k: WorkerKind) -> (r: usize)
    ensures
        r == join_rank(k),
{
    match k {
        WorkerKind::TokenRefresh => 0,
        WorkerKind::Poller => 1,
        WorkerKind::Mqtt => 2,
        WorkerKind::Relay => 3,
        WorkerKind::Deployer => 4,
        WorkerKind::SocketServer => 5,
        WorkerKind::AppState => 6,
    }
}

/// Number of worker slots.
pub const SLOT_COUNT: usize = 7;

/// The handles that `slots` holds, in slot order.
pub open spec fn in_join_order<H>(slots: Seq<Option<H>>) -> Seq<H>
    decreases slots.len(),
{
    if slots.len() == 0 {
        Seq::empty()
    } else {
        let rest = in_join_order(slots.drop_last());
        match slots.last() {
            Some(h) => rest.push(h),
            None => rest,
        }
    }
}

/// Set-once slots for the handles of the launched workers.
pub struct ShutdownManager<H> {
    slots: Vec<Option<H>>,
}

impl<H> View for ShutdownManager<H> {
    type V = Seq<Option<H>>;

    closed spec fn view(&self) -> Seq<Option<H>> {
        self.slots@
    }
}

impl<H> ShutdownManager<H> {
    pub closed spec fn wf(&self) -> bool {
        self.slots@.len() == SLOT_COUNT
    }

    /// All slots empty.
    pub fn new() -> (r: Self)
        ensures
            r.wf(),
            r@ == Seq::new(SLOT_COUNT as nat, |i: int| None::<H>),
    {
        let mut slots: Vec<Option<H>> = Vec::new();
        let mut i: usize = 0;
        while i < SLOT_COUNT
            invariant
                i <= SLOT_COUNT,
                slots@ == Seq::new(i as nat, |j: int| None::<H>),
            decreases SLOT_COUNT - i,
        {
            slots.push(None);
            i = i + 1;
            assert(slots@ =~= Seq::new(i as nat, |j: int| None::<H>));
        }
        ShutdownManager { slots }
    }

    /// Stores the handle of `kind`. A slot is set at most once: a second
    /// registration is refused with a shutdown error and changes nothing.
    pub fn register(&mut self, kind: WorkerKind, handle: H) -> (r: Result<(), AgentError>)
        requires
            old(self).wf(),
        ensures
            final(self).wf(),
            old(self)@[join_rank(kind)] is Some ==> r is Err && r->Err_0 is ShutdownError
                && final(self)@ == old(self)@,
            old(self)@[join_rank(kind)] is None ==> r is Ok && final(self)@ == old(self)@.update(
                join_rank(kind),
                Some(handle),
            ),
    {
        let i = rank(kind);
        if self.slots[i].is_some() {
            return Err(AgentError::ShutdownError(owned("handle already set")));
        }
        self.slots.set(i, Some(handle));
        Ok(())
    }

    /// Registers the token-refresh worker.
    pub fn with_token_refresh_worker_handle(&mut self, handle: H) -> (r: Result<(), AgentError>)
        requires
            old(self).wf(),
        ensures
            final(self).wf(),
            old(self)@[0] is Some ==> r is Err && final(self)@ == old(self)@,
            old(self)@[0] is None ==> r is Ok && final(self)@ == old(self)@.update(0, Some(handle)),
    {
        self.register(WorkerKind::TokenRefresh, handle)
    }

    /// Registers the poller worker.
    pub fn with_poller_worker_handle(&mut self, handle: H) -> (r: Result<(), AgentError>)
        requires
            old(self).wf(),
        ensures
            final(self).wf(),
            old(self)@[1] is Some ==> r is Err && final(self)@ == old(self)@,
            old(self)@[1] is None ==> r is Ok && final(self)@ == old(self)@.update(1, Some(handle)),
    {
        self.register(WorkerKind::Poller, handle)
    }

    /// Registers the MQTT worker.
    pub fn with_mqtt_worker_handle(&mut self, handle: H) -> (r: Result<(), AgentError>)
        requires
            old(self).wf(),
        ensures
            final(self).wf(),
            old(self)@[2] is Some ==> r is Err && final(self)@ == old(self)@,
            old(self)@[2] is None ==> r is Ok && final(self)@ == old(self)@.update(2, Some(handle)),
    {
        self.register(WorkerKind::Mqtt, handle)
    }

    /// Registers the relay worker.
    pub fn with_relay_worker_handle(&mut self, handle: H) -> (r: Result<(), AgentError>)
        requires
            old(self).wf(),
        ensures
            final(self).wf(),
            old(self)@[3] is Some ==> r is Err && final(self)@ == old(self)@,
            old(self)@[3] is None ==> r is Ok && final(self)@ == old(self)@.update(3, Some(handle)),
    {
        self.register(WorkerKind::Relay, handle)
    }

    /// Registers the deployer worker.
    pub fn with_deployer_worker_handle(&mut self, handle: H) -> (r: Result<(), AgentError>)
        requires
            old(self).wf(),
        ensures
            final(self).wf(),
            old(self)@[4] is Some ==> r is Err && final(self)@ == old(self)@,
            old(self)@[4] is None ==> r is Ok && final(self)@ == old(self)@.update(4, Some(handle)),
    {
        self.register(WorkerKind::Deployer, handle)
    }

    /// Registers the local HTTP server.
    pub fn with_socket_server_handle(&mut self, handle: H) -> (r: Result<(), AgentError>)
        requires
            old(self).wf(),
        ensures
            final(self).wf(),
            old(self)@[5] is Some ==> r is Err && final(self)@ == old(self)@,
            old(self)@[5] is None ==> r is Ok && final(self)@ == old(self)@.update(5, Some(handle)),
    {
        self.register(WorkerKind::SocketServer, handle)
    }

    /// Registers the application state's background task.
    pub fn with_app_state(&mut self, handle: H) -> (r: Result<(), AgentError>)
        requires
            old(self).wf(),
        ensures
            final(self).wf(),
            old(self)@[6] is Some ==> r is Err && final(self)@ == old(self)@,
            old(self)@[6] is None ==> r is Ok && final(self)@ == old(self)@.update(6, Some(handle)),
    {
        self.register(WorkerKind::AppState, handle)
    }

    /// Takes every registered handle out, in join order (token refresh, poller,
    /// MQTT, relay, deployer, local server, application state), leaving all
    /// slots empty.
    pub fn take_in_join_order(&mut self) -> (r: Vec<H>)
        requires
            old(self).wf(),
        ensures
            final(self).wf(),
            r@ == in_join_order(old(self)@),
            final(self)@ == Seq::new(SLOT_COUNT as nat, |i: int| None::<H>),
    {
        let ghost s0 = self.slots@;
        let mut r: Vec<H> = Vec::new();
        let mut i: usize = 0;
        while i < SLOT_COUNT
            invariant
                i <= SLOT_COUNT,
                self.slots@.len() == SLOT_COUNT,
                s0.len() == SLOT_COUNT,
                forall|j: int| 0 <= j < i ==> (#[trigger] self.slots@[j]) is None,
                forall|j: int| i <= j < SLOT_COUNT ==> (#[trigger] self.slots@[j]) == s0[j],
                r@ == in_join_order(s0.subrange(0, i as int)),
            decreases SLOT_COUNT - i,
        {
            let taken = self.slots[i].take();
            proof {
                assert(s0.subrange(0, i + 1).drop_last() =~= s0.subrange(0, i as int));
            }
            match taken {
                Some(h) => r.push(h),
                None => {},
            }
            i = i + 1;
        }
        assert(s0.subrange(0, SLOT_COUNT as int) =~= s0);
        assert(self.slots@ =~= Seq::new(SLOT_COUNT as nat, |i: int| None::<H>));
        r
    }
}

/// The overall result of the joins: success only when every join succeeded.
pub fn join_outcome(results: &Vec<bool>) -> (r: Result<(), AgentError>)
    ensures
        r is Ok <==> forall|i: int| 0 <= i < results@.len() ==> results@[i],
        r is Err ==> r->Err_0 is ShutdownError,
{
    let mut i: usize = 0;
    while i < results.len()
        invariant
            i <= results@.len(),
            forall|j: int| 0 <= j < i ==> results@[j],
        decreases results@.len() - i,
    {
        if !results[i] {
            return Err(AgentError::ShutdownError(owned("a worker failed to join")));
        }
        i = i + 1;
    }
    Ok(())
}

/// What the shutdown sequence does next.
#[derive(Debug, Clone, Copy, PartialEq, Eq, Structural)]
pub enum ShutdownStep {
    /// Join the next worker.
    JoinNext,
    /// Every worker has been joined in time.
    Done,
    /// The deadline passed: exit the process with a nonzero status.
    ForceExit,
}

/// Process exit status after a forced shutdown.
pub const FORCED_EXIT_CODE: i32 = 1;

/// One decision of the shutdown sequence, `elapsed_ms` after shutdown was
/// broadcast, with `remaining` joins outstanding: past the deadline the process
/// is forced down; otherwise the next join is awaited, or the sequence is done.
pub fn shutdown_step(elapsed_ms: u64, max_shutdown_delay_ms: u64, remaining: usize) -> (r:
    ShutdownStep)
    ensures
        r == ShutdownStep::ForceExit <==> elapsed_ms >= max_shutdown_delay_ms,
        r == ShutdownStep::Done <==> elapsed_ms < max_shutdown_delay_ms && remaining == 0,
        r == ShutdownStep::JoinNext <==> elapsed_ms < max_shutdown_delay_ms && remaining > 0,
{
    if elapsed_ms >= max_shutdown_delay_ms {
        ShutdownStep::ForceExit
    } else if remaining == 0 {
        ShutdownStep::Done
    } else {
        ShutdownStep::JoinNext
    }
}

/// `k` alone when `on`, else nothing.
pub open spec fn if_enabled(on: bool, k: WorkerKind) -> Seq<WorkerKind> {
    if on {
        seq![k]
    } else {
        Seq::empty()
    }
}

/// Launch order of the workers: token refresh, then the enabled ones among the
/// local server, poller, MQTT, relay and deployer, in that order.
pub open spec fn launch_sequence(
    socket_server: bool,
    poller: bool,
    mqtt: bool,
    relay: bool,
    deployer: bool,
) -> Seq<WorkerKind> {
    seq![WorkerKind::TokenRefresh] + if_enabled(socket_server, WorkerKind::SocketServer) + if_enabled(
        poller,
        WorkerKind::Poller,
    ) + if_enabled(mqtt, WorkerKind::Mqtt) + if_enabled(relay, WorkerKind::Relay) + if_enabled(
        deployer,
        WorkerKind::Deployer,
    )
}

fn push_if(v: &mut Vec<WorkerKind>, on: bool, k: WorkerKind)
    ensures
        final(v)@ == old(v)@ + if_enabled(on, k),
{
    if on {
        v.push(k);
        assert(final(v)@ =~= old(v)@ + seq![k]);
    } else {
        assert(old(v)@ + Seq::<WorkerKind>::empty() =~= old(v)@);
    }
}

/// The workers to launch, in launch order.
pub fn launch_plan(socket_server: bool, poller: bool, mqtt: bool, relay: bool, deployer: bool) -> (r: Vec<
    WorkerKind,
>)
    ensures
        r@ == launch_sequence(socket_server, poller, mqtt, relay, deployer),
{
    let mut v: Vec<WorkerKind> = Vec::new();
    v.push(WorkerKind::TokenRefresh);
    assert(v@ =~= seq![WorkerKind::TokenRefresh]);
    push_if(&mut v, socket_server, WorkerKind::SocketServer);
    push_if(&mut v, poller, WorkerKind::Poller);
    push_if(&mut v, mqtt, WorkerKind::Mqtt);
    push_if(&mut v, relay, WorkerKind::Relay);
    push_if(&mut v, deployer, WorkerKind::Deployer);
    v
}

} // verus!
