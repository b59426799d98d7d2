//! Digest-based reconciliation of the workflow cache against the backend, with
//! an exponential cooldown after failures.

use vstd::prelude::*;
use vstd::utf8::encode_utf8;
use crate::backoff::{calc_exp_backoff, exp_backoff, CooldownOptions};
use crate::cache::{is_oldest, EntryView, Workflow, WorkflowCache, WorkflowView};
use crate::error::AgentError;
use crate::text::{copy_string, str_eq};
use crate::utils::{hex_of, sha256_hash, sha256_of};

verus! {

/// A `(workflow id, digest)` pair exchanged with the backend.
#[derive(Debug)]
pub struct WorkflowDigest {
    pub workflow_id: String,
    pub digest: String,
    pub updated_at: String,
}

/// The backend's answer to a sync request: workflows to install, and the
/// authoritative list of workflow digests.
#[derive(Debug)]
pub struct WorkflowSyncResponse {
    pub workflows: Vec<Workflow>,
    pub digests: Vec<WorkflowDigest>,
}

/// Syncer bookkeeping; times are Unix milliseconds, `i64::MIN` meaning never.
#[derive(Debug, Clone, Copy, PartialEq, Eq, Structural)]
pub struct SyncState {
    pub last_attempted_sync_at: i64,
    pub last_synced_at: i64,
    pub cooldown_ends_at: i64,
    pub err_streak: u32,
}

impl Default for SyncState {
    fn default() -> (r: Self)
        ensures
            r.last_attempted_sync_at == i64::MIN,
            r.last_synced_at == i64::MIN,
            r.cooldown_ends_at == i64::MIN,
            r.err_streak == 0,
    {
        SyncState {
            last_attempted_sync_at: i64::MIN,
            last_synced_at: i64::MIN,
            cooldown_ends_at: i64::MIN,
            err_streak: 0,
        }
    }
}

impl SyncState {
    /// True while `now` is before the end of the cooldown.
    pub fn is_in_cooldown(&self, now: i64) -> (r: bool)
        ensures
            r == (now < self.cooldown_ends_at),
    {
        now < self.cooldown_ends_at
    }
}

/// Digest of a workflow: SHA-256 of its canonical serialization, in hex.
pub open spec fn workflow_digest(w: WorkflowView) -> Seq<char> {
    hex_of(sha256_of(encode_utf8(w.body)))
}

/// Some workflow in `ws` has id `k`.
pub open spec fn has_id(ws: Seq<WorkflowView>, k: Seq<char>) -> bool {
    exists|i: int| 0 <= i < ws.len() && (#[trigger] ws[i]).id == k
}

/// The last workflow in `ws` with id `k` (meaningful when `has_id(ws, k)`).
pub open spec fn last_with_id(ws: Seq<WorkflowView>, k: Seq<char>) -> WorkflowView
    decreases ws.len(),
{
    if ws.len() == 0 {
        WorkflowView { id: k, name: Seq::empty(), body: Seq::empty() }
    } else if ws.last().id == k {
        ws.last()
    } else {
        last_with_id(ws.drop_last(), k)
    }
}

/// `k` is listed in the authoritative digest list.
pub open spec fn in_auth(auth: Seq<Seq<char>>, k: Seq<char>) -> bool {
    exists|i: int| 0 <= i < auth.len() && auth[i] == k
}

/// The cache entry that installing `w` at `now` writes.
pub open spec fn installed_entry(w: WorkflowView, now: u64) -> EntryView {
    EntryView { workflow: w, digest: workflow_digest(w), cached_at: now }
}

/// One insertion by the cache's rule: when the cache is full, an entry with the
/// smallest `cached_at` is evicted first, then `e` is stored under its id.
pub open spec fn insert_step(
    m: Map<Seq<char>, EntryView>,
    e: EntryView,
    cap: nat,
    next: Map<Seq<char>, EntryView>,
) -> bool {
    if m.len() >= cap {
        exists|victim: Seq<char>|
            is_oldest(m, victim) && next == m.remove(victim).insert(e.workflow.id, e)
    } else {
        next == m.insert(e.workflow.id, e)
    }
}

/// `trace` is the cache before and after each installation of `ws` at `now`,
/// in order, starting from `old`.
pub open spec fn install_trace(
    old: Map<Seq<char>, EntryView>,
    ws: Seq<WorkflowView>,
    now: u64,
    cap: nat,
    trace: Seq<Map<Seq<char>, EntryView>>,
) -> bool {
    &&& trace.len() == ws.len() + 1
    &&& trace[0] == old
    &&& forall|i: int|
        0 <= i < ws.len() ==> insert_step(#[trigger] trace[i], installed_entry(ws[i], now), cap, trace[i + 1])
}

/// The ids the authoritative list names.
pub open spec fn auth_ids(auth: Seq<Seq<char>>) -> Set<Seq<char>> {
    Set::new(|k: Seq<char>| in_auth(auth, k))
}

/// What a reconcile does to the cache, from `old` to `new`: installing `ws` at
/// `now` and dropping every id missing from `auth`. Only ids that were cached or
/// installed and that `auth` lists remain; an installed id holds its last
/// workflow in `ws`, any other keeps its old entry; when no eviction can happen
/// (`old.len() + ws.len() <= cap`), every such id remains. Exactly: `new` is what
/// installing the workflows one by one by the cache's rule leaves, restricted to
/// the listed ids.
pub open spec fn reconciled(
    old: Map<Seq<char>, EntryView>,
    ws: Seq<WorkflowView>,
    auth: Seq<Seq<char>>,
    now: u64,
    cap: nat,
    new: Map<Seq<char>, EntryView>,
) -> bool {
    &&& forall|k: Seq<char>| #[trigger]
        new.contains_key(k) ==> in_auth(auth, k) && (old.contains_key(k) || has_id(ws, k))
    &&& forall|k: Seq<char>| #[trigger]
        new.contains_key(k) ==> new[k] == (if has_id(ws, k) {
            installed_entry(last_with_id(ws, k), now)
        } else {
            old[k]
        })
    &&& old.len() + ws.len() <= cap ==> forall|k: Seq<char>|
        in_auth(auth, k) && (old.contains_key(k) || has_id(ws, k)) ==> #[trigger] new.contains_key(k)
    &&& exists|trace: Seq<Map<Seq<char>, EntryView>>|
        install_trace(old, ws, now, cap, trace) && new == trace.last().restrict(auth_ids(auth))
}

/// Syncing again with the same backend answer leaves the same ids with the same
/// workflows and digests (only the cached-at stamps move), as long as neither
/// reconcile has to evict.
pub proof fn lemma_reconcile_idempotent(
    before: Map<Seq<char>, EntryView>,
    ws: Seq<WorkflowView>,
    auth: Seq<Seq<char>>,
    t1: u64,
    t2: u64,
    cap: nat,
    first: Map<Seq<char>, EntryView>,
    second: Map<Seq<char>, EntryView>,
)
    requires
        reconciled(before, ws, auth, t1, cap, first),
        reconciled(first, ws, auth, t2, cap, second),
        before.len() + ws.len() <= cap,
        first.len() + ws.len() <= cap,
    ensures
        first.dom() == second.dom(),
        forall|k: Seq<char>| #[trigger]
            first.contains_key(k) ==> first[k].workflow == second[k].workflow && first[k].digest
                == second[k].digest,
{
    assert forall|k: Seq<char>| #[trigger] first.contains_key(k) <==> second.contains_key(k) by {
        if second.contains_key(k) {
            assert(in_auth(auth, k));
        }
        if first.contains_key(k) {
            assert(in_auth(auth, k));
        }
    }
    assert(first.dom() =~= second.dom());
}

fn listed(auth: &Vec<WorkflowDigest>, id: &str) -> (r: bool)
    ensures
        r == in_auth(auth@.map_values(|d: WorkflowDigest| d.workflow_id@), id@),
{
    let ghost ids = auth@.map_values(|d: WorkflowDigest| d.workflow_id@);
    let mut i: usize = 0;
    while i < auth.len()
        invariant
            i <= auth@.len(),
            ids == auth@.map_values(|d: WorkflowDigest| d.workflow_id@),
            forall|j: int| 0 <= j < i ==> ids[j] != id@,
        decreases auth@.len() - i,
    {
        if str_eq(auth[i].workflow_id.as_str(), id) {
            assert(ids[i as int] == id@);
            return true;
        }
        i = i + 1;
    }
    false
}

/// Workflow syncer: the sole writer of the workflow cache.
pub struct Syncer {
    workflow_cache: WorkflowCache,
    state: SyncState,
    cooldown_options: CooldownOptions,
}

/// End of a cooldown of `delay` milliseconds starting at `now`, held at `i64::MAX`.
pub open spec fn cooldown_end(now: i64, delay: int) -> i64 {
    if now + delay > i64::MAX {
        i64::MAX
    } else {
        (now + delay) as i64
    }
}

/// `d` is the digest list of the cache `m`: each cached id once, with its
/// digest and an empty update time.
pub open spec fn digests_of(m: Map<Seq<char>, EntryView>, d: Seq<WorkflowDigest>) -> bool {
    &&& d.len() == m.len()
    &&& forall|i: int|
        0 <= i < d.len() ==> m.contains_key((#[trigger] d[i]).workflow_id@) && m[d[i].workflow_id@].digest
            == d[i].digest@ && d[i].updated_at@.len() == 0
    &&& forall|k: Seq<char>| #[trigger]
        m.contains_key(k) ==> exists|i: int| 0 <= i < d.len() && d[i].workflow_id@ == k
}

/// How an attempt completes with the backend's `outcome`, from bookkeeping
/// `state` and cache `cached` to `new_state` and `new_cached`, answering `r`:
/// an answer is reconciled (cached-at `now_secs`) and resets the streak; an
/// error is returned, grows the streak and starts the cooldown.
pub open spec fn attempt_completed(
    state: SyncState,
    cached: Map<Seq<char>, EntryView>,
    cap: nat,
    options: CooldownOptions,
    now: i64,
    now_secs: u64,
    outcome: Result<WorkflowSyncResponse, AgentError>,
    r: Result<(), AgentError>,
    new_state: SyncState,
    new_cached: Map<Seq<char>, EntryView>,
) -> bool {
    match outcome {
        Ok(resp) => r is Ok && new_state == (SyncState {
            last_synced_at: now,
            err_streak: 0,
            ..state
        }) && reconciled(
            cached,
            resp.workflows@.map_values(|w: Workflow| w@),
            resp.digests@.map_values(|d: WorkflowDigest| d.workflow_id@),
            now_secs,
            cap,
            new_cached,
        ),
        Err(e) => r == Err::<(), AgentError>(e) && new_cached == cached && new_state == (SyncState {
            err_streak: if state.err_streak == u32::MAX {
                u32::MAX
            } else {
                (state.err_streak + 1) as u32
            },
            cooldown_ends_at: cooldown_end(
                now,
                exp_backoff(
                    options,
                    (if state.err_streak == u32::MAX {
                        u32::MAX
                    } else {
                        (state.err_streak + 1) as u32
                    }) as nat,
                ),
            ),
            ..state
        }),
    }
}

impl Syncer {
    /// The syncer's bookkeeping.
    pub closed spec fn sync_state(&self) -> SyncState {
        self.state
    }

    /// The cache contents.
    pub closed spec fn cached(&self) -> Map<Seq<char>, EntryView> {
        self.workflow_cache@
    }

    /// The cache bound.
    pub closed spec fn capacity(&self) -> nat {
        self.workflow_cache.cap()
    }

    /// The cooldown options in force.
    pub closed spec fn options(&self) -> CooldownOptions {
        self.cooldown_options
    }

    pub closed spec fn wf(&self) -> bool {
        self.workflow_cache.wf()
    }

    /// A syncer over `workflow_cache`, never synced, with default cooldown options.
    pub fn new(workflow_cache: WorkflowCache) -> (r: Self)
        requires
            workflow_cache.wf(),
        ensures
            r.wf(),
            r.cached() == workflow_cache@,
            r.capacity() == workflow_cache.cap(),
            r.sync_state().err_streak == 0,
            r.sync_state().cooldown_ends_at == i64::MIN,
            r.options().base_delay_ms == 1000,
            r.options().multiplier == 2,
            r.options().max_delay_ms == 300_000,
    {
        Syncer { workflow_cache, state: SyncState::default(), cooldown_options: CooldownOptions::default() }
    }

    /// A copy of the bookkeeping.
    pub fn get_state(&self) -> (r: SyncState)
        ensures
            r == self.sync_state(),
    {
        self.state
    }

    /// The cache, for readers.
    pub fn cache(&self) -> (r: &WorkflowCache)
        ensures
            r@ == self.cached(),
            r.wf() == self.wf(),
    {
        &self.workflow_cache
    }

    /// The ids of the cached workflows.
    pub fn get_cached_workflows(&self) -> (r: Vec<String>)
        requires
            self.wf(),
        ensures
            r@.len() == self.cached().len(),
            forall|i: int| 0 <= i < r@.len() ==> self.cached().contains_key(#[trigger] r@[i]@),
            forall|k: Seq<char>| #[trigger]
                self.cached().contains_key(k) ==> exists|i: int| 0 <= i < r@.len() && r@[i]@ == k,
    {
        self.workflow_cache.keys()
    }

    /// Starts an attempt at `now`: in cooldown nothing changes and `false` comes
    /// back; otherwise the attempt time is recorded and `true` comes back.
    pub fn begin_sync(&mut self, now: i64) -> (r: bool)
        ensures
            r == !(now < old(self).sync_state().cooldown_ends_at),
            final(self).cached() == old(self).cached(),
            final(self).wf() == old(self).wf(),
            final(self).capacity() == old(self).capacity(),
            final(self).options() == old(self).options(),
            r ==> final(self).sync_state() == (SyncState {
                last_attempted_sync_at: now,
                ..old(self).sync_state()
            }),
            !r ==> final(self).sync_state() == old(self).sync_state(),
    {
        if self.state.is_in_cooldown(now) {
            return false;
        }
        self.state.last_attempted_sync_at = now;
        true
    }

    /// The digests of the cached workflows, as sent to the backend.
    pub fn local_digests(&self) -> (r: Vec<WorkflowDigest>)
        requires
            self.wf(),
        ensures
            digests_of(self.cached(), r@),
    {
        let pairs = self.workflow_cache.digests();
        let mut r: Vec<WorkflowDigest> = Vec::new();
        let mut i: usize = 0;
        while i < pairs.len()
            invariant
                i <= pairs@.len(),
                r@.len() == i,
                forall|j: int|
                    0 <= j < i ==> (#[trigger] r@[j]).workflow_id@ == pairs@[j].0@ && r@[j].digest@
                        == pairs@[j].1@ && r@[j].updated_at@.len() == 0,
            decreases pairs@.len() - i,
        {
            r.push(
                WorkflowDigest {
                    workflow_id: copy_string(&pairs[i].0),
                    digest: copy_string(&pairs[i].1),
                    updated_at: String::new(),
                },
            );
            i = i + 1;
        }
        proof {
            assert forall|k: Seq<char>| #[trigger] self.cached().contains_key(k) implies exists|j: int|
                0 <= j < r@.len() && r@[j].workflow_id@ == k by {
                let j = choose|j: int| 0 <= j < pairs@.len() && pairs@[j].0@ == k;
                assert(r@[j].workflow_id@ == k);
            }
        }
        r
    }

    /// Applies the backend's answer at `now` (seconds): installs each workflow
    /// under its digest, then drops every id the authoritative list omits.
    #[verifier::rlimit(60)]
    #[verifier::spinoff_prover]
    pub fn apply_sync_response(&mut self, response: WorkflowSyncResponse, now: u64)
        requires
            old(self).wf(),
        ensures
            final(self).wf(),
            final(self).capacity() == old(self).capacity(),
            final(self).sync_state() == old(self).sync_state(),
            final(self).options() == old(self).options(),
            reconciled(
                old(self).cached(),
                response.workflows@.map_values(|w: Workflow| w@),
                response.digests@.map_values(|d: WorkflowDigest| d.workflow_id@),
                now,
                old(self).capacity(),
                final(self).cached(),
            ),
    {
        let ghost old_map = self.workflow_cache@;
        let ghost cap = self.workflow_cache.cap();
        let ghost ws = response.workflows@.map_values(|w: Workflow| w@);
        let ghost auth = response.digests@.map_values(|d: WorkflowDigest| d.workflow_id@);
        proof {
            self.workflow_cache.lemma_bounded();
        }
        let workflows = &response.workflows;
        let mut i: usize = 0;
        let ghost mut trace: Seq<Map<Seq<char>, EntryView>> = seq![old_map];
        while i < workflows.len()
            invariant
                trace.len() == i + 1,
                trace[0] == old_map,
                trace.last() == self.workflow_cache@,
                forall|t: int|
                    0 <= t < i ==> insert_step(#[trigger] trace[t], installed_entry(ws[t], now), cap, trace[t + 1]),
                self.workflow_cache.wf(),
                self.workflow_cache.cap() == cap,
                self.state == old(self).state,
                self.cooldown_options == old(self).cooldown_options,
                i <= workflows@.len(),
                ws == workflows@.map_values(|w: Workflow| w@),
                old_map.dom().finite(),
                self.workflow_cache@.len() <= old_map.len() + i,
                forall|k: Seq<char>| #[trigger]
                    self.workflow_cache@.contains_key(k) ==> old_map.contains_key(k) || has_id(
                        ws.subrange(0, i as int),
                        k,
                    ),
                forall|k: Seq<char>| #[trigger]
                    self.workflow_cache@.contains_key(k) ==> self.workflow_cache@[k] == (if has_id(
                        ws.subrange(0, i as int),
                        k,
                    ) {
                        installed_entry(last_with_id(ws.subrange(0, i as int), k), now)
                    } else {
                        old_map[k]
                    }),
                old_map.len() + ws.len() <= cap ==> forall|k: Seq<char>|
                    (old_map.contains_key(k) || has_id(ws.subrange(0, i as int), k))
                        ==> #[trigger] self.workflow_cache@.contains_key(k),
            decreases workflows@.len() - i,
        {
            let w = workflows[i].cloned();
            let digest = sha256_hash(w.body.as_str().as_bytes());
            let ghost before = self.workflow_cache@;
            let ghost wv = w@;
            proof {
                self.workflow_cache.lemma_bounded();
            }
            self.workflow_cache.insert(w, digest, now);
            proof {
                self.workflow_cache.lemma_bounded();
                let prefix_before = ws.subrange(0, i as int);
                let prefix_after = ws.subrange(0, i + 1);
                assert(prefix_after.drop_last() =~= prefix_before);
                assert(prefix_after.last() == wv);
                assert(wv == ws[i as int]);
                assert forall|k: Seq<char>| has_id(prefix_after, k) <==> (has_id(prefix_before, k) || k == wv.id) by {
                    if has_id(prefix_after, k) {
                        let j = choose|j: int| 0 <= j < prefix_after.len() && (#[trigger] prefix_after[j]).id == k;
                        if j < i {
                            assert(prefix_before[j] == prefix_after[j]);
                        }
                    }
                    if has_id(prefix_before, k) {
                        let j = choose|j: int| 0 <= j < prefix_before.len() && (#[trigger] prefix_before[j]).id == k;
                        assert(prefix_after[j] == prefix_before[j]);
                    }
                    if k == wv.id {
                        assert(prefix_after[i as int].id == k);
                    }
                }
                assert(before.dom().finite());
                if before.len() >= cap {
                    let victim = choose|victim: Seq<char>|
                        is_oldest(before, victim) && self.workflow_cache@ == before.remove(
                            victim,
                        ).insert(wv.id, installed_entry(wv, now));
                    assert(before.remove(victim).len() < before.len());
                } else {
                    assert(self.workflow_cache@ == before.insert(wv.id, installed_entry(wv, now)));
                }
                assert(wv.body == w@.body);
                let trace2 = trace.push(self.workflow_cache@);
                assert(insert_step(before, installed_entry(wv, now), cap, self.workflow_cache@));
                assert forall|t: int|
                    0 <= t < i + 1 implies insert_step(#[trigger] trace2[t], installed_entry(ws[t], now), cap, trace2[t + 1]) by {
                    if t < i {
                        assert(trace2[t] == trace[t] && trace2[t + 1] == trace[t + 1]);
                    } else {
                        assert(trace2[t] == before);
                    }
                }
                trace = trace2;
            }
            i = i + 1;
        }
        proof {
            assert(ws.subrange(0, ws.len() as int) =~= ws);
        }
        let ghost mid = self.workflow_cache@;
        let keys = self.workflow_cache.keys();
        let mut j: usize = 0;
        while j < keys.len()
            invariant
                self.workflow_cache.wf(),
                self.workflow_cache.cap() == cap,
                self.state == old(self).state,
                self.cooldown_options == old(self).cooldown_options,
                j <= keys@.len(),
                auth == response.digests@.map_values(|d: WorkflowDigest| d.workflow_id@),
                forall|k: Seq<char>| #[trigger]
                    self.workflow_cache@.contains_key(k) ==> mid.contains_key(k)
                        && self.workflow_cache@[k] == mid[k],
                forall|q: int|
                    0 <= q < j ==> (self.workflow_cache@.contains_key(#[trigger] keys@[q]@)
                        ==> in_auth(auth, keys@[q]@)),
                forall|k: Seq<char>|
                    mid.contains_key(k) && in_auth(auth, k) ==> #[trigger]
                        self.workflow_cache@.contains_key(k),
            decreases keys@.len() - j,
        {
            if !listed(&response.digests, keys[j].as_str()) {
                let _ = self.workflow_cache.remove(keys[j].as_str());
            }
            j = j + 1;
        }
        proof {
            assert forall|k: Seq<char>| #[trigger]
                self.workflow_cache@.contains_key(k) implies in_auth(auth, k) by {
                let q = choose|q: int| 0 <= q < keys@.len() && keys@[q]@ == k;
                assert(self.workflow_cache@.contains_key(keys@[q]@));
            }
            assert(install_trace(old_map, ws, now, cap, trace));
            assert(self.workflow_cache@ =~= trace.last().restrict(auth_ids(auth)));
        }
    }

    /// Records a successful sync at `now`.
    pub fn record_success(&mut self, now: i64)
        ensures
            final(self).sync_state() == (SyncState {
                last_synced_at: now,
                err_streak: 0,
                ..old(self).sync_state()
            }),
            final(self).cached() == old(self).cached(),
            final(self).wf() == old(self).wf(),
            final(self).capacity() == old(self).capacity(),
            final(self).options() == old(self).options(),
    {
        self.state.last_synced_at = now;
        self.state.err_streak = 0;
    }

    /// Records a failed sync at `now`: the streak grows by one (held at the largest
    /// `u32`) and the cooldown ends `backoff(streak)` milliseconds after `now`.
    pub fn record_failure(&mut self, now: i64)
        ensures
            ({
                let streak = if old(self).sync_state().err_streak == u32::MAX {
                    u32::MAX
                } else {
                    (old(self).sync_state().err_streak + 1) as u32
                };
                final(self).sync_state() == (SyncState {
                    err_streak: streak,
                    cooldown_ends_at: cooldown_end(now, exp_backoff(old(self).options(), streak as nat)),
                    ..old(self).sync_state()
                })
            }),
            final(self).cached() == old(self).cached(),
            final(self).wf() == old(self).wf(),
            final(self).capacity() == old(self).capacity(),
            final(self).options() == old(self).options(),
    {
        self.state.err_streak = self.state.err_streak.saturating_add(1);
        let delay = calc_exp_backoff(&self.cooldown_options, self.state.err_streak);
        let end: i128 = now as i128 + delay as i128;
        self.state.cooldown_ends_at = if end > i64::MAX as i128 { i64::MAX } else { end as i64 };
    }

    /// Completes an attempt with what the backend returned: on an answer, the
    /// cache is reconciled (cached-at `now_secs`) and success recorded; on an
    /// error, the failure is recorded and the error returned.
    pub fn finish_sync(
        &mut self,
        now: i64,
        now_secs: u64,
        outcome: Result<WorkflowSyncResponse, AgentError>,
    ) -> (r: Result<(), AgentError>)
        requires
            old(self).wf(),
        ensures
            final(self).wf(),
            final(self).capacity() == old(self).capacity(),
            final(self).options() == old(self).options(),
            attempt_completed(
                old(self).sync_state(),
                old(self).cached(),
                old(self).capacity(),
                old(self).options(),
                now,
                now_secs,
                outcome,
                r,
                final(self).sync_state(),
                final(self).cached(),
            ),
    {
        match outcome {
            Ok(resp) => {
                self.apply_sync_response(resp, now_secs);
                self.record_success(now);
                Ok(())
            },
            Err(e) => {
                self.record_failure(now);
                Err(e)
            },
        }
    }

    /// One sync attempt at `now`. In cooldown it returns `Ok` at once, without
    /// calling `fetch`, and changes nothing. Otherwise it records the attempt,
    /// hands the local digests to `fetch` (the backend call), and completes the
    /// attempt with whatever came back (see `finish_sync`).
    pub fn trigger_sync<F>(&mut self, now: i64, now_secs: u64, fetch: F) -> (r: Result<(), AgentError>)
        where
            F: FnOnce(Vec<WorkflowDigest>) -> Result<WorkflowSyncResponse, AgentError>,
        requires
            old(self).wf(),
            forall|d: Vec<WorkflowDigest>| fetch.requires((d,)),
        ensures
            final(self).wf(),
            final(self).capacity() == old(self).capacity(),
            final(self).options() == old(self).options(),
            now < old(self).sync_state().cooldown_ends_at ==> r is Ok && final(self).cached()
                == old(self).cached() && final(self).sync_state() == old(self).sync_state(),
            !(now < old(self).sync_state().cooldown_ends_at) ==> exists|
                sent: Vec<WorkflowDigest>,
                outcome: Result<WorkflowSyncResponse, AgentError>,
            |
                {
                    &&& digests_of(old(self).cached(), sent@)
                    &&& fetch.ensures((sent,), outcome)
                    &&& attempt_completed(
                        SyncState { last_attempted_sync_at: now, ..old(self).sync_state() },
                        old(self).cached(),
                        old(self).capacity(),
                        old(self).options(),
                        now,
                        now_secs,
                        outcome,
                        r,
                        final(self).sync_state(),
                        final(self).cached(),
                    )
                },
    {
        if !self.begin_sync(now) {
            return Ok(());
        }
        let digests = self.local_digests();
        let ghost sent = digests;
        let outcome = fetch(digests);
        let ghost answer = outcome;
        let r = self.finish_sync(now, now_secs, outcome);
        assert(fetch.ensures((sent,), answer));
        r
    }
}

} // verus!
