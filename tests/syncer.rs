use ajime_agent::cache::{Workflow, WorkflowCache};
use ajime_agent::error::AgentError;
use ajime_agent::syncer::{SyncState, Syncer, WorkflowDigest, WorkflowSyncResponse};
use ajime_agent::utils::sha256_hash;

fn wf(id: &str, body: &str) -> Workflow {
    Workflow { id: id.to_string(), name: format!("name-{}", id), body: body.to_string() }
}

fn digest(id: &str) -> WorkflowDigest {
    WorkflowDigest { workflow_id: id.to_string(), digest: String::new(), updated_at: String::new() }
}

fn response(items: &[(&str, &str)]) -> WorkflowSyncResponse {
    WorkflowSyncResponse {
        workflows: items.iter().map(|(i, b)| wf(i, b)).collect(),
        digests: items.iter().map(|(i, _)| digest(i)).collect(),
    }
}

fn sorted_contents(s: &Syncer) -> Vec<(String, String, String)> {
    let mut ids = s.get_cached_workflows();
    ids.sort();
    ids.iter()
        .map(|id| {
            let e = s.cache().get(id).unwrap();
            (id.clone(), e.workflow.body.clone(), e.digest.clone())
        })
        .collect()
}

#[test]
fn sync_installs_with_sha256_digest_and_drops_unlisted() {
    let mut cache = WorkflowCache::new(10);
    cache.insert(wf("old", "{}"), "x".to_string(), 1);
    cache.insert(wf("keep", "{\"k\":1}"), "kd".to_string(), 2);
    let mut s = Syncer::new(cache);
    let resp = WorkflowSyncResponse {
        workflows: vec![wf("new", "{\"a\":1}")],
        digests: vec![digest("new"), digest("keep")],
    };
    s.apply_sync_response(resp, 50);
    let c = s.cache();
    assert!(c.get("old").is_none());
    assert_eq!(c.get("keep").unwrap().digest, "kd");
    let e = c.get("new").unwrap();
    assert_eq!(e.digest, sha256_hash("{\"a\":1}".as_bytes()));
    assert_eq!(e.cached_at, 50);
    assert_eq!(c.len(), 2);
}

#[test]
fn sync_failure_starts_cooldown_and_skips_next_attempt() {
    let mut s = Syncer::new(WorkflowCache::new(4));
    let now: i64 = 1_000_000;
    let r = s.trigger_sync(now, 1000, |_d| Err(AgentError::HttpError("down".to_string())));
    assert!(r.is_err());
    let st = s.get_state();
    assert_eq!(st.err_streak, 1);
    assert_eq!(st.last_attempted_sync_at, now);
    assert_eq!(st.cooldown_ends_at, now + 2000);

    let mut called = false;
    let r2 = s.trigger_sync(now + 10, 1000, |_d| {
        called = true;
        Ok(response(&[("w", "{}")]))
    });
    assert!(r2.is_ok());
    assert!(!called);
    assert_eq!(s.get_state(), st);
    assert_eq!(s.cache().len(), 0);
}

#[test]
fn sync_success_resets_streak_and_sends_local_digests() {
    let mut cache = WorkflowCache::new(4);
    cache.insert(wf("a", "{}"), "da".to_string(), 1);
    let mut s = Syncer::new(cache);
    let _ = s.trigger_sync(10, 0, |_d| Err(AgentError::HttpError("x".to_string())));
    let mut seen = Vec::new();
    let r = s.trigger_sync(5000, 5, |d| {
        seen = d.iter().map(|x| (x.workflow_id.clone(), x.digest.clone())).collect();
        Ok(response(&[("a", "{\"v\":2}")]))
    });
    assert!(r.is_ok());
    assert_eq!(seen, vec![("a".to_string(), "da".to_string())]);
    let st = s.get_state();
    assert_eq!(st.err_streak, 0);
    assert_eq!(st.last_synced_at, 5000);
    assert_eq!(s.cache().get("a").unwrap().digest, sha256_hash(b"{\"v\":2}"));
}

#[test]
fn repeated_sync_with_same_response_gives_same_contents() {
    let mut s = Syncer::new(WorkflowCache::new(8));
    let r = s.trigger_sync(1, 1, |_d| Ok(response(&[("a", "{1}"), ("b", "{2}")])));
    assert!(r.is_ok());
    let first = sorted_contents(&s);
    let r = s.trigger_sync(2, 2, |_d| Ok(response(&[("a", "{1}"), ("b", "{2}")])));
    assert!(r.is_ok());
    assert_eq!(sorted_contents(&s), first);
    assert_eq!(first.len(), 2);
}

#[test]
fn sync_state_cooldown_check() {
    let st = SyncState { last_attempted_sync_at: 0, last_synced_at: 0, cooldown_ends_at: 100, err_streak: 1 };
    assert!(st.is_in_cooldown(99));
    assert!(!st.is_in_cooldown(100));
    assert!(!SyncState::default().is_in_cooldown(i64::MIN));
}
