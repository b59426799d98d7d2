use ajime_agent::cache::{Workflow, WorkflowCache};

fn create_test_workflow(id: &str, name: &str) -> Workflow {
    Workflow { id: id.to_string(), name: name.to_string(), body: format!("{{\"id\":\"{}\"}}", id) }
}

#[test]
fn test_workflow_cache_insert_and_get() {
    let mut cache = WorkflowCache::new(10);
    let workflow = create_test_workflow("wf-1", "Test Workflow");

    cache.insert(workflow.cloned(), "digest-1".to_string(), 100);

    let entry = cache.get("wf-1");
    assert!(entry.is_some());
    assert_eq!(entry.unwrap().workflow.name, "Test Workflow");
}

#[test]
fn test_workflow_cache_eviction() {
    let mut cache = WorkflowCache::new(2);

    cache.insert(create_test_workflow("wf-1", "Workflow 1"), "d1".to_string(), 100);
    cache.insert(create_test_workflow("wf-2", "Workflow 2"), "d2".to_string(), 101);
    cache.insert(create_test_workflow("wf-3", "Workflow 3"), "d3".to_string(), 102);

    assert_eq!(cache.len(), 2);
}

#[test]
fn test_workflow_cache_remove() {
    let mut cache = WorkflowCache::new(10);
    let workflow = create_test_workflow("wf-1", "Test Workflow");

    cache.insert(workflow, "digest-1".to_string(), 100);
    assert!(cache.get("wf-1").is_some());

    cache.remove("wf-1");
    assert!(cache.get("wf-1").is_none());
}

#[test]
fn cache_evicts_oldest_entry() {
    let mut cache = WorkflowCache::new(2);
    cache.insert(create_test_workflow("w1", "one"), "d1".to_string(), 100);
    cache.insert(create_test_workflow("w2", "two"), "d2".to_string(), 101);
    cache.insert(create_test_workflow("w3", "three"), "d3".to_string(), 102);
    assert_eq!(cache.len(), 2);
    assert!(cache.get("w1").is_none());
    assert_eq!(cache.get("w2").unwrap().digest, "d2");
    assert_eq!(cache.get("w3").unwrap().cached_at, 102);
}

#[test]
fn cache_eviction_picks_smallest_cached_at_not_insertion_order() {
    let mut cache = WorkflowCache::new(2);
    cache.insert(create_test_workflow("a", "a"), "da".to_string(), 500);
    cache.insert(create_test_workflow("b", "b"), "db".to_string(), 400);
    cache.insert(create_test_workflow("c", "c"), "dc".to_string(), 600);
    assert!(cache.get("a").is_some());
    assert!(cache.get("b").is_none());
    assert!(cache.get("c").is_some());
}

#[test]
fn cache_overwrites_same_id_and_stays_bounded() {
    let mut cache = WorkflowCache::new(1);
    cache.insert(create_test_workflow("w1", "first"), "d1".to_string(), 1);
    cache.insert(create_test_workflow("w1", "second"), "d2".to_string(), 2);
    assert_eq!(cache.len(), 1);
    let e = cache.get("w1").unwrap();
    assert_eq!(e.workflow.name, "second");
    assert_eq!(e.digest, "d2");
}

#[test]
fn cache_lookup_by_digest_keys_and_clear() {
    let mut cache = WorkflowCache::new(5);
    assert!(cache.is_empty());
    cache.insert(create_test_workflow("w1", "one"), "d1".to_string(), 1);
    cache.insert(create_test_workflow("w2", "two"), "d2".to_string(), 2);
    assert_eq!(cache.get_by_digest("d2").unwrap().workflow.id, "w2");
    assert!(cache.get_by_digest("zz").is_none());
    let mut keys = cache.keys();
    keys.sort();
    assert_eq!(keys, vec!["w1".to_string(), "w2".to_string()]);
    let mut digests = cache.digests();
    digests.sort();
    assert_eq!(digests, vec![("w1".to_string(), "d1".to_string()), ("w2".to_string(), "d2".to_string())]);
    assert_eq!(cache.remove("w1").unwrap().digest, "d1");
    assert!(cache.remove("w1").is_none());
    cache.clear();
    assert_eq!(cache.len(), 0);
    assert_eq!(cache.capacity(), 5);
}
