use rsjs::runtime::{DeadlineGuard, ExecutionDeadline, JsRuntimeManager};

#[test]
fn unregister_moves_bound_to_free_queue() {
    let mut m: JsRuntimeManager<&str, u64> = JsRuntimeManager::new();
    m.bind(5, "obj5");
    m.bind(6, "obj6");
    assert_eq!(m.node_count(), 2);
    m.unregister_js_node(5);
    assert_eq!(m.node_count(), 1);
    assert!(m.bound(5).is_none());
    assert_eq!(m.pop_free(), Some("obj5"));
    assert_eq!(m.pop_free(), None);
    m.unregister_js_node(99);
    assert_eq!(m.pop_free(), None);
}

#[test]
fn free_queue_is_last_in_first_out() {
    let mut m: JsRuntimeManager<&str, u64> = JsRuntimeManager::new();
    m.bind(1, "a");
    m.bind(2, "b");
    m.unregister_js_node(1);
    m.unregister_js_node(2);
    assert_eq!(m.pop_free(), Some("b"));
    assert_eq!(m.pop_free(), Some("a"));
}

#[test]
fn ready_queue_is_last_in_first_out() {
    let mut m: JsRuntimeManager<&str, u64> = JsRuntimeManager::new();
    m.push_ready(10);
    m.push_ready(11);
    assert_eq!(m.pop_ready(), Some(11));
    assert_eq!(m.pop_ready(), Some(10));
    assert_eq!(m.pop_ready(), None);
}

#[test]
fn frame_targets_are_bound_requests_in_order() {
    let mut m: JsRuntimeManager<&str, u64> = JsRuntimeManager::new();
    m.bind(1, "a");
    m.bind(3, "c");
    m.enqueue_process(3);
    m.enqueue_process(2);
    m.enqueue_process(1);
    m.enqueue_process(3);
    assert_eq!(m.process_queue_len(), 4);
    assert_eq!(m.frame_targets(), vec![3, 1, 3]);
    m.unregister_js_node(3);
    assert_eq!(m.frame_targets(), vec![1]);
    m.finish_frame();
    assert_eq!(m.process_queue_len(), 0);
    assert!(m.frame_targets().is_empty());
}

#[test]
fn exit_tree_drops_everything() {
    let mut m: JsRuntimeManager<&str, u64> = JsRuntimeManager::new();
    m.bind(1, "a");
    m.bind(2, "b");
    m.unregister_js_node(2);
    m.push_ready(1);
    m.enqueue_process(1);
    m.exit_tree();
    assert_eq!(m.node_count(), 0);
    assert_eq!(m.process_queue_len(), 0);
    assert_eq!(m.pop_ready(), None);
    assert_eq!(m.pop_free(), None);
}

#[test]
fn deadline_expires_after_limit() {
    let mut d = ExecutionDeadline::unset();
    assert!(!d.expired(1_000_000));
    let g = DeadlineGuard::new(&mut d, 1000, 50);
    assert_eq!(d.at_ms, Some(1050));
    assert!(!d.expired(1049));
    assert!(d.expired(1050));
    assert!(d.expired(2000));
    g.release(&mut d);
    assert_eq!(d.at_ms, None);
    assert!(!d.expired(5000));
}

#[test]
fn zero_limit_leaves_deadline_alone() {
    let mut d = ExecutionDeadline::unset();
    let g = DeadlineGuard::new(&mut d, 1000, 0);
    assert_eq!(g.limit_ms, 0);
    assert_eq!(d.at_ms, None);
    let mut d2 = ExecutionDeadline { at_ms: Some(7) };
    let _g2 = DeadlineGuard::new(&mut d2, 1000, 0);
    assert_eq!(d2.at_ms, Some(7));
}
