use rsjs::signals::JsManagerContext;

#[test]
fn callback_ids_count_up_and_restart_after_clear() {
    let mut c: JsManagerContext<String, i32> = JsManagerContext::new();
    assert_eq!(c.next_callback_id(), 1);
    assert_eq!(c.next_callback_id(), 2);
    assert_eq!(c.next_callback_id(), 3);
    c.clear();
    assert_eq!(c.next_callback_id(), 1);
}

#[test]
fn saved_callback_is_found_until_dropped() {
    let mut c: JsManagerContext<String, i32> = JsManagerContext::new();
    let id = c.next_callback_id();
    c.save_callback(id, "on_hit".to_string());
    assert_eq!(c.get_meta(id).cloned(), Some("on_hit".to_string()));
    assert_eq!(c.drop_callback(id), Some("on_hit".to_string()));
    assert!(c.get_meta(id).is_none());
    assert_eq!(c.drop_callback(id), None);
}

#[test]
fn save_replaces_and_remove_forgets() {
    let mut c: JsManagerContext<String, i32> = JsManagerContext::new();
    c.save_callback(7, "a".to_string());
    c.save_callback(7, "b".to_string());
    assert_eq!(c.get_meta(7).cloned(), Some("b".to_string()));
    c.remove_callback(7);
    assert!(c.get_meta(7).is_none());
    c.remove_callback(7);
    assert!(c.get_meta(7).is_none());
}

#[test]
fn queue_is_fifo() {
    let mut c: JsManagerContext<String, i32> = JsManagerContext::new();
    assert!(c.queue_is_empty());
    c.enqueue(1, vec![10]);
    c.enqueue(2, vec![20, 21]);
    assert_eq!(c.queue_size(), 2);
    let a = c.pop_signal().unwrap();
    assert_eq!((a.id, a.arguments), (1, vec![10]));
    let b = c.pop_signal().unwrap();
    assert_eq!((b.id, b.arguments), (2, vec![20, 21]));
    assert!(c.pop_signal().is_none());
    assert!(c.queue_is_empty());
}

#[test]
fn dispatch_round_stops_at_unregistered_signal() {
    let mut c: JsManagerContext<String, i32> = JsManagerContext::new();
    c.save_callback(1, "one".to_string());
    c.save_callback(3, "three".to_string());
    c.enqueue(1, vec![]);
    c.enqueue(1, vec![5]);
    c.enqueue(2, vec![]);
    c.enqueue(3, vec![]);
    let mut handed = Vec::new();
    while let Some(s) = c.take_dispatchable() {
        handed.push(s.id);
    }
    assert_eq!(handed, vec![1, 1]);
    // the signal with no callback was dropped; the one after it waits
    assert_eq!(c.queue_size(), 1);
    assert_eq!(c.take_dispatchable().unwrap().id, 3);
    assert!(c.take_dispatchable().is_none());
}

#[test]
fn clear_forgets_everything() {
    let mut c: JsManagerContext<String, i32> = JsManagerContext::new();
    c.save_callback(1, "x".to_string());
    c.enqueue(1, vec![1]);
    c.clear();
    assert!(c.queue_is_empty());
    assert!(c.get_meta(1).is_none());
}
