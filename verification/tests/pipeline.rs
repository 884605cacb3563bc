use push_fanout::backlog::Backlog;
use push_fanout::notification::Notification;
use push_fanout::notification::NotificationTask;
use push_fanout::pipeline::filter_offline;
use push_fanout::pipeline::queue;

fn strings(ids: &[&str]) -> Vec<String> {
    ids.iter().map(|s| s.to_string()).collect()
}

fn notification(tag: &str) -> Notification {
    Notification {
        author: "alice".to_string(),
        icon: "icons/alice.png".to_string(),
        image: None,
        body: "hello".to_string(),
        tag: tag.to_string(),
        timestamp: 1700000000,
        url: None,
        message: Some("MSG01".to_string()),
        channel: Some("CH01".to_string()),
    }
}

fn sorted(mut v: Vec<String>) -> Vec<String> {
    v.sort();
    v
}

#[test]
fn one_recipient_online_is_dropped() {
    let mut backlog = Backlog::new(16);
    queue(
        &mut backlog,
        strings(&["u1", "u2", "u3"]),
        &strings(&["u2"]),
        notification("t"),
    );
    assert_eq!(backlog.len(), 1);
    let task = backlog.dequeue().unwrap();
    assert_eq!(sorted(task.recipients), strings(&["u1", "u3"]));
}

#[test]
fn empty_recipients_change_nothing() {
    let mut backlog = Backlog::new(16);
    queue(&mut backlog, strings(&[]), &strings(&["u2"]), notification("t"));
    assert_eq!(backlog.len(), 0);
    assert!(backlog.dequeue().is_none());
}

#[test]
fn duplicate_recipients_are_merged() {
    let mut backlog = Backlog::new(16);
    queue(
        &mut backlog,
        strings(&["u1", "u1", "u2", "u1"]),
        &strings(&[]),
        notification("t"),
    );
    let task = backlog.dequeue().unwrap();
    assert_eq!(sorted(task.recipients), strings(&["u1", "u2"]));
}

#[test]
fn all_recipients_online_still_enqueues_empty_task() {
    let mut backlog = Backlog::new(16);
    queue(
        &mut backlog,
        strings(&["u1"]),
        &strings(&["u1"]),
        notification("t"),
    );
    assert_eq!(backlog.len(), 1);
    let task = backlog.dequeue().unwrap();
    assert!(task.recipients.is_empty());
}

#[test]
fn filter_offline_is_set_difference_without_duplicates() {
    let r = filter_offline(
        &strings(&["a", "b", "a", "c", "d", "b"]),
        &strings(&["c", "x"]),
    );
    assert_eq!(sorted(r), strings(&["a", "b", "d"]));
}

#[test]
fn filter_offline_of_nothing_is_empty() {
    let r = filter_offline(&strings(&[]), &strings(&["c"]));
    assert!(r.is_empty());
}

#[test]
fn enqueue_at_capacity_fails_and_size_is_unchanged() {
    let mut backlog = Backlog::new(10_000);
    for i in 0..10_000u32 {
        let task = NotificationTask {
            recipients: strings(&["u1"]),
            payload: notification(&format!("t{}", i)),
        };
        assert!(backlog.try_enqueue(task));
    }
    assert_eq!(backlog.len(), 10_000);
    let extra = NotificationTask {
        recipients: strings(&["u1"]),
        payload: notification("extra"),
    };
    assert!(!backlog.try_enqueue(extra));
    assert_eq!(backlog.len(), 10_000);
}

#[test]
fn queue_on_full_backlog_drops_silently() {
    let mut backlog = Backlog::new(1);
    queue(&mut backlog, strings(&["u1"]), &strings(&[]), notification("a"));
    queue(&mut backlog, strings(&["u2"]), &strings(&[]), notification("b"));
    assert_eq!(backlog.len(), 1);
    let task = backlog.dequeue().unwrap();
    assert_eq!(task.payload.tag, "a");
}

#[test]
fn tasks_leave_in_enqueue_order() {
    let mut backlog = Backlog::new(16);
    queue(&mut backlog, strings(&["u1"]), &strings(&[]), notification("first"));
    queue(&mut backlog, strings(&["u2"]), &strings(&[]), notification("second"));
    queue(&mut backlog, strings(&["u3"]), &strings(&[]), notification("third"));
    assert_eq!(backlog.dequeue().unwrap().payload.tag, "first");
    assert_eq!(backlog.dequeue().unwrap().payload.tag, "second");
    assert_eq!(backlog.dequeue().unwrap().payload.tag, "third");
    assert!(backlog.dequeue().is_none());
}

#[test]
fn capacity_is_reported() {
    let backlog = Backlog::new(7);
    assert_eq!(backlog.capacity(), 7);
    assert_eq!(backlog.len(), 0);
}
