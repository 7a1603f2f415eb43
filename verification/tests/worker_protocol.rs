use async_curl::worker::{Action, Event, Worker};

#[test]
fn a_fresh_worker_awaits_the_queue() {
    let worker = Worker::new();
    assert_eq!(worker.action(), Action::Receive);
}

#[test]
fn an_envelope_makes_the_worker_serve_it() {
    let mut worker = Worker::new();
    assert!(worker.on(Event::Dequeued));
    assert_eq!(worker.action(), Action::Serve);
}

#[test]
fn a_busy_worker_takes_no_second_envelope() {
    let mut worker = Worker::new();
    assert!(worker.on(Event::Dequeued));
    assert!(!worker.on(Event::Dequeued));
    assert_eq!(worker.action(), Action::Serve);
    assert!(!worker.on(Event::Closed));
    assert_eq!(worker.action(), Action::Serve);
}

#[test]
fn a_failed_transfer_sends_the_worker_back_to_the_queue() {
    let mut worker = Worker::new();
    assert!(worker.on(Event::Dequeued));
    assert!(worker.on(Event::Completed { failed: true, delivered: true }));
    assert_eq!(worker.action(), Action::Receive);
    assert!(worker.on(Event::Dequeued));
    assert_eq!(worker.action(), Action::Serve);
}

#[test]
fn a_caller_that_has_gone_sends_the_worker_back_to_the_queue() {
    let mut worker = Worker::new();
    assert!(worker.on(Event::Dequeued));
    assert!(worker.on(Event::Completed { failed: false, delivered: false }));
    assert_eq!(worker.action(), Action::Receive);
    assert!(worker.on(Event::Dequeued));
    assert_eq!(worker.action(), Action::Serve);
}

#[test]
fn an_idle_worker_is_not_waiting_for_a_completion() {
    let mut worker = Worker::new();
    assert!(!worker.on(Event::Completed { failed: false, delivered: true }));
    assert_eq!(worker.action(), Action::Receive);
}

#[test]
fn a_closed_queue_ends_the_worker_for_good() {
    let mut worker = Worker::new();
    assert!(worker.on(Event::Closed));
    assert_eq!(worker.action(), Action::Stop);
    assert!(!worker.on(Event::Dequeued));
    assert!(!worker.on(Event::Closed));
    assert!(!worker.on(Event::Completed { failed: false, delivered: true }));
    assert_eq!(worker.action(), Action::Stop);
}

#[test]
fn three_envelopes_are_served_one_after_the_other() {
    let mut worker = Worker::new();
    let mut actions = Vec::new();
    let events = [
        Event::Dequeued,
        Event::Completed { failed: false, delivered: true },
        Event::Dequeued,
        Event::Completed { failed: true, delivered: false },
        Event::Dequeued,
        Event::Completed { failed: false, delivered: true },
        Event::Closed,
    ];
    for event in events {
        assert!(worker.on(event));
        actions.push(worker.action());
    }
    assert_eq!(
        actions,
        vec![
            Action::Serve,
            Action::Receive,
            Action::Serve,
            Action::Receive,
            Action::Serve,
            Action::Receive,
            Action::Stop,
        ]
    );
}
