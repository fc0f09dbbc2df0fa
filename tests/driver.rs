use h2_client_conn::{Action, Client, Event, Phase};

fn feed(c: &mut Client, e: Event) -> Action {
    assert!(c.accepts(e), "{:?} does not answer {:?}", e, c.next_action());
    c.step(e)
}

/// A driver whose handshake is done and whose connection task was started.
fn ready_client() -> Client {
    let mut c = Client::new();
    assert_eq!(c.next_action(), Action::PollHandshake);
    assert_eq!(feed(&mut c, Event::Ready), Action::StartConnection);
    assert_eq!(feed(&mut c, Event::Resumed), Action::PollCapacity);
    c
}

fn item(id: u64, cancelled: bool, end_of_stream: bool) -> Event {
    Event::Item { id, cancelled, end_of_stream }
}

#[test]
fn two_requests_dispatched_within_one_poll() {
    let mut c = ready_client();
    let mut actions = Vec::new();
    let answers = [
        Event::Ready,
        item(1, false, true),
        Event::Accepted,
        Event::Resumed,
        Event::Ready,
        item(2, false, false),
        Event::Accepted,
        Event::Resumed,
        Event::Ready,
        Event::Pending,
    ];
    for e in answers.iter() {
        actions.push(feed(&mut c, *e));
    }
    assert_eq!(
        actions,
        vec![
            Action::PollQueue,
            Action::SendRequest { id: 1, end_of_stream: true },
            Action::SpawnExchange { id: 1, pipe_body: false },
            Action::PollCapacity,
            Action::PollQueue,
            Action::SendRequest { id: 2, end_of_stream: false },
            Action::SpawnExchange { id: 2, pipe_body: true },
            Action::PollCapacity,
            Action::PollQueue,
            Action::Yield,
        ]
    );
    // one poll call: the driver yielded only at the very end
    assert_eq!(actions.iter().filter(|a| **a == Action::Yield).count(), 1);
    assert_eq!(
        actions.iter().filter(|a| matches!(a, Action::SpawnExchange { .. })).count(),
        2
    );
}

#[test]
fn dispatch_follows_queue_order() {
    let mut c = ready_client();
    let mut sent = Vec::new();
    for id in [7u64, 3, 9, 1] {
        assert_eq!(feed(&mut c, Event::Ready), Action::PollQueue);
        if let Action::SendRequest { id: s, .. } = feed(&mut c, item(id, false, true)) {
            sent.push(s);
        }
        assert_eq!(feed(&mut c, Event::Accepted), Action::SpawnExchange { id, pipe_body: false });
        assert_eq!(feed(&mut c, Event::Resumed), Action::PollCapacity);
    }
    assert_eq!(sent, vec![7, 3, 9, 1]);
}

#[test]
fn no_capacity_leaves_queue_untouched() {
    let mut c = ready_client();
    for _ in 0..5 {
        assert_eq!(feed(&mut c, Event::Pending), Action::Yield);
        assert_eq!(c.phase(), Phase::Parked { handshaking: false });
        assert_eq!(feed(&mut c, Event::Resumed), Action::PollCapacity);
    }
    assert_eq!(feed(&mut c, Event::Ready), Action::PollQueue);
}

#[test]
fn cancelled_request_never_reaches_session() {
    let mut c = ready_client();
    assert_eq!(feed(&mut c, Event::Ready), Action::PollQueue);
    assert_eq!(feed(&mut c, item(4, true, false)), Action::DropRequest { id: 4 });
    assert_eq!(feed(&mut c, Event::Resumed), Action::PollCapacity);
    assert_eq!(feed(&mut c, Event::Ready), Action::PollQueue);
    assert_eq!(
        feed(&mut c, item(5, false, false)),
        Action::SendRequest { id: 5, end_of_stream: false }
    );
}

#[test]
fn dispatched_request_proceeds() {
    let mut c = ready_client();
    feed(&mut c, Event::Ready);
    feed(&mut c, item(8, false, false));
    // the only answers are the session's: there is no cancellation event here
    assert!(!c.accepts(item(8, true, false)));
    assert!(!c.accepts(Event::Resumed));
    assert_eq!(feed(&mut c, Event::Accepted), Action::SpawnExchange { id: 8, pipe_body: true });
}

#[test]
fn rejected_dispatch_is_isolated() {
    let mut c = ready_client();
    feed(&mut c, Event::Ready);
    feed(&mut c, item(1, false, true));
    assert_eq!(feed(&mut c, Event::Rejected), Action::FailRequest { id: 1 });
    assert_eq!(feed(&mut c, Event::Resumed), Action::PollCapacity);
    feed(&mut c, Event::Ready);
    assert_eq!(
        feed(&mut c, item(2, false, true)),
        Action::SendRequest { id: 2, end_of_stream: true }
    );
    assert_eq!(feed(&mut c, Event::Accepted), Action::SpawnExchange { id: 2, pipe_body: false });
}

#[test]
fn closed_queue_is_terminal() {
    let mut c = ready_client();
    feed(&mut c, Event::Ready);
    assert_eq!(feed(&mut c, Event::Closed), Action::Finish);
    for _ in 0..3 {
        assert_eq!(c.phase(), Phase::Done);
        assert!(!c.accepts(Event::Ready));
        assert_eq!(feed(&mut c, Event::Resumed), Action::Finish);
    }
}

#[test]
fn handshake_pending_then_resumed() {
    let mut c = Client::new();
    assert_eq!(feed(&mut c, Event::Pending), Action::Yield);
    assert_eq!(feed(&mut c, Event::Resumed), Action::PollHandshake);
    assert_eq!(feed(&mut c, Event::Ready), Action::StartConnection);
}

#[test]
fn handshake_failure_is_fatal() {
    let mut c = Client::new();
    assert_eq!(feed(&mut c, Event::Errored), Action::Fail);
    assert_eq!(c.phase(), Phase::Failed);
    assert_eq!(feed(&mut c, Event::Resumed), Action::Fail);
}

#[test]
fn capacity_failure_is_fatal() {
    let mut c = ready_client();
    assert_eq!(feed(&mut c, Event::Errored), Action::Fail);
}

#[test]
fn mismatched_answers_are_refused() {
    let c = Client::new();
    assert!(!c.accepts(Event::Accepted));
    assert!(!c.accepts(item(1, false, false)));
    let c = ready_client();
    assert!(!c.accepts(Event::Closed));
    assert!(c.accepts(Event::Errored));
}

#[test]
fn each_slot_settled_once() {
    let mut c = ready_client();
    let mut settled = Vec::new();
    let answers = [
        Event::Ready,
        item(1, false, true),
        Event::Rejected,
        Event::Resumed,
        Event::Ready,
        item(2, true, true),
        Event::Resumed,
        Event::Ready,
        item(3, false, false),
        Event::Accepted,
        Event::Resumed,
    ];
    for e in answers.iter() {
        match feed(&mut c, *e) {
            Action::FailRequest { id } | Action::SpawnExchange { id, .. } => settled.push(id),
            _ => {}
        }
    }
    assert_eq!(settled, vec![1, 3]);
}

#[test]
fn handshake_never_repeats() {
    let mut c = ready_client();
    for e in [Event::Pending, Event::Resumed, Event::Ready, Event::Pending, Event::Resumed] {
        assert_ne!(feed(&mut c, e), Action::PollHandshake);
    }
    assert_eq!(c.phase(), Phase::AwaitingCapacity);
}
