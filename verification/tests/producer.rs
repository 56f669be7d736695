use prometheus_clightning_exporter::producer::{
    Error, LightningMetrics, LoopAction, LoopEvent, Outcome, Poll, ProducerLoop, RecvAction,
    RecvEvent, Subscriber, CHANNEL_DEPTH, MAX_ATTEMPTS,
};
use prometheus_clightning_exporter::responses::{GetInfo, ListFunds};

fn payload(blockheight: u64) -> LightningMetrics {
    LightningMetrics {
        getinfo: GetInfo {
            id: "02ab".to_string(),
            alias: "node".to_string(),
            color: "0000ff".to_string(),
            version: "v0.9.0".to_string(),
            blockheight,
            fees_collected_msat: 0,
            network: "bitcoin".to_string(),
        },
        listfunds: ListFunds { outputs: Vec::new(), channels: Vec::new() },
        listpeers: Vec::new(),
        num_nodes: 3,
        num_channels: 4,
    }
}

/// A loop whose driver waits for the first demand.
fn idle(min_period: u64, call_timeout: u64) -> ProducerLoop {
    let (l, first) = ProducerLoop::new(min_period, call_timeout);
    assert_eq!(first, LoopAction::AwaitDemand);
    l
}

/// A subscriber that is registered, has raised demand and waits.
fn waiting() -> Subscriber {
    let mut s = Subscriber::new();
    assert_eq!(s.step(RecvEvent::Called), Some(RecvAction::Subscribe));
    assert_eq!(s.step(RecvEvent::Subscribed), Some(RecvAction::Signal));
    assert_eq!(s.step(RecvEvent::Signalled), Some(RecvAction::Await));
    s
}

/// Runs one cycle that begins at `start` and is published at `published`;
/// hands back what was published and what the loop asked for after it.
fn cycle(l: &mut ProducerLoop, start: u64, poll: Poll, published: u64) -> (Outcome, LoopAction) {
    assert_eq!(l.step(LoopEvent::Demand { now: start }), Some(LoopAction::Poll { timeout: 5000 }));
    let outcome = match l.step(LoopEvent::Polled(poll)) {
        Some(LoopAction::Publish(outcome)) => outcome,
        other => panic!("the loop does not publish: {:?}", other),
    };
    let next = l.step(LoopEvent::Published { subscribers: 1, now: published }).unwrap();
    (outcome, next)
}

#[test]
fn a_subscriber_registers_before_it_raises_demand() {
    let mut s = Subscriber::new();
    assert_eq!(s.step(RecvEvent::Signalled), None);
    assert_eq!(s.step(RecvEvent::Subscribed), None);
    assert_eq!(s.step(RecvEvent::Called), Some(RecvAction::Subscribe));
    assert_eq!(s.step(RecvEvent::Signalled), None);
    assert_eq!(s.step(RecvEvent::Published(Err(Error::RpcError))), None);
    assert_eq!(s.step(RecvEvent::Subscribed), Some(RecvAction::Signal));
    assert_eq!(s.step(RecvEvent::Lagged), None);
    assert_eq!(s.step(RecvEvent::Signalled), Some(RecvAction::Await));
}

#[test]
fn a_publication_is_handed_back_as_it_is() {
    assert_eq!(
        waiting().step(RecvEvent::Published(Ok(payload(7)))),
        Some(RecvAction::Return(Ok(payload(7))))
    );
    assert_eq!(
        waiting().step(RecvEvent::Published(Err(Error::RpcError))),
        Some(RecvAction::Return(Err(Error::RpcError)))
    );
}

#[test]
fn a_closed_channel_is_fatal() {
    assert_eq!(
        waiting().step(RecvEvent::Closed),
        Some(RecvAction::Return(Err(Error::FatalError)))
    );
}

#[test]
fn one_lag_is_retried() {
    let mut s = waiting();
    assert_eq!(s.step(RecvEvent::Lagged), Some(RecvAction::Await));
    assert_eq!(
        s.step(RecvEvent::Published(Ok(payload(1)))),
        Some(RecvAction::Return(Ok(payload(1))))
    );
}

#[test]
fn two_lags_are_retried() {
    let mut s = waiting();
    assert_eq!(s.step(RecvEvent::Lagged), Some(RecvAction::Await));
    assert_eq!(s.step(RecvEvent::Lagged), Some(RecvAction::Await));
    assert_eq!(
        s.step(RecvEvent::Published(Ok(payload(2)))),
        Some(RecvAction::Return(Ok(payload(2))))
    );
}

#[test]
fn three_lags_in_a_row_are_fatal() {
    assert_eq!(MAX_ATTEMPTS, 3);
    let mut s = waiting();
    assert_eq!(s.step(RecvEvent::Lagged), Some(RecvAction::Await));
    assert_eq!(s.step(RecvEvent::Lagged), Some(RecvAction::Await));
    assert_eq!(s.step(RecvEvent::Lagged), Some(RecvAction::Return(Err(Error::FatalError))));
}

#[test]
fn a_receive_that_has_returned_takes_nothing_more() {
    let mut s = waiting();
    assert!(s.step(RecvEvent::Published(Err(Error::RpcError))).is_some());
    assert_eq!(s.step(RecvEvent::Published(Ok(payload(5)))), None);
    assert_eq!(s.step(RecvEvent::Lagged), None);
    assert_eq!(s.step(RecvEvent::Closed), None);
    assert_eq!(s.step(RecvEvent::Called), None);
}

#[test]
fn waiters_of_one_publication_get_the_same_outcome() {
    let mut fresh = waiting();
    let mut lagged_once = waiting();
    lagged_once.step(RecvEvent::Lagged);
    let mut lagged_twice = waiting();
    lagged_twice.step(RecvEvent::Lagged);
    lagged_twice.step(RecvEvent::Lagged);

    let published: Outcome = Ok(payload(650_000));
    let a = fresh.step(RecvEvent::Published(published.clone()));
    let b = lagged_once.step(RecvEvent::Published(published.clone()));
    let c = lagged_twice.step(RecvEvent::Published(published.clone()));
    assert_eq!(a, Some(RecvAction::Return(published)));
    assert_eq!(a, b);
    assert_eq!(b, c);
}

#[test]
fn the_channel_keeps_one_publication() {
    assert_eq!(CHANNEL_DEPTH, 1);
}

#[test]
fn the_loop_polls_on_demand_only() {
    let mut l = idle(1000, 5000);
    assert_eq!(l.step(LoopEvent::Woke { now: 10 }), None);
    assert_eq!(l.step(LoopEvent::Polled(Poll::Failed)), None);
    assert_eq!(l.step(LoopEvent::Published { subscribers: 1, now: 10 }), None);
    assert_eq!(l.step(LoopEvent::Demand { now: 10 }), Some(LoopAction::Poll { timeout: 5000 }));
}

#[test]
fn one_poll_runs_at_a_time() {
    let mut l = idle(1000, 5000);
    assert!(l.step(LoopEvent::Demand { now: 0 }).is_some());
    assert_eq!(l.step(LoopEvent::Demand { now: 1 }), None);
    assert!(l.step(LoopEvent::Polled(Poll::Failed)).is_some());
    assert_eq!(l.step(LoopEvent::Demand { now: 2 }), None);
    assert_eq!(
        l.step(LoopEvent::Published { subscribers: 1, now: 3 }),
        Some(LoopAction::Sleep { span: 997 })
    );
    assert_eq!(l.step(LoopEvent::Demand { now: 4 }), None);
}

#[test]
fn a_poll_yields_the_metrics_or_the_word_that_the_node_is_down() {
    let mut l = idle(1000, 5000);
    assert_eq!(cycle(&mut l, 0, Poll::Done(payload(9)), 2000).0, Ok(payload(9)));
    assert_eq!(cycle(&mut l, 2000, Poll::Failed, 4000).0, Err(Error::RpcError));
    assert_eq!(cycle(&mut l, 4000, Poll::TimedOut, 9000).0, Err(Error::RpcError));
}

#[test]
fn the_pause_is_what_is_left_of_the_period() {
    let mut l = idle(1000, 5000);
    assert_eq!(cycle(&mut l, 100, Poll::Failed, 100).1, LoopAction::Sleep { span: 1000 });
    assert_eq!(l.step(LoopEvent::Woke { now: 1100 }), Some(LoopAction::AwaitDemand));

    assert_eq!(cycle(&mut l, 2000, Poll::Failed, 2999).1, LoopAction::Sleep { span: 1 });
    assert_eq!(l.step(LoopEvent::Woke { now: 3000 }), Some(LoopAction::AwaitDemand));
}

#[test]
fn a_period_that_has_passed_is_not_slept() {
    let mut l = idle(1000, 5000);
    assert_eq!(cycle(&mut l, 0, Poll::Failed, 1000).1, LoopAction::AwaitDemand);
    assert_eq!(cycle(&mut l, 1000, Poll::Failed, 7000).1, LoopAction::AwaitDemand);
}

#[test]
fn a_sleep_that_ends_early_is_taken_up_again() {
    let mut l = idle(1000, 5000);
    assert_eq!(cycle(&mut l, 0, Poll::Failed, 10).1, LoopAction::Sleep { span: 990 });
    assert_eq!(l.step(LoopEvent::Woke { now: 400 }), Some(LoopAction::Sleep { span: 600 }));
    assert_eq!(l.step(LoopEvent::Woke { now: 999 }), Some(LoopAction::Sleep { span: 1 }));
    assert_eq!(l.step(LoopEvent::Woke { now: 1000 }), Some(LoopAction::AwaitDemand));
}

#[test]
fn the_clock_of_the_loop_never_runs_backwards() {
    let mut l = idle(1000, 5000);
    assert_eq!(cycle(&mut l, 500, Poll::Failed, 800).1, LoopAction::Sleep { span: 700 });
    // An instant before the publication changes nothing.
    assert_eq!(l.step(LoopEvent::Woke { now: 100 }), Some(LoopAction::Sleep { span: 700 }));
    assert_eq!(l.step(LoopEvent::Woke { now: 1500 }), Some(LoopAction::AwaitDemand));
    // Demand stamped with an earlier instant begins a cycle at the latest one known.
    assert_eq!(cycle(&mut l, 0, Poll::Failed, 1600).1, LoopAction::Sleep { span: 900 });
}

#[test]
fn a_period_of_zero_never_sleeps() {
    let mut l = idle(0, 5000);
    assert_eq!(cycle(&mut l, 5, Poll::Failed, 5).1, LoopAction::AwaitDemand);
    assert_eq!(cycle(&mut l, 5, Poll::Failed, 5).1, LoopAction::AwaitDemand);
}

#[test]
fn instants_at_the_end_of_the_range_do_not_overflow() {
    let mut l = idle(u64::MAX, u64::MAX);
    assert_eq!(l.step(LoopEvent::Demand { now: u64::MAX - 1 }), Some(LoopAction::Poll { timeout: u64::MAX }));
    assert!(l.step(LoopEvent::Polled(Poll::TimedOut)).is_some());
    assert_eq!(
        l.step(LoopEvent::Published { subscribers: 0, now: u64::MAX }),
        Some(LoopAction::Sleep { span: u64::MAX - 1 })
    );
}

#[test]
fn cycles_under_continuous_demand_keep_their_distance() {
    let mut l = idle(1000, 5000);
    let mut now: u64 = 17;
    let mut starts = Vec::new();
    for round in 0..5u64 {
        // Demand is there at once.
        assert_eq!(l.step(LoopEvent::Demand { now }), Some(LoopAction::Poll { timeout: 5000 }));
        starts.push(now);
        now += 50 + 400 * round;
        assert!(l.step(LoopEvent::Polled(Poll::Done(payload(round)))).is_some());
        let mut action = l.step(LoopEvent::Published { subscribers: 1, now }).unwrap();
        while let LoopAction::Sleep { span } = action {
            now += span;
            action = l.step(LoopEvent::Woke { now }).unwrap();
        }
        assert_eq!(action, LoopAction::AwaitDemand);
    }
    assert_eq!(starts, vec![17, 1017, 2017, 3017, 4267]);
    for pair in starts.windows(2) {
        assert!(pair[1] - pair[0] >= 1000);
    }
}

#[test]
fn a_poll_without_audience_is_no_error() {
    let mut l = idle(1000, 5000);
    assert!(l.step(LoopEvent::Demand { now: 0 }).is_some());
    assert!(l.step(LoopEvent::Polled(Poll::Done(payload(1)))).is_some());
    assert_eq!(
        l.step(LoopEvent::Published { subscribers: 0, now: 50 }),
        Some(LoopAction::Sleep { span: 950 })
    );
    assert_eq!(l.step(LoopEvent::Woke { now: 1000 }), Some(LoopAction::AwaitDemand));
    assert_eq!(l.step(LoopEvent::Demand { now: 1000 }), Some(LoopAction::Poll { timeout: 5000 }));
}

// A period of 1 s and a timeout of 5 s, in milliseconds; the node answers
// after 50 ms. Two receives 10 ms apart get the same payload, and a third one
// 1.2 s later sets off a fresh poll.
#[test]
fn two_scrapes_share_a_poll_and_a_late_one_polls_anew() {
    let mut l = idle(1000, 5000);
    let mut first = waiting();
    assert_eq!(l.step(LoopEvent::Demand { now: 0 }), Some(LoopAction::Poll { timeout: 5000 }));
    // The second receive comes 10 ms later, while the poll is under way.
    let mut second = waiting();

    let published = match l.step(LoopEvent::Polled(Poll::Done(payload(650_000)))) {
        Some(LoopAction::Publish(outcome)) => outcome,
        other => panic!("the loop does not publish: {:?}", other),
    };
    let a = first.step(RecvEvent::Published(published.clone()));
    let b = second.step(RecvEvent::Published(published.clone()));
    assert_eq!(a, Some(RecvAction::Return(Ok(payload(650_000)))));
    assert_eq!(a, b);

    assert_eq!(
        l.step(LoopEvent::Published { subscribers: 2, now: 50 }),
        Some(LoopAction::Sleep { span: 950 })
    );
    assert_eq!(l.step(LoopEvent::Woke { now: 1000 }), Some(LoopAction::AwaitDemand));

    // The third receive, at 1.2 s, finds the loop idle: its demand begins a new cycle.
    let mut third = waiting();
    assert_eq!(l.step(LoopEvent::Demand { now: 1200 }), Some(LoopAction::Poll { timeout: 5000 }));
    let fresh = match l.step(LoopEvent::Polled(Poll::Done(payload(650_001)))) {
        Some(LoopAction::Publish(outcome)) => outcome,
        other => panic!("the loop does not publish: {:?}", other),
    };
    assert_eq!(
        third.step(RecvEvent::Published(fresh)),
        Some(RecvAction::Return(Ok(payload(650_001))))
    );
}

// The socket does not exist: the poll fails at once, long before the timeout,
// and the receive returns that the node is down.
#[test]
fn a_missing_socket_means_the_node_is_down() {
    let mut l = idle(1000, 5000);
    let mut s = waiting();
    assert_eq!(l.step(LoopEvent::Demand { now: 0 }), Some(LoopAction::Poll { timeout: 5000 }));
    let published = match l.step(LoopEvent::Polled(Poll::Failed)) {
        Some(LoopAction::Publish(outcome)) => outcome,
        other => panic!("the loop does not publish: {:?}", other),
    };
    assert_eq!(published, Err(Error::RpcError));
    assert_eq!(
        s.step(RecvEvent::Published(published)),
        Some(RecvAction::Return(Err(Error::RpcError)))
    );
    assert_eq!(
        l.step(LoopEvent::Published { subscribers: 1, now: 1 }),
        Some(LoopAction::Sleep { span: 999 })
    );
}

// The node accepts the connection and never answers: the poll is given
// exactly the timeout, and when that runs out the receive returns that the
// node is down. The next cycle is not held up: the period has long passed.
#[test]
fn a_silent_node_is_down_when_the_timeout_runs_out() {
    let mut l = idle(1000, 5000);
    let mut s = waiting();
    assert_eq!(l.step(LoopEvent::Demand { now: 0 }), Some(LoopAction::Poll { timeout: 5000 }));
    let published = match l.step(LoopEvent::Polled(Poll::TimedOut)) {
        Some(LoopAction::Publish(outcome)) => outcome,
        other => panic!("the loop does not publish: {:?}", other),
    };
    assert_eq!(
        s.step(RecvEvent::Published(published)),
        Some(RecvAction::Return(Err(Error::RpcError)))
    );
    assert_eq!(
        l.step(LoopEvent::Published { subscribers: 1, now: 5000 }),
        Some(LoopAction::AwaitDemand)
    );
    assert_eq!(l.step(LoopEvent::Demand { now: 5000 }), Some(LoopAction::Poll { timeout: 5000 }));
}
