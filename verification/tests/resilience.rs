use conduit_proxy::backoff::Backoff;
use conduit_proxy::backoff::BackoffPoll;
use conduit_proxy::backoff::InnerReady;
use conduit_proxy::bind::BoundService;
use conduit_proxy::bind::Bind;
use conduit_proxy::bind::Executor;
use conduit_proxy::bind::Protocol;
use conduit_proxy::addr::SockAddr;
use conduit_proxy::buffer::Buffer;
use conduit_proxy::buffer::InFlightLimit;
use conduit_proxy::buffer::Overloaded;
use conduit_proxy::reconnect::ConnectError;
use conduit_proxy::reconnect::InnerPoll;
use conduit_proxy::reconnect::Reconnect;
use conduit_proxy::reconnect::ReconnectError;
use conduit_proxy::reconnect::ReconnectPoll;
use conduit_proxy::reconnect::ReconnectState;
use conduit_proxy::timeout::NewTimeout;

fn bound_service() -> BoundService {
    let bind = Bind::new(Executor { can_spawn: true }, NewTimeout::new(250));
    bind.bind_service(&SockAddr::v4(10, 0, 0, 5, 8080), Protocol::Http1)
}

#[test]
fn bound_stack_carries_the_connect_deadline() {
    let service = bound_service();
    assert_eq!(service.connect_timeout.duration_ms, 250);
    assert_eq!(service.addr, SockAddr::v4(10, 0, 0, 5, 8080));
}

#[test]
fn backoff_waits_exactly_the_fixed_duration() {
    // inner fails at t=0; still waiting at 4999 ms; open again at 5001 ms
    let mut backoff = Backoff::new(5_000);
    assert!(backoff.poll_gate(0));
    let r = backoff.on_inner_poll(0, InnerReady::Failed);
    assert_eq!(r, BackoffPoll::NotReady);
    assert!(backoff.waiting);

    let mut inner_polls = 0;
    for t in [1u64, 2_500, 4_999] {
        if backoff.poll_gate(t) {
            inner_polls += 1;
        }
    }
    assert_eq!(inner_polls, 0, "inner must not be polled inside the wait");

    assert!(backoff.poll_gate(5_001));
    let r = backoff.on_inner_poll(5_001, InnerReady::Ready);
    assert_eq!(r, BackoffPoll::Ready);
    assert!(!backoff.waiting);
}

#[test]
fn backoff_passes_readiness_through() {
    let mut backoff = Backoff::new(5_000);
    assert!(backoff.poll_gate(10));
    assert_eq!(backoff.on_inner_poll(10, InnerReady::NotReady), BackoffPoll::NotReady);
    assert!(!backoff.waiting);
    assert!(backoff.poll_gate(11));
    assert_eq!(backoff.on_inner_poll(11, InnerReady::Ready), BackoffPoll::Ready);
}

#[test]
fn reconnect_attempts_stay_within_failures_plus_one() {
    let mut reconnect = Reconnect::new();
    let k = 17u64;
    for _ in 0..k {
        let r = reconnect.poll_ready(InnerPoll::ConnectFailed(ConnectError::Transport(
            String::from("connection refused"),
        )));
        assert!(matches!(r, ReconnectPoll::Failed(ReconnectError::Connect(_))));
        assert_eq!(reconnect.state, ReconnectState::Failed);
    }
    assert_eq!(reconnect.failures, k);
    assert!(reconnect.connect_attempts <= k + 1);
    assert_eq!(reconnect.connect_attempts, k);
}

#[test]
fn reconnect_lifecycle() {
    let mut reconnect = Reconnect::new();
    assert_eq!(reconnect.state, ReconnectState::Idle);

    // first poll starts connecting; pending leaves it connecting
    assert_eq!(reconnect.poll_ready(InnerPoll::Pending), ReconnectPoll::NotReady);
    assert_eq!(reconnect.state, ReconnectState::Connecting);
    assert_eq!(reconnect.connect_attempts, 1);

    // the connect completes
    assert_eq!(reconnect.poll_ready(InnerPoll::Ready), ReconnectPoll::Ready);
    assert_eq!(reconnect.state, ReconnectState::Ready);

    // a dispatched request fails: Ready -> Failed, error surfaced
    let err = reconnect.on_call_error(String::from("stream reset"));
    assert_eq!(err, ReconnectError::Inner(String::from("stream reset")));
    assert_eq!(reconnect.state, ReconnectState::Failed);

    // next poll retries
    assert_eq!(reconnect.poll_ready(InnerPoll::Pending), ReconnectPoll::NotReady);
    assert_eq!(reconnect.state, ReconnectState::Connecting);
    assert_eq!(reconnect.connect_attempts, 2);
    assert_eq!(reconnect.failures, 1);
}

#[test]
fn reconnect_call_needs_readiness() {
    let mut reconnect = Reconnect::new();
    assert_eq!(reconnect.check_call(), Some(ReconnectError::NotReady));
    reconnect.poll_ready(InnerPoll::Ready);
    assert_eq!(reconnect.check_call(), None);
}

#[test]
fn in_flight_limit_refuses_over_cap() {
    let buffer = Buffer::new(bound_service(), &Executor { can_spawn: true }).unwrap();
    let mut limit = InFlightLimit::new(buffer, 3);
    assert!(limit.try_start().is_ok());
    assert!(limit.try_start().is_ok());
    assert!(limit.try_start().is_ok());
    assert_eq!(limit.in_flight, 3);
    assert_eq!(limit.try_start(), Err(Overloaded));
    assert_eq!(limit.in_flight, 3);
    limit.complete();
    assert!(limit.try_start().is_ok());
    assert!(limit.in_flight <= limit.max);
}

#[test]
fn buffer_is_fifo() {
    let mut buffer = Buffer::new(bound_service(), &Executor { can_spawn: true }).unwrap();
    buffer.enqueue(7);
    buffer.enqueue(8);
    buffer.enqueue(9);
    assert_eq!(buffer.dequeue(), Some(7));
    assert_eq!(buffer.dequeue(), Some(8));
    buffer.enqueue(10);
    assert_eq!(buffer.dequeue(), Some(9));
    assert_eq!(buffer.dequeue(), Some(10));
    assert_eq!(buffer.dequeue(), None);
}

#[test]
fn buffer_spawn_fails_without_executor_room() {
    let err = Buffer::new(bound_service(), &Executor { can_spawn: false });
    assert!(err.is_err());
}

#[test]
fn request_ids_are_monotonic() {
    let mut bind = Bind::new(Executor { can_spawn: true }, NewTimeout::new(250));
    assert_eq!(bind.next_request_id(), 0);
    assert_eq!(bind.next_request_id(), 1);
    assert_eq!(bind.next_request_id(), 2);
    assert_eq!(bind.req_ids, 3);
}
