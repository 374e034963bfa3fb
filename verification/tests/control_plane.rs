use conduit_proxy::addr::HostAndPort;
use conduit_proxy::backoff::BackoffPoll;
use conduit_proxy::bind::Bind;
use conduit_proxy::bind::Executor;
use conduit_proxy::bind::Protocol;
use conduit_proxy::control::human_error;
use conduit_proxy::control::new;
use conduit_proxy::control::LogErrors;
use conduit_proxy::control::CONTROLLER_BACKOFF_MS;
use conduit_proxy::control::CONTROLLER_CONNECT_TIMEOUT_MS;
use conduit_proxy::origin::AddOrigin;
use conduit_proxy::reconnect::ConnectError;
use conduit_proxy::reconnect::InnerPoll;
use conduit_proxy::reconnect::Reconnect;
use conduit_proxy::reconnect::ReconnectError;
use conduit_proxy::reconnect::ReconnectPoll;
use conduit_proxy::reconnect::ReconnectState;
use conduit_proxy::request::Authority;
use conduit_proxy::request::HttpVersion;
use conduit_proxy::request::Request;
use conduit_proxy::request::Scheme;
use conduit_proxy::request::Uri;
use conduit_proxy::timeout::NewTimeout;

fn controller() -> HostAndPort {
    HostAndPort { host: String::from("proxy-api.example.svc.cluster.local"), port: 8086 }
}

#[test]
fn control_halves_carry_the_connect_deadline() {
    let (control, background) = new();
    assert_eq!(control.disco.authorities.len(), 0);
    assert_eq!(background.connect_timeout.duration_ms, CONTROLLER_CONNECT_TIMEOUT_MS);
    assert_eq!(background.connect_timeout.duration_ms, 3_000);
    assert_eq!(background.connect_timeout.description, Some("discovery connection"));
}

#[test]
fn resolve_registers_the_authority() {
    let bind = Bind::new(Executor { can_spawn: true }, NewTimeout::new(3_000)).with_protocol(
        Protocol::Http2,
    );
    let (mut control, _background) = new();
    let watch = control.resolve(&String::from("web.default.svc.cluster.local"), bind);
    assert_eq!(watch.authority, "web.default.svc.cluster.local");
    assert_eq!(watch.bind.protocol, Protocol::Http2);
    let second = control.resolve(&String::from("api.default.svc.cluster.local"), bind);
    assert_eq!(second.authority, "api.default.svc.cluster.local");
    assert_eq!(
        control.disco.authorities,
        vec![
            String::from("web.default.svc.cluster.local"),
            String::from("api.default.svc.cluster.local"),
        ]
    );
}

#[test]
fn background_builds_the_documented_stack() {
    // reconnect within the five-second floor after a drop: the stack is
    // rebuilt from idle, gated by the fixed backoff, under the
    // three-second connect deadline
    let (_control, background) = new();
    let task = background.bind(&controller(), 500);
    assert_eq!(task.add_origin.scheme, Scheme::Http);
    assert_eq!(task.add_origin.authority.host, controller().host);
    assert_eq!(task.add_origin.authority.port, Some(8086));
    assert_eq!(task.backoff.wait_dur_ms, CONTROLLER_BACKOFF_MS);
    assert_eq!(task.backoff.wait_dur_ms, 5_000);
    assert!(!task.backoff.waiting);
    assert_eq!(task.log_errors.inner.state, ReconnectState::Idle);
    assert_eq!(task.connect_timeout.duration_ms, 3_000);
    assert_eq!(task.report_timeout_ms, 500);
}

#[test]
fn controller_drop_reconnects_after_the_floor() {
    let (_control, background) = new();
    let mut task = background.bind(&controller(), 500);

    // the channel was up, then drops mid-stream
    assert_eq!(task.log_errors.poll_ready(InnerPoll::Ready), ReconnectPoll::Ready);
    let r = task.log_errors.poll_ready(InnerPoll::ServiceFailed(String::from("stream closed")));
    assert!(matches!(r, ReconnectPoll::Failed(ReconnectError::Inner(_))));
    let gate_open = task.backoff.poll_gate(1_000);
    assert!(gate_open);
    task.backoff.on_inner_poll(1_000, conduit_proxy::backoff::InnerReady::Failed);

    // within the floor the reconnecting client is left alone
    assert!(!task.backoff.poll_gate(3_000));
    assert!(!task.backoff.poll_gate(5_999));
    assert_eq!(task.log_errors.inner.connect_attempts, 1);

    // once the floor has passed, the stream is re-issued
    assert!(task.backoff.poll_gate(6_001));
    assert_eq!(task.log_errors.poll_ready(InnerPoll::Pending), ReconnectPoll::NotReady);
    assert_eq!(task.log_errors.inner.state, ReconnectState::Connecting);
    assert_eq!(task.log_errors.inner.connect_attempts, 2);
    assert_eq!(
        task.backoff.on_inner_poll(6_001, conduit_proxy::backoff::InnerReady::NotReady),
        BackoffPoll::NotReady
    );
}

#[test]
fn errors_are_logged_in_human_form() {
    let mut logger = LogErrors::new(Reconnect::new());
    let r = logger.poll_ready(InnerPoll::ConnectFailed(ConnectError::Timeout(String::from(
        "discovery connection",
    ))));
    assert!(matches!(r, ReconnectPoll::Failed(_)));
    assert_eq!(logger.errors_logged, 1);
    assert_eq!(logger.last_logged, Some(String::from("discovery connection")));
}

#[test]
fn human_error_renders_every_variant() {
    assert_eq!(
        human_error(&ReconnectError::Inner(String::from("protocol error"))),
        "protocol error"
    );
    assert_eq!(
        human_error(&ReconnectError::Connect(ConnectError::Transport(String::from(
            "connection refused"
        )))),
        "connection refused"
    );
    assert_eq!(
        human_error(&ReconnectError::Connect(ConnectError::Timeout(String::from(
            "discovery connection"
        )))),
        "discovery connection"
    );
    assert_eq!(human_error(&ReconnectError::NotReady), "bug: called service when not ready");
}

#[test]
fn connect_outcome_classification() {
    let deadline = NewTimeout::new(3_000).with_description("discovery connection");
    // deadline elapsed: a timeout, whatever the transport said
    let r = deadline.connect_outcome(0, 3_000, None).unwrap();
    assert_eq!(r, ConnectError::Timeout(String::from("discovery connection")));
    // within the deadline: the transport error, if any, as itself
    let r = deadline.connect_outcome(0, 2_999, Some(String::from("connection refused")));
    assert_eq!(r, Some(ConnectError::Transport(String::from("connection refused"))));
    assert_eq!(deadline.connect_outcome(0, 2_999, None), None);
    assert!(deadline.expired(0, 3_000));
    assert!(!deadline.expired(0, 2_999));
}

#[test]
fn origin_rewrite_sets_origin_and_keeps_path_and_query() {
    let rewriter = AddOrigin::new(
        Scheme::Http,
        Authority { host: String::from("proxy-api.example.svc.cluster.local"), port: Some(8086) },
    );
    let req = Request {
        version: HttpVersion::H2,
        server_ctx: None,
        uri: Uri {
            scheme: None,
            authority: None,
            path_and_query: Some(String::from("/api/v1/destinations?path=web.default")),
        },
        body: b"payload".to_vec(),
    };
    let out = rewriter.call(req);
    assert_eq!(out.uri.scheme, Some(Scheme::Http));
    let authority = out.uri.authority.clone().unwrap();
    assert_eq!(authority.host, "proxy-api.example.svc.cluster.local");
    assert_eq!(authority.port, Some(8086));
    assert_eq!(
        out.uri.path_and_query,
        Some(String::from("/api/v1/destinations?path=web.default"))
    );
    assert_eq!(out.version, HttpVersion::H2);
    assert_eq!(out.body, b"payload".to_vec());
}

#[test]
fn origin_rewrite_round_trips_through_a_uri_parser() {
    // rebuild the rewritten request as a real URI and parse it back
    let rewriter = AddOrigin::new(
        Scheme::Http,
        Authority { host: String::from("controller.example.com"), port: Some(8086) },
    );
    let req = Request {
        version: HttpVersion::Http11,
        server_ctx: None,
        uri: Uri {
            scheme: None,
            authority: None,
            path_and_query: Some(String::from("/metrics?window=10s&kind=requests")),
        },
        body: Vec::new(),
    };
    let out = rewriter.call(req);

    let authority = out.uri.authority.clone().unwrap();
    let rendered = format!(
        "http://{}:{}{}",
        authority.host,
        authority.port.unwrap(),
        out.uri.path_and_query.clone().unwrap()
    );
    let parsed: http::Uri = rendered.parse().unwrap();
    assert_eq!(parsed.scheme_str(), Some("http"));
    assert_eq!(parsed.host(), Some("controller.example.com"));
    assert_eq!(parsed.port_u16(), Some(8086));
    assert_eq!(parsed.path(), "/metrics");
    assert_eq!(parsed.query(), Some("window=10s&kind=requests"));
}
