use conduit_proxy::addr::SockAddr;
use conduit_proxy::bind::Bind;
use conduit_proxy::bind::BufferSpawnError;
use conduit_proxy::bind::Executor;
use conduit_proxy::bind::Protocol;
use conduit_proxy::ctx::ServerCtx;
use conduit_proxy::ctx::TransportProtocol;
use conduit_proxy::inbound::Inbound;
use conduit_proxy::inbound::MAX_IN_FLIGHT;
use conduit_proxy::request::HttpVersion;
use conduit_proxy::request::Request;
use conduit_proxy::request::Uri;
use conduit_proxy::timeout::NewTimeout;

fn plain_request(version: HttpVersion, server_ctx: Option<ServerCtx>) -> Request {
    Request {
        version,
        server_ctx,
        uri: Uri { scheme: None, authority: None, path_and_query: Some(String::from("/")) },
        body: Vec::new(),
    }
}

fn new_inbound(default: Option<SockAddr>) -> Inbound {
    let bind = Bind::new(Executor { can_spawn: true }, NewTimeout::new(3_000));
    Inbound::new(default, bind)
}

fn ctx(local: SockAddr, remote: SockAddr, orig_dst: Option<SockAddr>) -> ServerCtx {
    ServerCtx::new(local, remote, orig_dst, TransportProtocol::Http)
}

#[test]
fn recognize_orig_dst() {
    let local = SockAddr::v4(127, 0, 0, 1, 4140);
    let remote = SockAddr::v4(192, 168, 0, 2, 51234);
    let orig = SockAddr::v4(10, 0, 0, 5, 8080);
    let inbound = new_inbound(None);
    let req = plain_request(HttpVersion::Http11, Some(ctx(local, remote, Some(orig))));
    assert_eq!(inbound.recognize(&req), Some((orig, Protocol::Http1)));
}

#[test]
fn recognize_orig_dst_http2() {
    // local=127.0.0.1:4140, orig_dst=10.0.0.5:8080, version HTTP/2
    let local = SockAddr::v4(127, 0, 0, 1, 4140);
    let remote = SockAddr::v4(192, 168, 0, 2, 51234);
    let orig = SockAddr::v4(10, 0, 0, 5, 8080);
    let inbound = new_inbound(None);
    let req = plain_request(HttpVersion::H2, Some(ctx(local, remote, Some(orig))));
    assert_eq!(inbound.recognize(&req), Some((orig, Protocol::Http2)));
}

#[test]
fn recognize_default_no_orig_dst() {
    let local = SockAddr::v4(127, 0, 0, 1, 4140);
    let remote = SockAddr::v4(192, 168, 0, 2, 51234);
    let default = SockAddr::v4(10, 0, 0, 9, 80);
    let inbound = new_inbound(Some(default));
    let req = plain_request(HttpVersion::Http11, Some(ctx(local, remote, None)));
    assert_eq!(inbound.recognize(&req), Some((default, Protocol::Http1)));
}

#[test]
fn recognize_default_no_ctx() {
    // no server context, default=Some(10.0.0.9:80), HTTP/1.1
    let default = SockAddr::v4(10, 0, 0, 9, 80);
    let inbound = new_inbound(Some(default));
    let req = plain_request(HttpVersion::Http11, None);
    assert_eq!(inbound.recognize(&req), Some((default, Protocol::Http1)));

    let inbound_none = new_inbound(None);
    let req = plain_request(HttpVersion::Http11, None);
    assert_eq!(inbound_none.recognize(&req), None);
}

#[test]
fn recognize_default_no_loop() {
    // orig_dst equals the local listener: fall through to the default
    let local = SockAddr::v4(127, 0, 0, 1, 4140);
    let remote = SockAddr::v4(192, 168, 0, 2, 51234);
    let inbound = new_inbound(None);
    let req = plain_request(HttpVersion::Http11, Some(ctx(local, remote, Some(local))));
    assert_eq!(inbound.recognize(&req), None);

    let default = SockAddr::v4(10, 0, 0, 9, 80);
    let inbound = new_inbound(Some(default));
    let req = plain_request(HttpVersion::Http11, Some(ctx(local, remote, Some(local))));
    assert_eq!(inbound.recognize(&req), Some((default, Protocol::Http1)));
}

#[test]
fn protocol_mapping() {
    assert_eq!(Protocol::of_version(HttpVersion::H2), Protocol::Http2);
    assert_eq!(Protocol::of_version(HttpVersion::Http11), Protocol::Http1);
    assert_eq!(Protocol::of_version(HttpVersion::Http10), Protocol::Http1);
    assert_eq!(Protocol::of_version(HttpVersion::Http09), Protocol::Http1);
    assert_eq!(Protocol::of_version(HttpVersion::H3), Protocol::Http1);
}

#[test]
fn bind_service_builds_capped_stack() {
    let mut inbound = new_inbound(None);
    let key = (SockAddr::v4(10, 0, 0, 5, 8080), Protocol::Http2);
    let service = inbound.bind_service(&key).unwrap();
    assert_eq!(service.max, MAX_IN_FLIGHT);
    assert_eq!(service.max, 10_000);
    assert_eq!(service.in_flight, 0);
    assert_eq!(service.inner.inner.addr, key.0);
    assert_eq!(service.inner.inner.protocol, Protocol::Http2);
    // the configured data-plane connect deadline reaches the stack
    assert_eq!(service.inner.inner.connect_timeout.duration_ms, 3_000);
}

#[test]
fn bind_service_spawn_failure_is_inbound_error() {
    let bind = Bind::new(Executor { can_spawn: false }, NewTimeout::new(3_000));
    let mut inbound = Inbound::new(None, bind);
    let key = (SockAddr::v4(10, 0, 0, 5, 8080), Protocol::Http1);
    let err = inbound.bind_service(&key).unwrap_err();
    assert_eq!(err, BufferSpawnError::Inbound);
    assert_eq!(err.description(), "error spawning inbound buffer task");
    assert_eq!(BufferSpawnError::Outbound.description(), "error spawning outbound buffer task");
    assert!(err.cause().is_none());
}
