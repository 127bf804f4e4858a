use dubbo_rpc::address::decode_unix_path;
use dubbo_rpc::address::Address;
use dubbo_rpc::address::PathError;
use dubbo_rpc::address::SocketAddress;
use dubbo_rpc::connect::text_eq;
use dubbo_rpc::connect::Config;
use dubbo_rpc::connect::ConnectError;
use dubbo_rpc::connect::ConnectErrorKind;
use dubbo_rpc::connect::Connector;
use dubbo_rpc::connect::DefaultMakeTransport;
use dubbo_rpc::connect::TargetUri;
use dubbo_rpc::service::InvocationService;
use dubbo_rpc::time::TimeSpan;
use std::task::Context;
use std::task::Poll;
use std::task::Waker;

fn target(scheme: Option<&str>, authority: &str, socket: Option<SocketAddress>) -> TargetUri {
    TargetUri { scheme: scheme.map(|s| s.to_string()), authority: authority.to_string(), socket }
}

fn loopback() -> SocketAddress {
    SocketAddress::V4 { octets: [127, 0, 0, 1], port: 8080 }
}

#[test]
fn test_convert() {
    let authority = "2f746d702f7270632e736f636b";
    assert_eq!(decode_unix_path(authority).unwrap(), "/tmp/rpc.sock");
}

#[test]
fn unix_path_accepts_both_cases_of_digits() {
    assert_eq!(decode_unix_path("2F746D702f7270632E736f636B").unwrap(), "/tmp/rpc.sock");
    assert_eq!(decode_unix_path("").unwrap(), "");
    assert_eq!(decode_unix_path("c3a4").unwrap(), "\u{e4}");
}

#[test]
fn unix_path_rejects_what_is_not_hex() {
    assert_eq!(decode_unix_path("2f7"), Err(PathError::NotHex));
    assert_eq!(decode_unix_path("2g"), Err(PathError::NotHex));
    assert_eq!(decode_unix_path("/tmp/rpc.sock"), Err(PathError::NotHex));
    assert_eq!(decode_unix_path("2f 4"), Err(PathError::NotHex));
}

#[test]
fn unix_path_rejects_what_is_not_utf8() {
    assert_eq!(decode_unix_path("ff"), Err(PathError::NotUtf8));
    assert_eq!(decode_unix_path("c328"), Err(PathError::NotUtf8));
    assert_eq!(decode_unix_path("2f80"), Err(PathError::NotUtf8));
}

#[test]
fn unix_path_round_trip_through_hex() {
    for path in ["/tmp/rpc.sock", "/var/run/d\u{fc}bbo/\u{4e2d}.sock", "", "a b"] {
        let authority = hex::encode(path);
        assert_eq!(decode_unix_path(&authority).unwrap(), path);
        let t = target(Some("http+unix"), &authority, None);
        match t.resolve() {
            Ok(Address::Unix(p)) => assert_eq!(p, path),
            other => panic!("unexpected {:?}", other),
        }
    }
}

#[test]
fn http_target_is_its_socket_address() {
    let t = target(Some("http"), "127.0.0.1:8080", Some(loopback()));
    match t.resolve() {
        Ok(Address::Ip(SocketAddress::V4 { octets, port })) => {
            assert_eq!(octets, [127, 0, 0, 1]);
            assert_eq!(port, 8080);
        }
        other => panic!("unexpected {:?}", other),
    }
    let v6 = SocketAddress::V6 { segments: [0, 0, 0, 0, 0, 0, 0, 1], port: 443, flowinfo: 0, scope_id: 0 };
    let t = target(Some("http"), "[::1]:443", Some(v6));
    match t.resolve() {
        Ok(Address::Ip(SocketAddress::V6 { segments, port, .. })) => {
            assert_eq!(segments, [0, 0, 0, 0, 0, 0, 0, 1]);
            assert_eq!(port, 443);
        }
        other => panic!("unexpected {:?}", other),
    }
}

#[test]
fn http_target_without_socket_address_is_invalid_input() {
    let t = target(Some("http"), "localhost", None);
    let e = t.resolve().unwrap_err();
    assert_eq!(e, ConnectError::InvalidSocketAddr);
    assert_eq!(e.kind(), ConnectErrorKind::InvalidInput);
    assert_eq!(e.message(), "authority must be valid SocketAddr");
}

#[test]
fn unix_target_errors_name_the_failed_step() {
    let e = target(Some("http+unix"), "zz", None).resolve().unwrap_err();
    assert_eq!(e, ConnectError::InvalidHexPath);
    assert_eq!(e.kind(), ConnectErrorKind::InvalidInput);
    assert_eq!(e.message(), "authority must be hex-encoded path");
    let e = target(Some("http+unix"), "ff", Some(loopback())).resolve().unwrap_err();
    assert_eq!(e, ConnectError::InvalidUtf8Path);
    assert_eq!(e.kind(), ConnectErrorKind::InvalidInput);
    assert_eq!(e.message(), "authority must be valid UTF-8");
}

#[test]
fn other_schemes_are_not_implemented() {
    for scheme in [Some("https"), Some("HTTP"), Some("unix"), Some(""), Some("http+unix "), None] {
        let e = target(scheme, "127.0.0.1:8080", Some(loopback())).resolve().unwrap_err();
        assert_eq!(e, ConnectError::UnsupportedScheme);
        assert_eq!(e.kind(), ConnectErrorKind::Unimplemented);
    }
}

#[test]
fn connector_takes_its_timeouts_from_the_config() {
    let cfg = Config {
        connect_timeout: Some(TimeSpan::from_secs(3)),
        read_timeout: None,
        write_timeout: Some(TimeSpan::from_millis(1500)),
    };
    let connector = Connector::new(Some(cfg));
    let held = connector.0.config();
    assert_eq!(held.connect_timeout, Some(TimeSpan::from_secs(3)));
    assert_eq!(held.read_timeout, None);
    assert_eq!(held.write_timeout, TimeSpan::new(1, 500_000_000));

    let plain = Connector::default().0.config();
    assert_eq!(plain.connect_timeout, None);
    assert_eq!(plain.read_timeout, None);
    assert_eq!(plain.write_timeout, None);
    let made = DefaultMakeTransport::new().config();
    assert_eq!(made.connect_timeout, None);
    assert_eq!(Connector::new(None).0.config().write_timeout, None);
}

#[test]
fn transport_setters_touch_one_timeout_each() {
    let mut mt = DefaultMakeTransport::new();
    mt.set_read_timeout(Some(TimeSpan::from_secs(7)));
    assert_eq!(mt.config().read_timeout, Some(TimeSpan::from_secs(7)));
    assert_eq!(mt.config().connect_timeout, None);
    assert_eq!(mt.config().write_timeout, None);
    mt.set_connect_timeout(Some(TimeSpan::from_secs(1)));
    mt.set_write_timeout(Some(TimeSpan::from_secs(2)));
    mt.set_read_timeout(None);
    assert_eq!(mt.config().connect_timeout, Some(TimeSpan::from_secs(1)));
    assert_eq!(mt.config().read_timeout, None);
    assert_eq!(mt.config().write_timeout, Some(TimeSpan::from_secs(2)));
}

#[test]
fn connector_plans_the_dial() {
    let cfg = Config { connect_timeout: Some(TimeSpan::from_secs(3)), read_timeout: None, write_timeout: None };
    let connector = Connector::new(Some(cfg));
    let dial = connector.plan(&target(Some("http+unix"), "2f746d702f7270632e736f636b", None)).unwrap();
    match dial.address {
        Address::Unix(p) => assert_eq!(p, "/tmp/rpc.sock"),
        other => panic!("unexpected {:?}", other),
    }
    assert_eq!(dial.timeouts.connect_timeout, Some(TimeSpan::from_secs(3)));
    assert_eq!(
        connector.plan(&target(Some("ftp"), "x", None)).unwrap_err(),
        ConnectError::UnsupportedScheme
    );
}

#[test]
fn connector_is_a_service_that_is_always_ready() {
    let mut cx = Context::from_waker(Waker::noop());
    let mut connector = Connector::default();
    assert!(matches!(connector.poll_ready(&mut cx), Poll::Ready(Ok(()))));
    let fut = connector.call(target(Some("http"), "10.0.0.1:1", Some(SocketAddress::V4 { octets: [10, 0, 0, 1], port: 1 })));
    let dial = futures::executor::block_on(fut).unwrap();
    assert!(matches!(dial.address, Address::Ip(SocketAddress::V4 { octets: [10, 0, 0, 1], port: 1 })));
    assert!(matches!(connector.poll_ready(&mut cx), Poll::Ready(Ok(()))));
    let fut = connector.call(target(Some("http"), "nowhere", None));
    assert_eq!(futures::executor::block_on(fut).unwrap_err(), ConnectError::InvalidSocketAddr);
}

#[test]
fn text_eq_compares_whole_texts() {
    assert!(text_eq("http", "http"));
    assert!(!text_eq("http", "http+unix"));
    assert!(!text_eq("http", "Http"));
    assert!(text_eq("", ""));
    assert!(!text_eq("", "a"));
}
