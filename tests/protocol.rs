use hydragate::proxy::Proxy;
use hydragate::registry::ProxyPool;
use hydragate::server::ProxyServer;
use hydragate::socks::{failure_reply, handshake_step, success_reply, HandshakeError, HandshakeState};
use hydragate::text::ipv4_text;
use hydragate::upstream::{connect_request, connect_succeeded, dial_plan, response_complete, DialPlan};

fn feed(state: HandshakeState, input: &[u8]) -> (HandshakeState, Vec<u8>) {
    assert_eq!(state.want(), input.len());
    let step = handshake_step(&state, input);
    (step.state, step.reply)
}

fn upstream(id: &str, protocol: &str, host: &str, port: u16, creds: Option<(&str, &str)>) -> Proxy {
    Proxy {
        id: id.to_string(),
        protocol: protocol.to_string(),
        host: host.to_string(),
        port,
        user: creds.map(|c| c.0.to_string()),
        pass: creds.map(|c| c.1.to_string()),
        latency_ms: None,
        is_alive: true,
    }
}

#[test]
fn happy_socks5_relay() {
    let s = HandshakeState::new();
    let (s, reply) = feed(s, &[0x05, 0x01]);
    assert!(reply.is_empty());
    let (s, reply) = feed(s, &[0x00]);
    assert_eq!(reply, vec![0x05, 0x00]);
    let (s, reply) = feed(s, &[0x05, 0x01, 0x00, 0x01]);
    assert!(reply.is_empty());
    let (s, _) = feed(s, &[0x7f, 0x00, 0x00, 0x01, 0x00, 0x50]);
    let req = match s {
        HandshakeState::Ready(req) => req,
        other => panic!("unexpected state {:?}", other),
    };
    assert_eq!(req.port, 80);
    let host = req.host_text();
    assert_eq!(host, "127.0.0.1");

    let mut pool = ProxyPool::new();
    pool.add(upstream("a", "socks5", "127.0.0.1", 3080, None));
    let mut server = ProxyServer::new(10808);
    let chosen = server.choose_upstream(&pool, server.rotation_mode(), &host).unwrap();
    assert_eq!(chosen.id, "a");
    let target = hydragate::upstream::authority_text(&host, req.port);
    assert_eq!(target, "127.0.0.1:80");
    match dial_plan(&chosen, &target) {
        DialPlan::Socks5 { proxy_addr, target, credentials } => {
            assert_eq!(proxy_addr, "127.0.0.1:3080");
            assert_eq!(target, "127.0.0.1:80");
            assert!(credentials.is_none());
        }
        other => panic!("unexpected plan {:?}", other),
    }
    assert_eq!(success_reply(), vec![0x05, 0x00, 0x00, 0x01, 0, 0, 0, 0, 0, 0]);
}

#[test]
fn no_live_upstream() {
    let s = HandshakeState::new();
    let (s, _) = feed(s, &[0x05, 0x01]);
    let (s, _) = feed(s, &[0x00]);
    let (s, _) = feed(s, &[0x05, 0x01, 0x00, 0x01]);
    let (s, _) = feed(s, &[0x7f, 0x00, 0x00, 0x01, 0x00, 0x50]);
    let req = match s {
        HandshakeState::Ready(req) => req,
        other => panic!("unexpected state {:?}", other),
    };
    let pool = ProxyPool::new();
    let mut server = ProxyServer::new(10808);
    assert!(server.choose_upstream(&pool, server.rotation_mode(), &req.host_text()).is_none());
    assert_eq!(failure_reply(), vec![0x05, 0x04, 0x00, 0x01, 0, 0, 0, 0, 0, 0]);
}

#[test]
fn http_connect_upstream() {
    let s = HandshakeState::new();
    let (s, _) = feed(s, &[0x05, 0x01]);
    let (s, _) = feed(s, &[0x00]);
    let (s, _) = feed(s, &[0x05, 0x01, 0x00, 0x03]);
    let (s, _) = feed(s, &[11]);
    let mut addr = b"example.com".to_vec();
    addr.extend_from_slice(&[0x01, 0xbb]);
    let (s, _) = feed(s, &addr);
    let req = match s {
        HandshakeState::Ready(req) => req,
        other => panic!("unexpected state {:?}", other),
    };
    let host = req.host_text();
    assert_eq!(host, "example.com");
    assert_eq!(req.port, 443);
    let target = hydragate::upstream::authority_text(&host, req.port);
    let p = upstream("h", "http", "10.0.0.1", 3128, Some(("alice", "s3cret")));
    match dial_plan(&p, &target) {
        DialPlan::HttpConnect { proxy_addr, request } => {
            assert_eq!(proxy_addr, "10.0.0.1:3128");
            assert_eq!(
                request,
                "CONNECT example.com:443 HTTP/1.1\r\nHost: example.com:443\r\nProxy-Authorization: Basic YWxpY2U6czNjcmV0\r\n\r\n"
            );
        }
        other => panic!("unexpected plan {:?}", other),
    }
    let resp = b"HTTP/1.1 200 OK\r\n\r\n";
    assert!(response_complete(resp));
    assert!(connect_succeeded(resp));
    assert_eq!(success_reply(), vec![0x05, 0x00, 0x00, 0x01, 0, 0, 0, 0, 0, 0]);
}

#[test]
fn https_upstream_also_uses_http_connect() {
    let p = upstream("s", "https", "proxy.local", 8443, None);
    match dial_plan(&p, "1.1.1.1:443") {
        DialPlan::HttpConnect { proxy_addr, request } => {
            assert_eq!(proxy_addr, "proxy.local:8443");
            assert_eq!(request, "CONNECT 1.1.1.1:443 HTTP/1.1\r\nHost: 1.1.1.1:443\r\n\r\n");
        }
        other => panic!("unexpected plan {:?}", other),
    }
}

#[test]
fn socks5_plan_carries_credentials_only_when_both_present() {
    let p = upstream("s", "socks5", "10.1.1.1", 1080, Some(("bob", "pw")));
    match dial_plan(&p, "example.org:80") {
        DialPlan::Socks5 { credentials, .. } => {
            assert_eq!(credentials, Some(("bob".to_string(), "pw".to_string())));
        }
        other => panic!("unexpected plan {:?}", other),
    }
    let mut half = upstream("t", "socks5", "10.1.1.1", 1080, None);
    half.user = Some("bob".to_string());
    match dial_plan(&half, "example.org:80") {
        DialPlan::Socks5 { credentials, .. } => assert!(credentials.is_none()),
        other => panic!("unexpected plan {:?}", other),
    }
    assert_eq!(connect_request("a:1", &Some("u".to_string()), &None), "CONNECT a:1 HTTP/1.1\r\nHost: a:1\r\n\r\n");
}

#[test]
fn http_response_checks() {
    assert!(!response_complete(b"HTTP/1.1 200 OK\r\n"));
    assert!(response_complete(b"\r\n\r\n"));
    assert!(!response_complete(b""));
    assert!(connect_succeeded(b"HTTP/1.0 200 Connection established\r\n\r\n"));
    assert!(!connect_succeeded(b"HTTP/1.1 407 Proxy Authentication Required\r\n\r\n"));
    assert!(!connect_succeeded(b"HTTP/1.1 20"));
    assert!(!connect_succeeded(b""));
}

#[test]
fn greeting_with_wrong_version_closes() {
    let (s, reply) = feed(HandshakeState::new(), &[0x04, 0x01]);
    assert!(reply.is_empty());
    assert!(matches!(s, HandshakeState::Closed(HandshakeError::NotSocks5)));
}

#[test]
fn non_connect_command_closes() {
    let (s, _) = feed(HandshakeState::new(), &[0x05, 0x00]);
    assert_eq!(s.want(), 0);
    let (s, reply) = feed(s, &[]);
    assert_eq!(reply, vec![0x05, 0x00]);
    let (s, _) = feed(s, &[0x05, 0x02, 0x00, 0x01]);
    assert!(matches!(s, HandshakeState::Closed(HandshakeError::OnlyConnect)));
}

#[test]
fn unknown_address_type_closes() {
    let (s, _) = feed(HandshakeState::new(), &[0x05, 0x02]);
    let (s, _) = feed(s, &[0x00, 0x02]);
    let (s, _) = feed(s, &[0x05, 0x01, 0x00, 0x05]);
    assert!(matches!(s, HandshakeState::Closed(HandshakeError::BadAddressType)));
}

#[test]
fn ipv6_request_keeps_raw_address() {
    let (s, _) = feed(HandshakeState::new(), &[0x05, 0x01]);
    let (s, _) = feed(s, &[0x00]);
    let (s, _) = feed(s, &[0x05, 0x01, 0x00, 0x04]);
    assert_eq!(s.want(), 18);
    let mut input = vec![0u8; 15];
    input.push(1);
    input.extend_from_slice(&[0x1f, 0x90]);
    let (s, _) = feed(s, &input);
    match s {
        HandshakeState::Ready(req) => {
            assert_eq!(req.atyp, 4);
            assert_eq!(req.addr.len(), 16);
            assert_eq!(req.addr[15], 1);
            assert_eq!(req.port, 8080);
            assert_eq!(req.host_text(), "::1");
        }
        other => panic!("unexpected state {:?}", other),
    }
}

#[test]
fn domain_names_are_decoded_lossily() {
    let (s, _) = feed(HandshakeState::new(), &[0x05, 0x01]);
    let (s, _) = feed(s, &[0x00]);
    let (s, _) = feed(s, &[0x05, 0x01, 0x00, 0x03]);
    let (s, _) = feed(s, &[2]);
    let (s, _) = feed(s, &[b'f', 0xff, 0x00, 0x16]);
    match s {
        HandshakeState::Ready(req) => {
            assert_eq!(req.host_text(), "f\u{FFFD}");
            assert_eq!(req.port, 22);
        }
        other => panic!("unexpected state {:?}", other),
    }
}

#[test]
fn ipv4_text_is_dotted_decimal() {
    assert_eq!(ipv4_text(&[192, 168, 0, 10]), "192.168.0.10");
    assert_eq!(ipv4_text(&[0, 0, 0, 0]), "0.0.0.0");
    assert_eq!(ipv4_text(&[255, 255, 255, 255]), "255.255.255.255");
}

#[test]
fn ipv6_host_text_is_compressed_form() {
    let (s, _) = feed(HandshakeState::new(), &[0x05, 0x01]);
    let (s, _) = feed(s, &[0x00]);
    let (s, _) = feed(s, &[0x05, 0x01, 0x00, 0x04]);
    let mut input = vec![0x20, 0x01, 0x0d, 0xb8, 0, 0, 0, 0, 0, 0, 0xff, 0x00, 0x00, 0x42, 0x83, 0x29];
    input.extend_from_slice(&[0x00, 0x50]);
    let (s, _) = feed(s, &input);
    match s {
        HandshakeState::Ready(req) => {
            assert_eq!(req.host_text(), "2001:db8::ff00:42:8329");
            assert_eq!(hydragate::upstream::authority_text(&req.host_text(), req.port), "2001:db8::ff00:42:8329:80");
        }
        other => panic!("unexpected state {:?}", other),
    }
}

#[test]
fn basic_token_padding() {
    let req = connect_request("h:1", &Some("a".to_string()), &Some(String::new()));
    assert_eq!(req, "CONNECT h:1 HTTP/1.1\r\nHost: h:1\r\nProxy-Authorization: Basic YTo=\r\n\r\n");
    let req = connect_request("h:1", &Some("ab".to_string()), &Some("c".to_string()));
    assert_eq!(req, "CONNECT h:1 HTTP/1.1\r\nHost: h:1\r\nProxy-Authorization: Basic YWI6Yw==\r\n\r\n");
}
