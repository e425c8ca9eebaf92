use hydragate::proxy::Proxy;
use hydragate::registry::{live_upstreams, ProxyPool};
use hydragate::selector::{djb2_hash, pick_index, select_proxy, Draw};
use hydragate::server::ProxyServer;
use hydragate::RotationMode;

fn proxy(id: &str, alive: bool, latency_ms: Option<u64>) -> Proxy {
    Proxy {
        id: id.to_string(),
        protocol: "socks5".to_string(),
        host: "127.0.0.1".to_string(),
        port: 3080,
        user: None,
        pass: None,
        latency_ms,
        is_alive: alive,
    }
}

fn draw(cursor: usize, nanos: u32, epoch_secs: u64) -> Draw {
    Draw { cursor, nanos, epoch_secs }
}

#[test]
fn round_robin_cycles_in_id_order() {
    let alive = vec![proxy("a", true, None), proxy("b", true, None), proxy("c", true, None)];
    let mut cursor: usize = 0;
    let mut picked = Vec::new();
    for _ in 0..5 {
        let p = select_proxy(&alive, &RotationMode::RoundRobin, &mut cursor, "example.com").unwrap();
        picked.push(p.id.clone());
    }
    assert_eq!(picked, vec!["a", "b", "c", "a", "b"]);
    assert_eq!(cursor, 5);
}

#[test]
fn round_robin_counts_are_balanced() {
    let alive = vec![proxy("a", true, None), proxy("b", true, None), proxy("c", true, None)];
    let mut cursor: usize = 0;
    let mut counts = [0usize; 3];
    for _ in 0..7 {
        let p = select_proxy(&alive, &RotationMode::RoundRobin, &mut cursor, "h").unwrap();
        let i = alive.iter().position(|q| q.id == p.id).unwrap();
        counts[i] += 1;
    }
    assert_eq!(counts, [3, 2, 2]);
}

#[test]
fn round_robin_cursor_wraps() {
    let alive = vec![proxy("a", true, None), proxy("b", true, None)];
    let mut cursor: usize = usize::MAX;
    let p = select_proxy(&alive, &RotationMode::RoundRobin, &mut cursor, "h").unwrap();
    assert_eq!(p.id, if usize::MAX % 2 == 0 { "a" } else { "b" });
    assert_eq!(cursor, 0);
}

#[test]
fn empty_live_set_selects_nothing() {
    let alive: Vec<Proxy> = Vec::new();
    let modes = [
        RotationMode::RoundRobin,
        RotationMode::Random,
        RotationMode::LeastLatency,
        RotationMode::Weighted,
        RotationMode::TimeSticky,
        RotationMode::IpSticky,
    ];
    for m in modes.iter() {
        let mut cursor: usize = 3;
        assert!(select_proxy(&alive, m, &mut cursor, "example.com").is_none());
        assert_eq!(cursor, 3);
        assert_eq!(pick_index(&alive, *m, draw(0, 0, 0), "example.com"), None);
    }
}

#[test]
fn djb2_known_values() {
    assert_eq!(djb2_hash(""), 5381);
    assert_eq!(djb2_hash("a"), 5381 * 33 + 97);
    assert_eq!(djb2_hash("example.com"), 13873058190109054910);
}

#[test]
fn ip_sticky_uses_djb2_of_target() {
    let alive = vec![proxy("x", true, None), proxy("y", true, None), proxy("z", true, None)];
    let first = pick_index(&alive, RotationMode::IpSticky, draw(0, 0, 0), "example.com");
    assert_eq!(first, Some(2));
    let again = pick_index(&alive, RotationMode::IpSticky, draw(17, 999, 123456), "example.com");
    assert_eq!(again, first);
    let mut cursor: usize = 0;
    let p = select_proxy(&alive, &RotationMode::IpSticky, &mut cursor, "example.com").unwrap();
    assert_eq!(p.id, "z");
    assert_eq!(cursor, 0);
}

#[test]
fn least_latency_prefers_lowest_and_first_on_ties() {
    let alive = vec![
        proxy("a", true, None),
        proxy("b", true, Some(300)),
        proxy("c", true, Some(120)),
        proxy("d", true, Some(120)),
    ];
    assert_eq!(pick_index(&alive, RotationMode::LeastLatency, draw(0, 0, 0), "h"), Some(2));
    let unmeasured = vec![proxy("a", true, None), proxy("b", true, None)];
    assert_eq!(pick_index(&unmeasured, RotationMode::LeastLatency, draw(0, 0, 0), "h"), Some(0));
    let huge = vec![proxy("a", true, None), proxy("b", true, Some(u64::MAX))];
    assert_eq!(pick_index(&huge, RotationMode::LeastLatency, draw(0, 0, 0), "h"), Some(1));
}

#[test]
fn weighted_fallback_with_unmeasured_latencies() {
    let alive = vec![proxy("a", true, None), proxy("b", true, None)];
    assert_eq!(pick_index(&alive, RotationMode::Weighted, draw(0, 0, 0), "h"), Some(0));
    assert_eq!(pick_index(&alive, RotationMode::Weighted, draw(0, 5000, 0), "h"), Some(0));
    assert_eq!(pick_index(&alive, RotationMode::Weighted, draw(0, 5001, 0), "h"), Some(1));
    assert_eq!(pick_index(&alive, RotationMode::Weighted, draw(0, 10001, 0), "h"), Some(1));
    // 10002 is the total weight, so the draw wraps to zero.
    assert_eq!(pick_index(&alive, RotationMode::Weighted, draw(0, 10002, 0), "h"), Some(0));
}

#[test]
fn weighted_favours_low_latency() {
    // weights: latency 0 -> 10001, latency 20000 -> 2
    let alive = vec![proxy("fast", true, Some(0)), proxy("slow", true, Some(20000))];
    assert_eq!(pick_index(&alive, RotationMode::Weighted, draw(0, 10000, 0), "h"), Some(0));
    assert_eq!(pick_index(&alive, RotationMode::Weighted, draw(0, 10001, 0), "h"), Some(1));
    assert_eq!(pick_index(&alive, RotationMode::Weighted, draw(0, 10002, 0), "h"), Some(1));
    assert_eq!(pick_index(&alive, RotationMode::Weighted, draw(0, 10003, 0), "h"), Some(0));
}

#[test]
fn time_sticky_uses_ten_minute_windows() {
    let alive = vec![proxy("a", true, None), proxy("b", true, None), proxy("c", true, None)];
    assert_eq!(pick_index(&alive, RotationMode::TimeSticky, draw(0, 0, 0), "h"), Some(0));
    assert_eq!(pick_index(&alive, RotationMode::TimeSticky, draw(0, 0, 599), "h"), Some(0));
    assert_eq!(pick_index(&alive, RotationMode::TimeSticky, draw(0, 0, 600), "h"), Some(1));
    assert_eq!(pick_index(&alive, RotationMode::TimeSticky, draw(0, 0, 1800), "h"), Some(0));
}

#[test]
fn random_uses_nanos_modulo_count() {
    let alive = vec![proxy("a", true, None), proxy("b", true, None), proxy("c", true, None)];
    assert_eq!(pick_index(&alive, RotationMode::Random, draw(0, 7, 0), "h"), Some(1));
    let mut cursor: usize = 9;
    assert!(select_proxy(&alive, &RotationMode::Random, &mut cursor, "h").is_some());
    assert_eq!(cursor, 9);
}

#[test]
fn live_upstreams_are_alive_and_sorted() {
    let mut pool = ProxyPool::new();
    pool.add(proxy("c", true, None));
    pool.add(proxy("a", true, Some(10)));
    pool.add(proxy("d", false, None));
    pool.add(proxy("b", true, None));
    let live = live_upstreams(&pool);
    let ids: Vec<&str> = live.iter().map(|p| p.id.as_str()).collect();
    assert_eq!(ids, vec!["a", "b", "c"]);
}

#[test]
fn server_chooses_among_live_upstreams() {
    let mut pool = ProxyPool::new();
    pool.add(proxy("b", true, None));
    pool.add(proxy("a", true, None));
    pool.add(proxy("z", false, None));
    let mut server = ProxyServer::new(10808);
    let first = server.choose_upstream(&pool, server.rotation_mode(), "example.com").unwrap();
    let second = server.choose_upstream(&pool, server.rotation_mode(), "example.com").unwrap();
    let third = server.choose_upstream(&pool, server.rotation_mode(), "example.com").unwrap();
    assert_eq!((first.id.as_str(), second.id.as_str(), third.id.as_str()), ("a", "b", "a"));
    let empty = ProxyPool::new();
    assert!(server.choose_upstream(&empty, server.rotation_mode(), "example.com").is_none());
}
