use redis_conn::command::RedisCommandKind;
use redis_conn::discovery::{
    read_cluster_nodes, read_cluster_state, topology_text, Discovery, DiscoveryStep, SeedAction, SeedEvent,
    SeedPhase, SeedStep,
};
use redis_conn::error::RedisErrorKind;
use redis_conn::reply::Reply;

const UNREACHABLE: &str = "Could not read cluster state from any known node in the cluster.";

const NODES: &str = "07c37dfeb235213a872192d90877d0cd55635b91 127.0.0.1:30004@31004 slave e7d1eecce10fd6bb5eb35b9f99a514335d9ba9ca 0 1426238317239 4 connected\n\
67ed2db8d677e59ec4a4cefb06858cf2a1a89fa1 127.0.0.1:30002@31002 master - 0 1426238316232 2 connected 5461-10922\n";

fn seeds(hosts: &[&str]) -> Vec<(String, u16)> {
    let mut seeds = Vec::new();
    let mut port: u16 = 7000;
    for host in hosts {
        seeds.push((host.to_string(), port));
        port += 1;
    }
    seeds
}

fn line_count(text: &str) -> Option<usize> {
    if text.is_empty() {
        None
    } else {
        Some(text.lines().count())
    }
}

fn expect_resolve(action: &SeedAction, host: &str, port: u16) {
    match action {
        SeedAction::Resolve { host: h, port: p } => {
            assert_eq!(h, host);
            assert_eq!(*p, port);
        }
        other => panic!("expected a resolution, got {:?}", other),
    }
}

fn proceed(step: DiscoveryStep<usize>) -> (Discovery, SeedAction) {
    match step {
        DiscoveryStep::Continue(scan, action) => (scan, action),
        DiscoveryStep::Found(cache) => panic!("expected an action, got the cache {}", cache),
        DiscoveryStep::Failed(e) => panic!("expected an action, got {:?}", e),
    }
}

#[test]
fn reply_text_is_topology_text() {
    assert_eq!(topology_text(&Reply::BulkString(NODES.as_bytes().to_vec())), Some(NODES.to_string()));
    assert_eq!(topology_text(&Reply::SimpleString("x".to_string())), Some("x".to_string()));
}

#[test]
fn error_and_textless_replies_have_no_topology_text() {
    assert_eq!(topology_text(&Reply::Error("ERR This instance has cluster support disabled".to_string())), None);
    assert_eq!(topology_text(&Reply::Moved("MOVED 1 a:1".to_string())), None);
    assert_eq!(topology_text(&Reply::Ask("ASK 1 a:1".to_string())), None);
    assert_eq!(topology_text(&Reply::Null), None);
    assert_eq!(topology_text(&Reply::Integer(3)), None);
    assert_eq!(topology_text(&Reply::Array(Vec::new())), None);
    assert_eq!(topology_text(&Reply::BulkString(vec![0xc3, 0x28])), None);
}

#[test]
fn seed_goes_through_its_operations_in_order() {
    let step: SeedStep<usize> = read_cluster_state("node-a", false, SeedPhase::Resolving, SeedEvent::Resolved);
    match step {
        SeedStep::Continue(SeedPhase::Connecting, SeedAction::Connect { domain: None }) => {}
        _ => panic!("expected a plain connection"),
    }
    let step: SeedStep<usize> = read_cluster_state("node-a", false, SeedPhase::Connecting, SeedEvent::Connected);
    match step {
        SeedStep::Continue(SeedPhase::Querying, SeedAction::Query(request)) => {
            assert_eq!(request.kind, RedisCommandKind::ClusterNodes);
            assert!(request.args.is_empty());
            assert_eq!(request.attempted, 0);
        }
        _ => panic!("expected the topology request"),
    }
    let step: SeedStep<usize> = read_cluster_state(
        "node-a",
        false,
        SeedPhase::Querying,
        SeedEvent::Replied(Reply::BulkString(NODES.as_bytes().to_vec())),
    );
    match step {
        SeedStep::Continue(SeedPhase::Parsing, SeedAction::Parse(text)) => assert_eq!(text, NODES),
        _ => panic!("expected the text for the parser"),
    }
    let step: SeedStep<usize> = read_cluster_state("node-a", false, SeedPhase::Parsing, SeedEvent::Parsed(2));
    match step {
        SeedStep::Found(2) => {}
        _ => panic!("expected the cache"),
    }
}

#[test]
fn encrypted_seed_connects_with_its_host_as_domain() {
    let step: SeedStep<usize> = read_cluster_state("node-a.example.com", true, SeedPhase::Resolving, SeedEvent::Resolved);
    match step {
        SeedStep::Continue(SeedPhase::Connecting, SeedAction::Connect { domain: Some(domain) }) => {
            assert_eq!(domain, "node-a.example.com")
        }
        _ => panic!("expected an encrypted connection"),
    }
}

#[test]
fn failure_gives_the_seed_up_in_every_phase() {
    for phase in [SeedPhase::Resolving, SeedPhase::Connecting, SeedPhase::Querying, SeedPhase::Parsing] {
        let step: SeedStep<usize> = read_cluster_state("node-a", false, phase, SeedEvent::Failed);
        assert!(matches!(step, SeedStep::Abandon));
    }
}

#[test]
fn event_out_of_turn_gives_the_seed_up() {
    let step: SeedStep<usize> = read_cluster_state("node-a", false, SeedPhase::Resolving, SeedEvent::Parsed(1));
    assert!(matches!(step, SeedStep::Abandon));
    let step: SeedStep<usize> = read_cluster_state("node-a", false, SeedPhase::Querying, SeedEvent::Connected);
    assert!(matches!(step, SeedStep::Abandon));
    let step: SeedStep<usize> = read_cluster_state("node-a", false, SeedPhase::Parsing, SeedEvent::Resolved);
    assert!(matches!(step, SeedStep::Abandon));
    let step: SeedStep<usize> = read_cluster_state(
        "node-a",
        false,
        SeedPhase::Connecting,
        SeedEvent::Replied(Reply::SimpleString("x".to_string())),
    );
    assert!(matches!(step, SeedStep::Abandon));
}

#[test]
fn scan_without_seeds_fails_at_once() {
    match read_cluster_nodes(Vec::new(), false) {
        Err(e) => {
            assert_eq!(e.kind, RedisErrorKind::Unknown);
            assert_eq!(e.details, UNREACHABLE);
        }
        Ok(_) => panic!("expected a failure"),
    }
}

#[test]
fn scan_takes_the_first_seed_that_answers() {
    let (scan, action) = read_cluster_nodes(seeds(&["a", "b", "c", "d"]), false).unwrap();
    expect_resolve(&action, "a", 7000);
    assert_eq!(scan.host(), "a");
    assert_eq!(scan.port(), 7000);

    // a does not resolve
    let (scan, action) = proceed(scan.advance(SeedEvent::Failed));
    expect_resolve(&action, "b", 7001);
    assert_eq!(scan.host(), "b");

    // b connects and answers with an error frame
    let (scan, action) = proceed(scan.advance(SeedEvent::Resolved));
    assert!(matches!(action, SeedAction::Connect { domain: None }));
    let (scan, action) = proceed(scan.advance(SeedEvent::Connected));
    assert!(matches!(action, SeedAction::Query(_)));
    let (scan, action) = proceed(
        scan.advance(SeedEvent::Replied(Reply::Error("ERR This instance has cluster support disabled".to_string()))),
    );
    expect_resolve(&action, "c", 7002);
    assert_eq!(scan.host(), "c");
    assert_eq!(scan.port(), 7002);

    // c answers with a topology text
    let (scan, _) = proceed(scan.advance(SeedEvent::Resolved));
    let (scan, _) = proceed(scan.advance(SeedEvent::Connected));
    let (scan, action) = proceed(scan.advance(SeedEvent::Replied(Reply::BulkString(NODES.as_bytes().to_vec()))));
    let text = match action {
        SeedAction::Parse(text) => text,
        other => panic!("expected the text for the parser, got {:?}", other),
    };
    assert_eq!(text, NODES);
    let cache = line_count(&text).unwrap();
    match scan.advance(SeedEvent::Parsed(cache)) {
        DiscoveryStep::Found(found) => assert_eq!(found, 2),
        _ => panic!("expected the cache of the third seed"),
    }
}

#[test]
fn scan_fails_after_every_seed_was_tried_once_in_order() {
    let (mut scan, action) = read_cluster_nodes(seeds(&["a", "b", "c"]), true).unwrap();
    let mut tried = Vec::new();
    let mut action = action;
    let failure = loop {
        match &action {
            SeedAction::Resolve { host, port } => tried.push((host.clone(), *port)),
            other => panic!("expected a resolution, got {:?}", other),
        }
        match scan.advance(SeedEvent::<usize>::Failed) {
            DiscoveryStep::Continue(next, next_action) => {
                scan = next;
                action = next_action;
            }
            DiscoveryStep::Failed(e) => break e,
            DiscoveryStep::Found(_) => panic!("nothing was parsed"),
        }
    };
    assert_eq!(tried, seeds(&["a", "b", "c"]));
    assert_eq!(failure.kind, RedisErrorKind::Unknown);
    assert_eq!(failure.details, UNREACHABLE);
}

#[test]
fn scan_moves_on_from_each_kind_of_failure() {
    let (scan, _) = read_cluster_nodes(seeds(&["a", "b", "c", "d", "e", "f"]), true).unwrap();
    // a: connection fails
    let (scan, action) = proceed(scan.advance(SeedEvent::Resolved));
    match action {
        SeedAction::Connect { domain: Some(domain) } => assert_eq!(domain, "a"),
        other => panic!("expected an encrypted connection, got {:?}", other),
    }
    let (scan, action) = proceed(scan.advance(SeedEvent::Failed));
    expect_resolve(&action, "b", 7001);
    // b: request fails
    let (scan, _) = proceed(scan.advance(SeedEvent::Resolved));
    let (scan, _) = proceed(scan.advance(SeedEvent::Connected));
    let (scan, action) = proceed(scan.advance(SeedEvent::Failed));
    expect_resolve(&action, "c", 7002);
    // c: reply has no text
    let (scan, _) = proceed(scan.advance(SeedEvent::Resolved));
    let (scan, _) = proceed(scan.advance(SeedEvent::Connected));
    let (scan, action) = proceed(scan.advance(SeedEvent::Replied(Reply::Null)));
    expect_resolve(&action, "d", 7003);
    // d: reply is no valid text
    let (scan, _) = proceed(scan.advance(SeedEvent::Resolved));
    let (scan, _) = proceed(scan.advance(SeedEvent::Connected));
    let (scan, action) = proceed(scan.advance(SeedEvent::Replied(Reply::BulkString(vec![0xff]))));
    expect_resolve(&action, "e", 7004);
    // e: text does not parse
    let (scan, _) = proceed(scan.advance(SeedEvent::Resolved));
    let (scan, _) = proceed(scan.advance(SeedEvent::Connected));
    let (scan, action) = proceed(scan.advance(SeedEvent::Replied(Reply::BulkString(Vec::new()))));
    let text = match action {
        SeedAction::Parse(text) => text,
        other => panic!("expected the text for the parser, got {:?}", other),
    };
    assert_eq!(line_count(&text), None);
    let (scan, action) = proceed(scan.advance(SeedEvent::Failed));
    expect_resolve(&action, "f", 7005);
    // f: the last seed fails too
    match scan.advance(SeedEvent::<usize>::Failed) {
        DiscoveryStep::Failed(e) => {
            assert_eq!(e.kind, RedisErrorKind::Unknown);
            assert_eq!(e.details, UNREACHABLE);
        }
        _ => panic!("expected the scan to fail"),
    }
}

#[test]
fn same_text_gives_the_same_cache_twice() {
    let mut caches = Vec::new();
    for _ in 0..2 {
        let (scan, _) = read_cluster_nodes(seeds(&["a"]), false).unwrap();
        let (scan, _) = proceed(scan.advance(SeedEvent::Resolved));
        let (scan, _) = proceed(scan.advance(SeedEvent::Connected));
        let (scan, action) = proceed(scan.advance(SeedEvent::Replied(Reply::BulkString(NODES.as_bytes().to_vec()))));
        let text = match action {
            SeedAction::Parse(text) => text,
            other => panic!("expected the text for the parser, got {:?}", other),
        };
        match scan.advance(SeedEvent::Parsed(line_count(&text).unwrap())) {
            DiscoveryStep::Found(cache) => caches.push((text, cache)),
            _ => panic!("expected a cache"),
        }
    }
    assert_eq!(caches[0], caches[1]);
}
