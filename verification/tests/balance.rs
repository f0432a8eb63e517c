use std::collections::HashMap;

use hashring::HashRing;
use octoproxy::addr::SocketAddr;
use octoproxy::client::balance::{
    pick_by_node, populate_load_balance, Balance, Balancer, ConfigBackend, Frist, LeastLoadedTime,
    LoadBalancingAlgorithm, Random, RoundRobin, UriHash,
};
use octoproxy::client::peer::PeerInfo;
use rand::seq::SliceRandom;
use rand::thread_rng;

#[derive(Clone, PartialEq, Debug)]
struct Mock {
    id: usize,
}

fn mock_addr() -> SocketAddr {
    SocketAddr::V4 {
        ip: 0x7f00_0001,
        port: 8080,
    }
}

fn new_host_peer_info(host: &str) -> PeerInfo {
    PeerInfo::new(host.to_owned(), mock_addr())
}

fn empty_host_peer_info() -> PeerInfo {
    PeerInfo::new("".to_owned(), mock_addr())
}

#[test]
fn test_first() {
    let items: Vec<Mock> = (0..=3).into_iter().map(|i| Mock { id: i }).collect();
    let mut load_balance = Frist {};
    for _ in 0..=5 {
        let res = load_balance.next_available_backend(&items, &empty_host_peer_info());
        assert_eq!(res, Some(Mock { id: 0 }))
    }

    let items: Vec<Mock> = Vec::new();
    for _ in 0..=5 {
        let res = load_balance.next_available_backend(&items, &empty_host_peer_info());
        assert_eq!(res, None)
    }
}

#[test]
fn test_round_robin() {
    let count = 3;
    let items: Vec<Mock> = (0..=count).into_iter().map(|i| Mock { id: i }).collect();

    let mut load_balance = RoundRobin::new();

    for i in 0..=count {
        let res = load_balance.next_available_backend(&items, &empty_host_peer_info());
        assert_eq!(res, Some(Mock { id: i }))
    }
}

#[test]
fn round_robin_is_fair_over_several_rounds() {
    let items: Vec<Mock> = (0..3).map(|i| Mock { id: i }).collect();
    let mut load_balance = RoundRobin::new();
    let picked: Vec<usize> = (0..7)
        .map(|_| {
            load_balance
                .next_available_backend(&items, &empty_host_peer_info())
                .unwrap()
                .id
        })
        .collect();
    assert_eq!(picked, vec![0, 1, 2, 0, 1, 2, 0]);
}

#[test]
fn round_robin_finds_nothing_where_items_have_become_fewer() {
    let mut load_balance = RoundRobin::new();
    let items: Vec<Mock> = (0..3).map(|i| Mock { id: i }).collect();
    load_balance.next_available_backend(&items, &empty_host_peer_info());
    load_balance.next_available_backend(&items, &empty_host_peer_info());
    let res = load_balance.next_available_backend(&items[..2], &empty_host_peer_info());
    assert_eq!(res, None);
    let res = load_balance.next_available_backend(&items[..2], &empty_host_peer_info());
    assert_eq!(res, Some(Mock { id: 1 }));
}

#[test]
fn test_random() {
    let items: Vec<Mock> = (0..=2).into_iter().map(|i| Mock { id: i }).collect();

    let mut load_balance = Random {};
    let res = load_balance.next_available_backend(&items, &empty_host_peer_info());
    assert!(res.is_some());

    let items: Vec<Mock> = Vec::new();
    let res = load_balance.next_available_backend(&items, &empty_host_peer_info());
    assert!(res.is_none());
}

#[test]
fn random_picks_one_of_the_items() {
    let items: Vec<Mock> = (10..13).map(|i| Mock { id: i }).collect();
    let mut load_balance = Random {};
    for _ in 0..50 {
        let res = load_balance.next_available_backend(&items, &empty_host_peer_info());
        assert!(items.contains(&res.unwrap()));
    }
}

#[test]
fn test_uri_hash() {
    let count = 3;
    let items: Vec<Mock> = (0..count).into_iter().map(|i| Mock { id: i }).collect();
    let mut ring: HashRing<usize> = HashRing::new();

    for i in 0..items.len() {
        ring.add(i)
    }

    let mut load_balance = UriHash::new(ring);

    let targets: Vec<_> = (0..100)
        .into_iter()
        .map(|i| format!("{0}.{0}.{0}.{0}:80", i))
        .collect();

    let targets_map: HashMap<_, _> = targets
        .iter()
        .map(|u| {
            (
                u,
                load_balance.next_available_backend(&items, &new_host_peer_info(u)),
            )
        })
        .collect();

    let mut rng = thread_rng();

    // randomly select half of the items
    // The result should be the same as the previous one
    for u in targets.choose_multiple(&mut rng, targets.len() / 2) {
        let res = load_balance
            .next_available_backend(&items, &new_host_peer_info(u))
            .unwrap();
        let want = targets_map.get(u).unwrap().as_ref().unwrap();
        assert_eq!(res.id, want.id);
    }
}

#[test]
fn uri_hash_agrees_with_its_ring() {
    let items: Vec<Mock> = (0..5).map(|i| Mock { id: i }).collect();
    let mut ring: HashRing<usize> = HashRing::new();
    for i in 0..items.len() {
        ring.add(i);
    }
    let mut load_balance = UriHash::for_backends(items.len());
    let mut seen = vec![false; items.len()];
    for i in 0..200 {
        let host = format!("host{}.example:443", i);
        let want = *ring.get(&host.as_str()).unwrap();
        let res = load_balance.next_available_backend(&items, &new_host_peer_info(&host));
        assert_eq!(res, Some(Mock { id: want }));
        seen[want] = true;
    }
    assert!(seen.iter().filter(|s| **s).count() > 1);
}

#[test]
fn uri_hash_without_a_ring_falls_back_to_the_first() {
    let items: Vec<Mock> = (0..2).map(|i| Mock { id: i }).collect();
    let mut load_balance = UriHash::new(HashRing::new());
    let res = load_balance.next_available_backend(&items, &new_host_peer_info("a"));
    assert_eq!(res, Some(Mock { id: 0 }));
    let none: Vec<Mock> = Vec::new();
    assert_eq!(
        load_balance.next_available_backend(&none, &new_host_peer_info("a")),
        None
    );
}

#[test]
fn a_node_beyond_the_items_leads_to_the_next_place() {
    let items: Vec<Mock> = (0..3).map(|i| Mock { id: i }).collect();
    assert_eq!(pick_by_node(Some(2), &items), Some(Mock { id: 2 }));
    assert_eq!(pick_by_node(Some(3), &items), Some(Mock { id: 1 }));
    assert_eq!(pick_by_node(Some(4), &items), Some(Mock { id: 2 }));
    assert_eq!(pick_by_node(Some(5), &items), Some(Mock { id: 0 }));
    assert_eq!(
        pick_by_node(Some(usize::MAX), &items[..1]),
        Some(Mock { id: 0 })
    );
    assert_eq!(pick_by_node(None, &items), Some(Mock { id: 0 }));
}

fn loaded(id: usize, cost: f64) -> ConfigBackend {
    ConfigBackend {
        id,
        cost: cost.to_bits(),
    }
}

#[test]
fn test_least_loaded_time() {
    let mut load_balance = LeastLoadedTime {};
    let items = vec![loaded(0, 50.0), loaded(1, 20.5), loaded(2, 20.5), loaded(3, 1e9)];
    let res = load_balance.next_available_backend(&items, &empty_host_peer_info());
    assert_eq!(res, Some(items[1]));

    let res = load_balance.next_available_backend(&items[2..], &empty_host_peer_info());
    assert_eq!(res, Some(items[2]));

    let res = load_balance.next_available_backend(&[], &empty_host_peer_info());
    assert_eq!(res, None);
}

#[test]
fn every_algorithm_can_be_set_up() {
    let items = vec![loaded(4, 3.0), loaded(7, 2.0)];
    let peer = new_host_peer_info("example.com:80");

    let mut b = populate_load_balance(Balance::RoundRobin, 2);
    assert_eq!(b.next_available_backend(&items, &peer), Some(items[0]));
    assert_eq!(b.next_available_backend(&items, &peer), Some(items[1]));

    let mut b = populate_load_balance(Balance::Random, 2);
    assert!(items.contains(&b.next_available_backend(&items, &peer).unwrap()));

    let mut b = populate_load_balance(Balance::LeastLoadedTime, 2);
    assert_eq!(b.next_available_backend(&items, &peer), Some(items[1]));

    let mut b = populate_load_balance(Balance::UriHash, 2);
    let first = b.next_available_backend(&items, &peer);
    assert_eq!(b.next_available_backend(&items, &peer), first);

    let mut b = populate_load_balance(Balance::Frist, 2);
    assert!(matches!(b, Balancer::Frist(_)));
    assert_eq!(b.next_available_backend(&items, &peer), Some(items[0]));
}

#[test]
fn a_node_more_takes_over_only_hosts_of_its_own() {
    let items: Vec<Mock> = (0..9).map(|i| Mock { id: i }).collect();
    let mut fewer = UriHash::for_backends(8);
    let mut more = UriHash::for_backends(9);
    let mut moved = 0;
    for i in 0..300 {
        let peer = new_host_peer_info(&format!("host{}.example:443", i));
        let before = fewer.next_available_backend(&items, &peer).unwrap();
        let after = more.next_available_backend(&items, &peer).unwrap();
        if before != after {
            assert_eq!(after.id, 8);
            moved += 1;
        }
    }
    assert!(moved < 300);
}
