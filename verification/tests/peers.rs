use opensky_node::idset::IdSet;
use opensky_node::peers::{observe, PeerEvent};

#[test]
fn an_empty_set_holds_nothing() {
    let s = IdSet::new();
    assert_eq!(s.len(), 0);
    assert!(!s.contains(""));
    assert!(s.to_vec().is_empty());
}

#[test]
fn insert_adds_once() {
    let mut s = IdSet::new();
    assert!(s.insert("a"));
    assert!(s.insert("b"));
    assert!(!s.insert("a"));
    assert_eq!(s.len(), 2);
    assert!(s.contains("a"));
    assert!(s.contains("b"));
    assert!(!s.contains("c"));
    assert_eq!(s.to_vec(), vec!["a".to_string(), "b".to_string()]);
}

#[test]
fn remove_takes_out_and_keeps_the_order() {
    let mut s = IdSet::new();
    s.insert("a");
    s.insert("b");
    s.insert("c");
    assert!(s.remove("b"));
    assert!(!s.remove("b"));
    assert!(!s.remove("z"));
    assert_eq!(s.to_vec(), vec!["a".to_string(), "c".to_string()]);
    assert!(s.insert("b"));
    assert_eq!(s.to_vec(), vec!["a".to_string(), "c".to_string(), "b".to_string()]);
}

#[test]
fn the_empty_identifier_is_an_identifier() {
    let mut s = IdSet::new();
    assert!(s.insert(""));
    assert!(s.contains(""));
    assert_eq!(s.len(), 1);
}

#[test]
fn peers_come_and_go() {
    let mut peers = IdSet::new();
    observe(&mut peers, &PeerEvent::Discovered("p1".to_string()));
    observe(&mut peers, &PeerEvent::Discovered("p2".to_string()));
    observe(&mut peers, &PeerEvent::Discovered("p1".to_string()));
    assert_eq!(peers.len(), 2);
    observe(&mut peers, &PeerEvent::Expired("p1".to_string()));
    assert!(!peers.contains("p1"));
    assert!(peers.contains("p2"));
    observe(&mut peers, &PeerEvent::Expired("p1".to_string()));
    observe(&mut peers, &PeerEvent::Expired("p9".to_string()));
    assert_eq!(peers.len(), 1);
}

#[test]
fn peers_are_listed_in_the_order_of_discovery() {
    let mut peers = IdSet::new();
    observe(&mut peers, &PeerEvent::Discovered("a".to_string()));
    observe(&mut peers, &PeerEvent::Discovered("b".to_string()));
    observe(&mut peers, &PeerEvent::Discovered("c".to_string()));
    observe(&mut peers, &PeerEvent::Discovered("a".to_string()));
    assert_eq!(peers.to_vec(), vec!["a".to_string(), "b".to_string(), "c".to_string()]);
    observe(&mut peers, &PeerEvent::Expired("a".to_string()));
    observe(&mut peers, &PeerEvent::Expired("b".to_string()));
    assert_eq!(peers.to_vec(), vec!["c".to_string()]);
    observe(&mut peers, &PeerEvent::Expired("z".to_string()));
    observe(&mut peers, &PeerEvent::Discovered("a".to_string()));
    assert_eq!(peers.to_vec(), vec!["c".to_string(), "a".to_string()]);
}
