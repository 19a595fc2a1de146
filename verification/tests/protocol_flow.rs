use peer_discovery::peer::PeerRecord;
use peer_discovery::protocol::{DatagramDecision, Discovery, DiscoveryError, IgnoreReason};

fn record(alias: &str, fingerprint: &str, address: &str, port: u16) -> PeerRecord {
    PeerRecord::new(
        alias.to_owned(),
        fingerprint.to_owned(),
        address.to_owned(),
        port,
        "http".to_owned(),
    )
}

fn started(alias: &str, fingerprint: &str, address: &str, port: u16) -> Discovery {
    let mut d = Discovery::new();
    d.set_current_node(record(alias, fingerprint, address, port));
    d.serve("0.0.0.0".to_owned(), "224.0.0.167".to_owned(), 53317)
        .expect("serve must succeed once the identity is set");
    d
}

#[test]
fn announce_without_identity_is_refused() {
    let d = Discovery::new();
    assert_eq!(d.announce_plan(3).unwrap_err(), DiscoveryError::IdentityUnset);
}

#[test]
fn announce_before_serve_is_refused() {
    let mut d = Discovery::new();
    d.set_current_node(record("alpha", "A1", "10.0.0.2", 53317));
    assert_eq!(d.announce_plan(3).unwrap_err(), DiscoveryError::NotStarted);
}

#[test]
fn serve_without_identity_is_refused_but_still_clears() {
    let mut d = Discovery::new();
    d.registry.add_node(record("alpha", "A1", "10.0.0.2", 53317));
    let listener = d.registry.get_node_listener();
    let r = d.serve("0.0.0.0".to_owned(), "224.0.0.167".to_owned(), 53317);
    assert_eq!(r.unwrap_err(), DiscoveryError::IdentityUnset);
    // The clear precedes the identity check: the failed start has already
    // emptied the registry and published the empty snapshot.
    assert_eq!(d.registry.get_nodes().len(), 0);
    assert!(listener.has_changed().unwrap());
    assert_eq!(listener.borrow().len(), 0);
}

#[test]
fn discover_without_identity_is_refused_but_still_clears() {
    let mut d = Discovery::new();
    d.registry.add_node(record("alpha", "A1", "10.0.0.2", 53317));
    d.registry.add_node(record("beta", "B1", "10.0.0.3", 53317));
    let listener = d.registry.get_node_listener();
    assert_eq!(d.discover().unwrap_err(), DiscoveryError::IdentityUnset);
    // The clear is an observable partial effect of the failed call.
    assert_eq!(d.registry.get_nodes().len(), 0);
    assert!(listener.has_changed().unwrap());
    assert_eq!(listener.borrow().len(), 0);
}

#[test]
fn discover_before_serve_is_refused_but_still_clears() {
    let mut d = Discovery::new();
    d.set_current_node(record("alpha", "A1", "10.0.0.2", 53317));
    d.registry.add_node(record("beta", "B1", "10.0.0.3", 53317));
    assert_eq!(d.discover().unwrap_err(), DiscoveryError::NotStarted);
    assert_eq!(d.registry.get_nodes().len(), 0);
}

#[test]
fn serve_plans_both_sockets() {
    let mut d = Discovery::new();
    d.set_current_node(record("alpha", "A1", "10.0.0.2", 53317));
    let plan = d
        .serve("192.168.1.10".to_owned(), "224.0.0.167".to_owned(), 53317)
        .unwrap();
    assert_eq!(plan.interface, "192.168.1.10");
    assert_eq!(plan.group, "224.0.0.167");
    assert_eq!(plan.recv_port, 53317);
    assert_eq!(plan.send_port, 53318);
}

#[test]
fn announce_plan_counts_and_targets() {
    let d = started("alpha", "A1", "10.0.0.2", 53317);
    let plan = d.announce_plan(4).unwrap();
    assert_eq!(plan.count, 4);
    assert_eq!(plan.group, "224.0.0.167");
    assert_eq!(plan.port, 53317);
}

#[test]
fn announce_payload_round_trips_to_identity_fields() {
    let a = started("alpha", "A1", "10.0.0.2", 53317);
    let b = started("beta", "B1", "10.0.0.3", 53317);
    let plan = a.announce_plan(1).unwrap();
    // B receives A's datagram, observing A's source address on the wire.
    match b.handle_datagram(&plan.payload, "10.0.0.2") {
        DatagramDecision::Confirm(p) => {
            assert_eq!(p.alias, "alpha");
            assert_eq!(p.fingerprint, "A1");
            assert_eq!(p.address, "10.0.0.2");
            assert_eq!(p.port, 53317);
            assert_eq!(p.protocol, "http");
        }
        DatagramDecision::Ignore(_) => panic!("an unknown peer must be confirmed"),
    }
}

#[test]
fn source_address_wins_over_payload_address() {
    let a = started("alpha", "A1", "10.9.9.9", 53317);
    let b = started("beta", "B1", "10.0.0.3", 53317);
    let plan = a.announce_plan(1).unwrap();
    // The datagram was observed coming from 10.0.0.2: the record must carry
    // that address, whatever the sender believes its own address is.
    match b.handle_datagram(&plan.payload, "10.0.0.2") {
        DatagramDecision::Confirm(p) => assert_eq!(p.address, "10.0.0.2"),
        DatagramDecision::Ignore(_) => panic!("an unknown peer must be confirmed"),
    }
}

#[test]
fn malformed_payloads_are_dropped_not_fatal() {
    let b = started("beta", "B1", "10.0.0.3", 53317);
    let cases: Vec<&[u8]> = vec![
        b"not json at all",
        b"{\"alias\":\"x\"}",
        b"{\"alias\":\"x\",\"fingerprint\":\"F\",\"port\":70000,\"protocol\":\"http\"}",
        b"",
    ];
    for payload in cases {
        assert!(matches!(
            b.handle_datagram(payload, "10.0.0.2"),
            DatagramDecision::Ignore(IgnoreReason::MalformedPayload)
        ));
    }
}

#[test]
fn own_announce_is_suppressed() {
    let a = started("alpha", "A1", "10.0.0.2", 53317);
    let plan = a.announce_plan(1).unwrap();
    assert!(matches!(
        a.handle_datagram(&plan.payload, "10.0.0.2"),
        DatagramDecision::Ignore(IgnoreReason::SelfAnnounce)
    ));
    assert_eq!(a.registry.get_nodes().len(), 0);
}

#[test]
fn duplicate_announce_is_ignored() {
    let a = started("alpha", "A1", "10.0.0.2", 53317);
    let mut b = started("beta", "B1", "10.0.0.3", 53317);
    let plan = a.announce_plan(1).unwrap();
    let first = b.handle_datagram(&plan.payload, "10.0.0.2");
    let record = match first {
        DatagramDecision::Confirm(p) => p,
        DatagramDecision::Ignore(_) => panic!("first sighting must be confirmed"),
    };
    assert!(b.apply_confirmation(record, true));
    // The same announce again: no callback, no re-announce.
    assert!(matches!(
        b.handle_datagram(&plan.payload, "10.0.0.2"),
        DatagramDecision::Ignore(IgnoreReason::AlreadyKnown)
    ));
}

#[test]
fn failed_confirmation_leaves_no_trace() {
    let a = started("alpha", "A1", "10.0.0.2", 53317);
    let mut b = started("beta", "B1", "10.0.0.3", 53317);
    let plan = a.announce_plan(1).unwrap();
    let record = match b.handle_datagram(&plan.payload, "10.0.0.2") {
        DatagramDecision::Confirm(p) => p,
        DatagramDecision::Ignore(_) => panic!("first sighting must be confirmed"),
    };
    let reannounce = b.apply_confirmation(record, false);
    assert!(!reannounce);
    assert_eq!(b.registry.get_nodes().len(), 0);
    assert!(b.registry.get_node(&"A1".to_owned()).is_none());
}

#[test]
fn registration_request_targets_the_advertised_endpoint() {
    let b = started("beta", "B1", "10.0.0.3", 53317);
    let peer = record("alpha", "A1", "10.0.0.2", 53317);
    let req = b.registration_request(&peer).unwrap();
    assert_eq!(req.url, "http://10.0.0.2:53317/api/localsend/v2/register");
    assert_eq!(req.header_name, "X-My-Header");
    assert_eq!(req.header_value, "Secret");
    // The body is B's own announce: byte-identical to what B broadcasts.
    assert_eq!(req.body, b.announce_plan(1).unwrap().payload);
}

#[test]
fn registration_request_without_identity_is_refused() {
    let d = Discovery::new();
    let peer = record("alpha", "A1", "10.0.0.2", 53317);
    assert_eq!(d.registration_request(&peer).unwrap_err(), DiscoveryError::IdentityUnset);
}

#[test]
fn end_to_end_announce_confirm_reannounce() {
    // Node A announces to the group.
    let a = started("alpha", "A1", "10.0.0.2", 53317);
    let a_plan = a.announce_plan(5).unwrap();
    assert_eq!(a_plan.count, 5);

    // Node B receives one of A's datagrams and decides to confirm A.
    let mut b = started("beta", "B1", "10.0.0.3", 53317);
    let a_record = match b.handle_datagram(&a_plan.payload, "10.0.0.2") {
        DatagramDecision::Confirm(p) => p,
        DatagramDecision::Ignore(_) => panic!("A is unknown to B and must be confirmed"),
    };
    let req = b.registration_request(&a_record).unwrap();
    assert_eq!(req.url, "http://10.0.0.2:53317/api/localsend/v2/register");

    // The callback succeeds: A is registered and one re-announce is owed.
    let reannounce = b.apply_confirmation(a_record, true);
    assert!(reannounce);
    let got = b.registry.get_node(&"A1".to_owned()).unwrap();
    assert_eq!(got.address, "10.0.0.2");
    assert_eq!(got.port, 53317);
    let b_plan = b.announce_plan(1).unwrap();
    assert_eq!(b_plan.count, 1);

    // Node C, with an empty registry, receives B's re-announce (not A's
    // original). The re-announce carries B's own identity, so it is B that C
    // confirms and registers.
    let mut c = started("gamma", "C1", "10.0.0.4", 53317);
    let b_record = match c.handle_datagram(&b_plan.payload, "10.0.0.3") {
        DatagramDecision::Confirm(p) => p,
        DatagramDecision::Ignore(_) => panic!("B is unknown to C and must be confirmed"),
    };
    assert_eq!(b_record.fingerprint, "B1");
    assert!(c.apply_confirmation(b_record, true));
    assert_eq!(c.registry.get_nodes().len(), 1);
    assert!(c.registry.get_node(&"B1".to_owned()).is_some());
}

#[test]
fn discover_clears_and_plans_five_announces() {
    let mut b = started("beta", "B1", "10.0.0.3", 53317);
    for (alias, fp, addr) in [
        ("alpha", "A1", "10.0.0.2"),
        ("gamma", "C1", "10.0.0.4"),
        ("delta", "D1", "10.0.0.5"),
    ] {
        let plan = started(alias, fp, addr, 53317).announce_plan(1).unwrap();
        let rec = match b.handle_datagram(&plan.payload, addr) {
            DatagramDecision::Confirm(p) => p,
            DatagramDecision::Ignore(_) => panic!("unknown peers must be confirmed"),
        };
        b.apply_confirmation(rec, true);
    }
    assert_eq!(b.registry.get_nodes().len(), 3);

    // Restart discovery: the registry is emptied at once, then up to five
    // announces go out before peers are re-learned.
    let plan = b.discover().unwrap();
    assert_eq!(b.registry.get_nodes().len(), 0);
    assert_eq!(plan.count, 5);
    assert_eq!(plan.group, "224.0.0.167");
    assert_eq!(plan.port, 53317);
}

#[test]
fn port_zero_formats_in_url() {
    let b = started("beta", "B1", "10.0.0.3", 53317);
    let peer = record("alpha", "A1", "10.0.0.2", 0);
    let req = b.registration_request(&peer).unwrap();
    assert_eq!(req.url, "http://10.0.0.2:0/api/localsend/v2/register");
}

#[test]
fn largest_port_formats_in_url() {
    let b = started("beta", "B1", "10.0.0.3", 53317);
    let peer = record("alpha", "A1", "10.0.0.2", 65535);
    let req = b.registration_request(&peer).unwrap();
    assert_eq!(req.url, "http://10.0.0.2:65535/api/localsend/v2/register");
}
