//! The byte-level boundary: packet parsing, contact records, the eth2 fork
//! field, identity conversions, and the discovery cache - exercised against
//! the real outside crates.

use enr::{CombinedKey, EnrKey, EnrPublicKey};
use ray::discovery::{
    boot_enr_texts, boot_enrs, boot_multiaddrs, contact_from_enr, contact_to_dial_addrs,
    on_dial_failure, ContactRecord, DialErrorKind, Discovery, DiscoveryEvent,
};
use ray::enr::eth2_fork_id;
use ray::identity::{enr_to_peer_id, peer_id_to_node_id};
use ray::packet::{is_sent_packet, parse_tcp, skip_ethernet_header};
use ray::status::ForkDigest;
use ray::types::{IpAddress, PeerId, SocketAddress, Transport};

#[test]
fn node_id_matches_the_dht_derivation() {
    // Derive the node id from the transport peer id and check it against
    // the DHT library's own derivation for the same key.
    let key = CombinedKey::generate_secp256k1();
    let record = enr::Enr::empty(&key).unwrap();
    let expected = record.node_id().raw().to_vec();

    let compressed = match key.public() {
        enr::CombinedPublicKey::Secp256k1(pk) => pk.encode().to_vec(),
        enr::CombinedPublicKey::Ed25519(pk) => pk.encode().to_vec(),
    };
    let lp_key = libp2p_identity::secp256k1::PublicKey::try_from_bytes(&compressed).unwrap();
    let public_key: libp2p_identity::PublicKey = lp_key.into();
    let peer_bytes = libp2p_identity::PeerId::from(public_key).to_bytes();

    let node_id = peer_id_to_node_id(&PeerId::new(peer_bytes)).unwrap();
    assert_eq!(node_id, expected);
}

#[test]
fn peer_id_to_node_id_rejects_garbage() {
    assert!(peer_id_to_node_id(&PeerId::new(vec![])).is_err());
    assert!(peer_id_to_node_id(&PeerId::new(vec![0, 36, 8, 1, 18, 32, 1, 2, 3])).is_err());
}

#[test]
fn boot_records_parse_and_resolve() {
    assert_eq!(boot_enr_texts().len(), 4);
    let records = boot_enrs();
    assert_eq!(records.len(), 4);

    // Hold the extracted endpoints against the DHT library's own reading of
    // the same records.
    for (record, text) in records.iter().zip(boot_enr_texts()) {
        let oracle: enr::Enr<CombinedKey> = text.parse().unwrap();
        let contact = contact_from_enr(record);
        assert_eq!(contact.ip4, oracle.ip4().map(u32::from));
        assert_eq!(contact.tcp4, oracle.tcp4());
        assert_eq!(contact.udp4, oracle.udp4());
    }
}

#[test]
fn boot_peer_ids_match_the_transport_derivation() {
    let records = boot_enrs();
    let texts = boot_enr_texts();
    let oracle: enr::Enr<CombinedKey> = texts[0].parse().unwrap();
    let compressed = match oracle.public_key() {
        enr::CombinedPublicKey::Secp256k1(pk) => pk.encode().to_vec(),
        enr::CombinedPublicKey::Ed25519(pk) => pk.encode().to_vec(),
    };
    let lp_key = libp2p_identity::secp256k1::PublicKey::try_from_bytes(&compressed).unwrap();
    let public_key: libp2p_identity::PublicKey = lp_key.into();
    let expected = libp2p_identity::PeerId::from(public_key).to_bytes();

    let peer = enr_to_peer_id(&records[0]).unwrap();
    assert_eq!(peer.as_bytes(), &expected);
}

#[test]
fn boot_addresses_are_tcp_only() {
    let addrs = boot_multiaddrs();
    assert!(!addrs.is_empty());
    for a in &addrs {
        assert_eq!(a.transport, Transport::Tcp);
    }
    // Only the boot records advertising a TCP port contribute.
    let records = boot_enrs();
    let with_tcp = records
        .iter()
        .filter(|r| contact_from_enr(r).tcp4.is_some() || contact_from_enr(r).tcp6.is_some())
        .count();
    assert_eq!(addrs.len(), with_tcp);
}

#[test]
fn eth2_field_decodes_fork_data() {
    let records = boot_enrs();
    let fork_id = eth2_fork_id(&records[0]).unwrap();
    // The first boot record advertises fork digest d54cf597, next fork
    // version 00002009, and no next fork (the far-future epoch).
    assert_eq!(fork_id.fork_digest, ForkDigest::new(0xd5, 0x4c, 0xf5, 0x97));
    assert_eq!(
        (fork_id.next_fork_version.b0, fork_id.next_fork_version.b1,
         fork_id.next_fork_version.b2, fork_id.next_fork_version.b3),
        (0x00, 0x00, 0x20, 0x09)
    );
    assert_eq!(fork_id.next_fork_epoch, u64::MAX);
}

#[test]
fn contact_addresses_follow_the_record() {
    let contact = ContactRecord {
        ip4: Some(0x0a000001),
        tcp4: Some(9000),
        udp4: Some(9001),
        ip6: None,
        tcp6: None,
        udp6: None,
    };
    let addrs = contact_to_dial_addrs(&contact);
    assert_eq!(
        addrs,
        vec![SocketAddress { ip: IpAddress::V4(0x0a000001), port: 9000, transport: Transport::Tcp }]
    );

    // Without a TCP port nothing is dialable.
    let udp_only = ContactRecord { tcp4: None, ..contact };
    assert_eq!(contact_to_dial_addrs(&udp_only).len(), 0);
}

#[test]
fn discovery_caches_found_records() {
    let mut discovery = Discovery::new();
    assert!(!discovery.has_active_queries());
    discovery.discover_peers();
    assert!(discovery.has_active_queries());

    let peer = PeerId::new(vec![1, 2]);
    let contact = ContactRecord {
        ip4: Some(7),
        tcp4: Some(9000),
        udp4: None,
        ip6: None,
        tcp6: None,
        udp6: None,
    };
    let event = discovery.on_query_result(Some(vec![(peer.clone(), contact)]));
    match event {
        Some(DiscoveryEvent::FoundPeers(ids)) => assert_eq!(ids, vec![peer.clone()]),
        other => panic!("expected found peers, got {:?}", other),
    }
    assert!(!discovery.has_active_queries());

    let addrs = discovery.cached_addresses_of_peer(&peer).unwrap();
    assert_eq!(addrs.len(), 1);
    assert_eq!(addrs[0].port, 9000);

    // A miss stays a miss.
    assert!(discovery.cached_addresses_of_peer(&PeerId::new(vec![9])).is_none());
}

#[test]
fn discovery_query_failures_yield_nothing() {
    let mut discovery = Discovery::new();
    discovery.discover_peers();
    discovery.discover_peers();
    assert!(discovery.on_query_result(None).is_none());
    assert!(discovery.on_query_result(Some(vec![])).is_none());
    assert!(!discovery.has_active_queries());
}

#[test]
fn discovery_cache_is_bounded() {
    let mut discovery = Discovery::new();
    let contact = ContactRecord {
        ip4: Some(1),
        tcp4: Some(1),
        udp4: None,
        ip6: None,
        tcp6: None,
        udp6: None,
    };
    // One more record than the cache holds: the oldest leaves.
    for i in 0..51u8 {
        discovery.cache_record(&PeerId::new(vec![i]), contact);
    }
    assert!(discovery.cached_addresses_of_peer(&PeerId::new(vec![0])).is_none());
    assert!(discovery.cached_addresses_of_peer(&PeerId::new(vec![50])).is_some());
}

#[test]
fn dial_failures_mark_nodes_disconnected_by_kind() {
    // A well-formed peer id, derived from a real key.
    let key = CombinedKey::generate_secp256k1();
    let compressed = match key.public() {
        enr::CombinedPublicKey::Secp256k1(pk) => pk.encode().to_vec(),
        enr::CombinedPublicKey::Ed25519(pk) => pk.encode().to_vec(),
    };
    let lp_key = libp2p_identity::secp256k1::PublicKey::try_from_bytes(&compressed).unwrap();
    let public_key: libp2p_identity::PublicKey = lp_key.into();
    let peer = PeerId::new(libp2p_identity::PeerId::from(public_key).to_bytes());

    assert!(on_dial_failure(&peer, DialErrorKind::Transport).is_some());
    assert!(on_dial_failure(&peer, DialErrorKind::NoAddresses).is_some());
    assert!(on_dial_failure(&peer, DialErrorKind::Aborted).is_none());
    assert!(on_dial_failure(&peer, DialErrorKind::DialPeerConditionFalse).is_none());
}

#[test]
fn parse_tcp_reads_a_well_formed_frame() {
    // 14 bytes of Ethernet, a 20-byte IPv4 header carrying TCP, and a
    // 20-byte TCP header.
    let mut frame = vec![0u8; 14];
    let mut ipv4 = vec![
        0x45, 0, 0, 40, 0, 0, 0, 0, 64, 6, 0, 0, // version/ihl .. protocol 6
        10, 0, 0, 1, // source 10.0.0.1
        10, 0, 0, 2, // destination 10.0.0.2
    ];
    let mut tcp = vec![0u8; 20];
    tcp[0] = 0x1f;
    tcp[1] = 0x90; // source port 8080
    tcp[2] = 0x00;
    tcp[3] = 0x50; // destination port 80
    tcp[12] = 0x50; // data offset 5 words
    frame.append(&mut ipv4);
    frame.append(&mut tcp);

    let info = parse_tcp(&frame, frame.len() as u32).unwrap();
    assert_eq!(info.src.ip, 0x0a000001);
    assert_eq!(info.src.port, 8080);
    assert_eq!(info.dest.ip, 0x0a000002);
    assert_eq!(info.dest.port, 80);
    assert_eq!(info.data_offset, 4 + 20 + 20);

    assert!(is_sent_packet(&info, &vec![0x0a000001]));
    assert!(!is_sent_packet(&info, &vec![0x0a000002]));

    // A too-short capture, a non-IPv4 version, or a non-TCP protocol all
    // parse to nothing.
    assert!(parse_tcp(&frame, 31).is_none());
    let mut not_v4 = frame.clone();
    not_v4[14] = 0x65;
    assert!(parse_tcp(&not_v4, not_v4.len() as u32).is_none());
    let mut not_tcp = frame.clone();
    not_tcp[14 + 9] = 17;
    assert!(parse_tcp(&not_tcp, not_tcp.len() as u32).is_none());
}

#[test]
fn skip_ethernet_header_needs_fourteen_bytes() {
    assert!(skip_ethernet_header(&vec![0u8; 13]).is_err());
    let mut frame = vec![0u8; 14];
    frame.push(42);
    assert_eq!(skip_ethernet_header(&frame).unwrap(), vec![42]);
}

#[test]
fn ed25519_records_are_rejected_for_peer_ids() {
    let key = CombinedKey::generate_ed25519();
    let record = enr::Enr::empty(&key).unwrap();
    let wrapped = ray::discovery::parse_enr(&record.to_base64()).unwrap();
    assert!(enr_to_peer_id(&wrapped).is_err());
}

#[test]
fn records_without_fork_data_are_rejected() {
    let key = CombinedKey::generate_secp256k1();
    let record = enr::Enr::empty(&key).unwrap();
    let wrapped = ray::discovery::parse_enr(&record.to_base64()).unwrap();
    assert!(eth2_fork_id(&wrapped).is_err());
}

#[test]
fn malformed_record_text_is_skipped() {
    assert!(ray::discovery::parse_enr("enr:not-a-record").is_none());
}

#[test]
fn discovery_caches_every_found_record() {
    let mut discovery = Discovery::new();
    discovery.discover_peers();

    let contact = |port: u16| ContactRecord {
        ip4: Some(9),
        tcp4: Some(port),
        udp4: None,
        ip6: None,
        tcp6: None,
        udp6: None,
    };
    let found = vec![
        (PeerId::new(vec![1]), contact(1)),
        (PeerId::new(vec![2]), contact(2)),
        (PeerId::new(vec![3]), contact(3)),
    ];
    discovery.on_query_result(Some(found));

    // Every found record is cached, not just the last one.
    for (i, port) in [(1u8, 1u16), (2, 2), (3, 3)] {
        let addrs = discovery.cached_addresses_of_peer(&PeerId::new(vec![i])).unwrap();
        assert_eq!(addrs[0].port, port);
    }
}
