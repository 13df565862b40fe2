use myip::dns_error::{TransportError, WireError};
use myip::ip::{
    self, make_request, pick_resolver, prepare, resolver_at, Answer, DiscoveryError, IpAddress,
    RecordType, Transport, ECHO_HOSTNAME, RESOLVERS, TRANSACTION_ID,
};
use myip::resolver::{
    self, setup, IpAddrKind, LookupIpStrategy, DNS_PORT, OPENDNS_IPS_V4, OPENDNS_IPS_V6,
};

#[test]
fn request_is_a_standard_query_for_the_echo_name() {
    for qtype in [RecordType::A, RecordType::AAAA] {
        let request = make_request(qtype);
        assert_eq!(request.transaction_id, 0xABCD);
        assert_eq!(request.transaction_id, TRANSACTION_ID);
        assert!(request.standard_query);
        assert_eq!(request.qname, "myip.opendns.com");
        assert_eq!(request.qname, ECHO_HOSTNAME);
        assert_eq!(request.qtype, qtype);
        assert!(!request.additional);
    }
}

#[test]
fn rotation_walks_round_the_pool() {
    let pool = ["a", "b", "c", "d"];
    assert_eq!(resolver_at(&pool, 0), "a");
    assert_eq!(resolver_at(&pool, 1), "b");
    assert_eq!(resolver_at(&pool, 3), "d");
    assert_eq!(resolver_at(&pool, 4), "a");
    assert_eq!(resolver_at(&pool, 1_700_000_000_123), "d");
    assert_eq!(resolver_at(&pool, u128::MAX), "d");
    assert_eq!(resolver_at(&pool[..1], 977), "a");
}

#[test]
fn picked_resolver_is_one_of_the_pool() {
    for _ in 0..50 {
        let picked = pick_resolver(&RESOLVERS);
        assert!(RESOLVERS.contains(&picked.as_str()));
        let picked = pick_resolver(&RESOLVERS[..2]);
        assert!(RESOLVERS[..2].contains(&picked.as_str()));
        assert_eq!(pick_resolver(&["only"]), "only");
    }
}

#[test]
fn query_for_an_ipv4_address_goes_in_a_datagram() {
    let query = prepare(true);
    assert_eq!(query.transport, Transport::Udp);
    assert_eq!(query.request, make_request(RecordType::A));
    assert!(RESOLVERS.contains(&query.resolver.as_str()));
}

#[test]
fn query_for_an_ipv6_address_goes_over_a_connection() {
    for _ in 0..20 {
        let query = prepare(false);
        assert_eq!(query.transport, Transport::Tcp);
        assert_eq!(query.request, make_request(RecordType::AAAA));
        assert!(RESOLVERS[..2].contains(&query.resolver.as_str()));
    }
}

#[test]
fn first_answer_gives_the_address() {
    let v4 = [203, 0, 113, 9];
    let v6 = [0x20, 0x01, 0x0d, 0xb8, 0, 0, 0, 0, 0, 0, 0, 0, 0, 0, 0, 1];
    assert_eq!(ip::dig(Ok(vec![Answer::A(v4)])), Ok(IpAddress::V4(v4)));
    assert_eq!(ip::dig(Ok(vec![Answer::AAAA(v6)])), Ok(IpAddress::V6(v6)));
    assert_eq!(
        ip::dig(Ok(vec![Answer::A(v4), Answer::AAAA(v6), Answer::Other])),
        Ok(IpAddress::V4(v4))
    );
}

#[test]
fn address_has_the_family_of_the_first_answer() {
    let v4 = [198, 51, 100, 1];
    let v6 = [0xfe, 0x80, 0, 0, 0, 0, 0, 0, 0, 0, 0, 0, 0, 0, 0, 2];
    assert!(matches!(ip::dig(Ok(vec![Answer::A(v4), Answer::AAAA(v6)])), Ok(IpAddress::V4(_))));
    assert!(matches!(ip::dig(Ok(vec![Answer::AAAA(v6), Answer::A(v4)])), Ok(IpAddress::V6(_))));
}

#[test]
fn response_without_answers_is_an_unexpected_response() {
    assert_eq!(ip::dig(Ok(vec![])), Err(DiscoveryError::UnexpectedResponse));
}

#[test]
fn response_that_starts_with_another_record_is_an_unexpected_response() {
    assert_eq!(
        ip::dig(Ok(vec![Answer::Other, Answer::A([192, 0, 2, 1])])),
        Err(DiscoveryError::UnexpectedResponse)
    );
}

#[test]
fn failed_exchange_is_passed_on() {
    assert_eq!(
        ip::dig(Err(TransportError::TruncatedResponse)),
        Err(DiscoveryError::Transport(TransportError::TruncatedResponse))
    );
    assert_eq!(
        ip::dig(Err(TransportError::NetworkError("unreachable".to_string()))),
        Err(DiscoveryError::Transport(TransportError::NetworkError("unreachable".to_string())))
    );
    assert_eq!(
        ip::dig(Err(TransportError::WireError(WireError::IO))),
        Err(DiscoveryError::Transport(TransportError::WireError(WireError::IO)))
    );
}

#[test]
fn setup_for_ipv4_names_the_four_servers() {
    let made = setup(IpAddrKind::V4);
    assert_eq!(made.ip_strategy, LookupIpStrategy::Ipv4Only);
    let addresses: Vec<IpAddress> = made.name_servers.iter().map(|s| s.address).collect();
    assert_eq!(addresses, vec![
        IpAddress::V4([208, 67, 222, 222]),
        IpAddress::V4([208, 67, 220, 220]),
        IpAddress::V4([208, 67, 222, 220]),
        IpAddress::V4([208, 67, 220, 222]),
    ]);
    assert_eq!(addresses.len(), OPENDNS_IPS_V4.len());
    for server in &made.name_servers {
        assert_eq!(server.port, 53);
        assert_eq!(server.port, DNS_PORT);
        assert!(server.trust_negative_responses);
    }
}

#[test]
fn setup_for_ipv6_names_the_two_servers() {
    let made = setup(IpAddrKind::V6);
    assert_eq!(made.ip_strategy, LookupIpStrategy::Ipv6Only);
    let addresses: Vec<IpAddress> = made.name_servers.iter().map(|s| s.address).collect();
    assert_eq!(addresses, vec![
        IpAddress::V6(OPENDNS_IPS_V6[0]),
        IpAddress::V6(OPENDNS_IPS_V6[1]),
    ]);
    // 2620:119:35::35 and 2620:119:53::53
    assert_eq!(OPENDNS_IPS_V6[0], [0x26, 0x20, 0x01, 0x19, 0, 0x35, 0, 0, 0, 0, 0, 0, 0, 0, 0, 0x35]);
    assert_eq!(OPENDNS_IPS_V6[1], [0x26, 0x20, 0x01, 0x19, 0, 0x53, 0, 0, 0, 0, 0, 0, 0, 0, 0, 0x53]);
}

#[test]
fn lookup_gives_its_first_address() {
    let first = IpAddress::V4([203, 0, 113, 80]);
    let second = IpAddress::V4([203, 0, 113, 81]);
    assert_eq!(resolver::dig(Ok(vec![first, second])), Ok(first));
}

#[test]
fn lookup_without_addresses_is_a_failure() {
    assert_eq!(resolver::dig(Ok(vec![])), Err(DiscoveryError::UnexpectedResponse));
}

#[test]
fn failed_lookup_keeps_its_message() {
    assert_eq!(
        resolver::dig(Err("no connections available".to_string())),
        Err(DiscoveryError::Transport(TransportError::NetworkError(
            "no connections available".to_string()
        )))
    );
}

#[test]
fn failed_discovery_has_a_category_and_a_message() {
    let shape = DiscoveryError::UnexpectedResponse;
    assert_eq!(ip::failure_type(&shape), "dns/response");
    assert_eq!(ip::failure_message(shape), "Unknown error");
    let wire = DiscoveryError::Transport(TransportError::WireError(WireError::OutOfBounds(7)));
    assert_eq!(ip::failure_type(&wire), "dns/protocol");
    assert_eq!(ip::failure_message(wire), "Malformed packet: out of bounds (7)");
    let network = DiscoveryError::Transport(TransportError::NetworkError("timed out".to_string()));
    assert_eq!(ip::failure_type(&network), "dns/network");
    assert_eq!(ip::failure_message(network), "timed out");
}
