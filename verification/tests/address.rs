use diesel_tracing::address::IpOctets;
use diesel_tracing::address::ServerAddress;

#[test]
fn ipv4_host_address_is_printed_in_cidr_notation() {
    let address = ServerAddress::new(IpOctets::V4([10, 0, 0, 5]), 32).unwrap();
    assert_eq!(address.text(), "10.0.0.5/32");
}

#[test]
fn ipv4_network_keeps_its_prefix() {
    let address = ServerAddress::new(IpOctets::V4([192, 168, 1, 0]), 24).unwrap();
    assert_eq!(address.text(), "192.168.1.0/24");
    assert_eq!(address.prefix(), 24);
    assert_eq!(address.ip(), IpOctets::V4([192, 168, 1, 0]));
}

#[test]
fn ipv6_loopback_is_printed_compressed() {
    let mut octets = [0u8; 16];
    octets[15] = 1;
    let address = ServerAddress::new(IpOctets::V6(octets), 128).unwrap();
    assert_eq!(address.text(), "::1/128");
}

#[test]
fn ipv6_network_is_printed_in_cidr_notation() {
    let octets = [0x20, 0x01, 0x0d, 0xb8, 0, 0, 0, 0, 0, 0, 0, 0, 0, 0, 0, 0];
    let address = ServerAddress::new(IpOctets::V6(octets), 32).unwrap();
    assert_eq!(address.text(), "2001:db8::/32");
    assert_eq!(address.ip(), IpOctets::V6(octets));
    assert_eq!(address.prefix(), 32);
}

#[test]
fn text_agrees_with_ipnetwork() {
    let parsed: ipnetwork::IpNetwork = "172.16.254.1/12".parse().unwrap();
    let address = ServerAddress::new(IpOctets::V4([172, 16, 254, 1]), 12).unwrap();
    assert_eq!(address.text(), parsed.to_string());
}

#[test]
fn text_is_the_same_on_every_call() {
    let address = ServerAddress::new(IpOctets::V4([127, 0, 0, 1]), 8).unwrap();
    assert_eq!(address.text(), address.text());
    assert_eq!(address.text(), "127.0.0.1/8");
}

#[test]
fn zero_prefix_is_admitted() {
    let address = ServerAddress::new(IpOctets::V4([0, 0, 0, 0]), 0).unwrap();
    assert_eq!(address.text(), "0.0.0.0/0");
}

#[test]
fn ipv4_prefix_above_32_is_refused() {
    assert!(ServerAddress::new(IpOctets::V4([10, 0, 0, 5]), 32).is_some());
    assert!(ServerAddress::new(IpOctets::V4([10, 0, 0, 5]), 33).is_none());
    assert!(ServerAddress::new(IpOctets::V4([10, 0, 0, 5]), 255).is_none());
}

#[test]
fn ipv6_prefix_above_128_is_refused() {
    assert!(ServerAddress::new(IpOctets::V6([0; 16]), 33).is_some());
    assert!(ServerAddress::new(IpOctets::V6([0; 16]), 128).is_some());
    assert!(ServerAddress::new(IpOctets::V6([0; 16]), 129).is_none());
}

#[test]
fn prefix_limit_depends_on_the_family() {
    assert_eq!(IpOctets::V4([1, 2, 3, 4]).prefix_limit(), 32);
    assert_eq!(IpOctets::V6([0; 16]).prefix_limit(), 128);
}
