use dns_filter::address::{IpAddress, SocketAddress, HTTPS_PORT};
use dns_filter::filter::filter_addresses;

fn v4(a: u8, b: u8, c: u8, d: u8) -> IpAddress {
    IpAddress::v4(a, b, c, d)
}

fn v6(s0: u16, s1: u16, s2: u16, s3: u16, s4: u16, s5: u16, s6: u16, s7: u16) -> IpAddress {
    IpAddress::v6(s0, s1, s2, s3, s4, s5, s6, s7)
}

fn sock(ip: IpAddress) -> SocketAddress {
    SocketAddress { ip, port: HTTPS_PORT }
}

#[test]
fn empty_input_gives_empty_output() {
    let out = filter_addresses(&vec![]);
    assert_eq!(out, vec![]);
}

#[test]
fn all_private_input_gives_empty_output() {
    let out = filter_addresses(&vec![v4(10, 0, 0, 1), v4(192, 168, 1, 1)]);
    assert_eq!(out, vec![]);
}

#[test]
fn mixed_input_keeps_public_v4_and_v6_in_order() {
    let out = filter_addresses(&vec![
        v4(8, 8, 8, 8),
        v4(10, 0, 0, 5),
        v6(0, 0, 0, 0, 0, 0, 0, 1),
        v4(192, 168, 0, 1),
    ]);
    assert_eq!(out, vec![sock(v4(8, 8, 8, 8)), sock(v6(0, 0, 0, 0, 0, 0, 0, 1))]);
}

#[test]
fn ten_slash_eight_is_dropped() {
    assert_eq!(filter_addresses(&vec![v4(10, 255, 255, 255)]), vec![]);
    assert_eq!(filter_addresses(&vec![v4(9, 255, 255, 255)]), vec![sock(v4(9, 255, 255, 255))]);
    assert_eq!(filter_addresses(&vec![v4(11, 0, 0, 0)]), vec![sock(v4(11, 0, 0, 0))]);
}

#[test]
fn one_seven_two_sixteen_slash_twelve_is_dropped() {
    assert_eq!(filter_addresses(&vec![v4(172, 16, 0, 1)]), vec![]);
    assert_eq!(filter_addresses(&vec![v4(172, 31, 255, 255)]), vec![]);
    assert_eq!(filter_addresses(&vec![v4(172, 15, 0, 1)]), vec![sock(v4(172, 15, 0, 1))]);
    assert_eq!(filter_addresses(&vec![v4(172, 32, 0, 1)]), vec![sock(v4(172, 32, 0, 1))]);
}

#[test]
fn one_nine_two_one_six_eight_slash_sixteen_is_dropped() {
    assert_eq!(filter_addresses(&vec![v4(192, 168, 255, 254)]), vec![]);
    assert_eq!(filter_addresses(&vec![v4(192, 167, 0, 1)]), vec![sock(v4(192, 167, 0, 1))]);
    assert_eq!(filter_addresses(&vec![v4(192, 169, 0, 1)]), vec![sock(v4(192, 169, 0, 1))]);
}

#[test]
fn loopback_and_link_local_v4_are_dropped() {
    assert_eq!(filter_addresses(&vec![v4(127, 0, 0, 1)]), vec![]);
    assert_eq!(filter_addresses(&vec![v4(127, 255, 255, 255)]), vec![]);
    assert_eq!(filter_addresses(&vec![v4(169, 254, 0, 1)]), vec![]);
    assert_eq!(filter_addresses(&vec![v4(169, 253, 0, 1)]), vec![sock(v4(169, 253, 0, 1))]);
    assert_eq!(filter_addresses(&vec![v4(169, 255, 0, 1)]), vec![sock(v4(169, 255, 0, 1))]);
}

#[test]
fn every_ipv6_address_is_kept() {
    let loopback = v6(0, 0, 0, 0, 0, 0, 0, 1);
    let link_local = v6(0xfe80, 0, 0, 0, 0, 0, 0, 1);
    let unique_local = v6(0xfd00, 0, 0, 0, 0, 0, 0, 1);
    let global = v6(0x2001, 0x4860, 0x4860, 0, 0, 0, 0, 0x8888);
    let out = filter_addresses(&vec![loopback, link_local, unique_local, global]);
    assert_eq!(out, vec![sock(loopback), sock(link_local), sock(unique_local), sock(global)]);
}

#[test]
fn survivors_carry_port_443_and_keep_their_order() {
    let out = filter_addresses(&vec![
        v4(1, 1, 1, 1),
        v4(10, 1, 2, 3),
        v4(8, 8, 4, 4),
        v6(0x2606, 0x4700, 0, 0, 0, 0, 0, 0x1111),
        v4(172, 20, 0, 9),
        v4(93, 184, 216, 34),
    ]);
    let expected = vec![
        sock(v4(1, 1, 1, 1)),
        sock(v4(8, 8, 4, 4)),
        sock(v6(0x2606, 0x4700, 0, 0, 0, 0, 0, 0x1111)),
        sock(v4(93, 184, 216, 34)),
    ];
    assert_eq!(out, expected);
    for s in &out {
        assert_eq!(s.port, 443);
    }
}

#[test]
fn filtering_is_idempotent_on_survivors() {
    let input = vec![
        v4(8, 8, 8, 8),
        v4(10, 0, 0, 5),
        v6(0, 0, 0, 0, 0, 0, 0, 1),
        v4(192, 168, 0, 1),
        v4(93, 184, 216, 34),
    ];
    let once = filter_addresses(&input);
    let surviving_ips: Vec<IpAddress> = once.iter().map(|s| s.ip).collect();
    let twice = filter_addresses(&surviving_ips);
    assert_eq!(twice, once);
}

#[test]
fn duplicates_are_kept_as_given() {
    let out = filter_addresses(&vec![v4(8, 8, 8, 8), v4(8, 8, 8, 8)]);
    assert_eq!(out, vec![sock(v4(8, 8, 8, 8)), sock(v4(8, 8, 8, 8))]);
}
