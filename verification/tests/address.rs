use mget::address::{Endpoint, Ipv4Address};

#[test]
fn dotted_decimal_is_read() {
    assert_eq!(Ipv4Address::parse("8.8.8.8"), Some(Ipv4Address::new(8, 8, 8, 8)));
    assert_eq!(Ipv4Address::parse("93.184.216.34"), Some(Ipv4Address::new(93, 184, 216, 34)));
    assert_eq!(Ipv4Address::parse("192.168.42.1"), Some(Ipv4Address::new(192, 168, 42, 1)));
    assert_eq!(Ipv4Address::parse("10.0.200.99"), Some(Ipv4Address::new(10, 0, 200, 99)));
}

#[test]
fn lowest_and_highest_address_are_read() {
    assert_eq!(Ipv4Address::parse("0.0.0.0"), Some(Ipv4Address::new(0, 0, 0, 0)));
    assert_eq!(
        Ipv4Address::parse("255.255.255.255"),
        Some(Ipv4Address::new(255, 255, 255, 255))
    );
}

#[test]
fn every_octet_value_is_read_in_every_place() {
    for v in 0..=255u8 {
        assert_eq!(Ipv4Address::parse(&format!("{}.1.1.1", v)), Some(Ipv4Address::new(v, 1, 1, 1)));
        assert_eq!(Ipv4Address::parse(&format!("1.{}.1.1", v)), Some(Ipv4Address::new(1, v, 1, 1)));
        assert_eq!(Ipv4Address::parse(&format!("1.1.{}.1", v)), Some(Ipv4Address::new(1, 1, v, 1)));
        assert_eq!(Ipv4Address::parse(&format!("1.1.1.{}", v)), Some(Ipv4Address::new(1, 1, 1, v)));
    }
}

#[test]
fn octets_above_255_are_refused() {
    assert_eq!(Ipv4Address::parse("256.1.1.1"), None);
    assert_eq!(Ipv4Address::parse("1.1.1.256"), None);
    assert_eq!(Ipv4Address::parse("1.300.1.1"), None);
    assert_eq!(Ipv4Address::parse("1.1.999.1"), None);
    assert_eq!(Ipv4Address::parse("1.1.1.1000"), None);
}

#[test]
fn leading_zeros_are_refused() {
    assert_eq!(Ipv4Address::parse("08.8.8.8"), None);
    assert_eq!(Ipv4Address::parse("8.8.8.08"), None);
    assert_eq!(Ipv4Address::parse("8.00.8.8"), None);
    assert_eq!(Ipv4Address::parse("8.8.010.8"), None);
    assert_eq!(Ipv4Address::parse("000.0.0.0"), None);
}

#[test]
fn wrong_number_of_octets_is_refused() {
    assert_eq!(Ipv4Address::parse(""), None);
    assert_eq!(Ipv4Address::parse("8"), None);
    assert_eq!(Ipv4Address::parse("8.8"), None);
    assert_eq!(Ipv4Address::parse("8.8.8"), None);
    assert_eq!(Ipv4Address::parse("8.8.8.8.8"), None);
}

#[test]
fn misplaced_dots_are_refused() {
    assert_eq!(Ipv4Address::parse(".8.8.8"), None);
    assert_eq!(Ipv4Address::parse("8.8.8."), None);
    assert_eq!(Ipv4Address::parse("8..8.8"), None);
    assert_eq!(Ipv4Address::parse("8.8.8.8."), None);
    assert_eq!(Ipv4Address::parse(".8.8.8.8"), None);
    assert_eq!(Ipv4Address::parse("..."), None);
}

#[test]
fn other_characters_are_refused() {
    assert_eq!(Ipv4Address::parse("a.b.c.d"), None);
    assert_eq!(Ipv4Address::parse(" 8.8.8.8"), None);
    assert_eq!(Ipv4Address::parse("8.8.8.8 "), None);
    assert_eq!(Ipv4Address::parse("8.8.8.8:53"), None);
    assert_eq!(Ipv4Address::parse("8.8.8.-8"), None);
    assert_eq!(Ipv4Address::parse("+8.8.8.8"), None);
    assert_eq!(Ipv4Address::parse("8,8,8,8"), None);
    assert_eq!(Ipv4Address::parse("0x8.8.8.8"), None);
    assert_eq!(Ipv4Address::parse("[::1]"), None);
    assert_eq!(Ipv4Address::parse("::1"), None);
    assert_eq!(Ipv4Address::parse("example.com"), None);
}

#[test]
fn digits_outside_ascii_are_refused() {
    assert_eq!(Ipv4Address::parse("\u{ff18}.8.8.8"), None);
    assert_eq!(Ipv4Address::parse("8.8.8.\u{0668}"), None);
    assert_eq!(Ipv4Address::parse("8.8.8.8\u{e9}"), None);
}

#[test]
fn long_texts_are_refused() {
    assert_eq!(Ipv4Address::parse("255.255.255.2555"), None);
    assert_eq!(Ipv4Address::parse("1111111111111111"), None);
    let long = "1.".repeat(10_000);
    assert_eq!(Ipv4Address::parse(&long), None);
}

#[test]
fn octets_come_in_network_order() {
    let address = Ipv4Address::new(93, 184, 216, 34);
    assert_eq!(address.octets(), [93, 184, 216, 34]);
    assert_eq!(Ipv4Address::from_octets([93, 184, 216, 34]), address);
    assert_eq!(address.a, 93);
    assert_eq!(address.d, 34);
}

#[test]
fn endpoints_compare_by_address_and_port() {
    let resolver = Endpoint { address: Ipv4Address::new(8, 8, 8, 8), port: 53 };
    assert_eq!(resolver, Endpoint { address: Ipv4Address::new(8, 8, 8, 8), port: 53 });
    assert_ne!(resolver, Endpoint { address: Ipv4Address::new(8, 8, 8, 8), port: 54 });
    assert_ne!(resolver, Endpoint { address: Ipv4Address::new(8, 8, 4, 4), port: 53 });
}
