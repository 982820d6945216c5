use mget::ethernet::MacAddress;

#[test]
fn generated_address_is_local_and_unicast() {
    for _ in 0..1000 {
        let mac = MacAddress::new();
        assert_eq!(mac.octets()[0] & 0x03, 0x02);
    }
}

#[test]
fn successive_addresses_differ() {
    let first = MacAddress::new();
    let second = MacAddress::new();
    assert_ne!(first.octets(), second.octets());
}

#[test]
fn entropy_with_all_bits_set_loses_the_multicast_bit() {
    let mac = MacAddress::from_entropy([0xff, 0xff, 0xff, 0xff, 0xff, 0xff]);
    assert_eq!(mac.octets(), [0xfe, 0xff, 0xff, 0xff, 0xff, 0xff]);
}

#[test]
fn entropy_with_no_bit_set_gains_the_local_bit() {
    let mac = MacAddress::from_entropy([0x00, 0x00, 0x00, 0x00, 0x00, 0x00]);
    assert_eq!(mac.octets(), [0x02, 0x00, 0x00, 0x00, 0x00, 0x00]);
}

#[test]
fn every_first_octet_becomes_local_and_unicast() {
    for first in 0..=255u8 {
        let mac = MacAddress::from_entropy([first, 1, 2, 3, 4, 5]);
        let octets = mac.octets();
        assert_eq!(octets[0], (first | 0x02) & 0xfe);
        assert_eq!(octets[0] & 0x03, 0x02);
        assert_eq!(octets[0] & 0xfc, first & 0xfc);
        assert_eq!(&octets[1..], &[1, 2, 3, 4, 5]);
    }
}

#[test]
fn text_is_lower_case_hexadecimal_with_colons() {
    let mac = MacAddress::from_entropy([0x02, 0x00, 0x5e, 0x10, 0x00, 0x01]);
    assert_eq!(mac.to_text(), "02:00:5e:10:00:01");
    let mac = MacAddress::from_entropy([0xab, 0xcd, 0xef, 0x09, 0x9a, 0xf0]);
    assert_eq!(mac.to_text(), "aa:cd:ef:09:9a:f0");
}

#[test]
fn text_has_seventeen_characters() {
    for _ in 0..100 {
        let text = MacAddress::new().to_text();
        assert_eq!(text.len(), 17);
        let bytes = text.as_bytes();
        for (i, b) in bytes.iter().enumerate() {
            if i % 3 == 2 {
                assert_eq!(*b, b':');
            } else {
                assert!(b.is_ascii_digit() || (b'a'..=b'f').contains(b));
            }
        }
    }
}
