use rusty_esp_alarm::mac_address::{parse_octet, split_colons, MACAddress, MacAddressError};

#[test]
fn parses_six_octets() {
    let mac = MACAddress::parse("02:00:5e:10:00:01").unwrap();
    assert_eq!(mac.addr(), &[0x02, 0x00, 0x5e, 0x10, 0x00, 0x01]);
}

#[test]
fn accepts_case_plus_sign_and_leading_zeros() {
    let mac = MACAddress::parse("AA:bb:+cc:0:000ff:1").unwrap();
    assert_eq!(mac.addr(), &[0xaa, 0xbb, 0xcc, 0x00, 0xff, 0x01]);
}

#[test]
fn wrong_octet_counts() {
    assert_eq!(MACAddress::parse("1:2:3:4:5"), Err(MacAddressError::WrongOctetCount(5)));
    assert_eq!(MACAddress::parse("1:2:3:4:5:6:7"), Err(MacAddressError::WrongOctetCount(7)));
}

#[test]
fn invalid_octets() {
    assert_eq!(MACAddress::parse("zz:00:00:00:00:00"), Err(MacAddressError::InvalidOctet));
    assert_eq!(MACAddress::parse("100:00:00:00:00:00"), Err(MacAddressError::InvalidOctet));
    assert_eq!(MACAddress::parse(""), Err(MacAddressError::InvalidOctet));
    assert_eq!(MACAddress::parse("1::2:3:4:5"), Err(MacAddressError::InvalidOctet));
    assert_eq!(MACAddress::parse("-1:2:3:4:5:6"), Err(MacAddressError::InvalidOctet));
    assert_eq!(MACAddress::parse("+:2:3:4:5:6"), Err(MacAddressError::InvalidOctet));
    // a bad octet is reported before the count
    assert_eq!(MACAddress::parse("x:1"), Err(MacAddressError::InvalidOctet));
}

#[test]
fn octets_and_parts() {
    assert_eq!(parse_octet(b"ff"), Some(255));
    assert_eq!(parse_octet(b"FF"), Some(255));
    assert_eq!(parse_octet(b"0100"), None);
    assert_eq!(parse_octet(b"+7"), Some(7));
    assert_eq!(parse_octet(b""), None);
    assert_eq!(split_colons(b"a::b"), vec![b"a".to_vec(), Vec::new(), b"b".to_vec()]);
    assert_eq!(split_colons(b""), vec![Vec::<u8>::new()]);
}
