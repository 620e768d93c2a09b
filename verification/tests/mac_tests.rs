use macchanger::mac::MAC;
use macchanger::mac::ParseMACError;

#[test]
fn new_is_all_zero() {
    let m = MAC::new();
    assert_eq!(m.format(), "00:00:00:00:00:00");
}

#[test]
fn format_parse_roundtrip() {
    for text in [
        "00:11:22:33:44:55",
        "aa:bb:cc:dd:ee:ff",
        "de:ad:be:ef:00:01",
        "ff:ff:ff:ff:ff:ff",
        "00:00:00:00:00:00",
        "01:23:45:67:89:ab",
    ] {
        let addr = MAC::parse(text).unwrap();
        let formatted = addr.format();
        assert_eq!(formatted, text);
        let reparsed = MAC::parse(&formatted).unwrap();
        assert_eq!(reparsed.format(), formatted);
        assert_eq!(reparsed, addr);
    }
}

#[test]
fn parse_is_case_insensitive_format_is_lowercase() {
    let addr = MAC::parse("DE:AD:BE:EF:00:01").unwrap();
    assert_eq!(addr.format(), "de:ad:be:ef:00:01");
    let mixed = MAC::parse("Aa:bB:CC:dd:Ee:Ff").unwrap();
    assert_eq!(mixed.format(), "aa:bb:cc:dd:ee:ff");
}

#[test]
fn parse_rejects_wrong_field_count() {
    for text in [
        "",
        "00",
        "001122334455",
        "00:11",
        "00:11:22:33:44",
        "00:11:22:33:44:55:66",
        "00:11:22:33:44:55:",
        ":00:11:22:33:44:55",
        "::::::",
    ] {
        assert!(matches!(MAC::parse(text), Err(ParseMACError::FormatError)), "{text}");
    }
}

#[test]
fn parse_rejects_bad_fields() {
    for text in [
        "zz:11:22:33:44:55",
        "0g:11:22:33:44:55",
        "0:11:22:33:44:555",
        "0:11:22:33:44:55 ",
        "00:11:22:33:44:5",
        "000:11:22:33:44:5",
        "00:11:22:33:44:555",
        "+0:11:22:33:44:55",
        ":::::",
    ] {
        assert!(matches!(MAC::parse(text), Err(ParseMACError::ParseIntError)), "{text}");
    }
}

#[test]
fn set_ending_then_get_ending() {
    let mut addr = MAC::parse("00:11:22:33:44:55").unwrap();
    addr.set_ending(&[0xaa, 0xbb, 0xcc]);
    assert_eq!(addr.get_ending(), [0xaa, 0xbb, 0xcc]);
    // the vendor prefix is untouched
    assert_eq!(addr.format(), "00:11:22:aa:bb:cc");
}

#[test]
fn random_bytes_forced_locally_administered() {
    let m = MAC::from_random_bytes(&[0xff, 0xff, 0xff, 0xff, 0xff, 0xff], false);
    // multicast bit cleared, locally-administered bit set
    assert_eq!(m.format(), "fe:ff:ff:ff:ff:ff");
    let z = MAC::from_random_bytes(&[0x00, 0x01, 0x02, 0x03, 0x04, 0x05], false);
    assert_eq!(z.format(), "02:01:02:03:04:05");
}

#[test]
fn random_bytes_burned_in_address() {
    let m = MAC::from_random_bytes(&[0xff, 0xff, 0xff, 0xff, 0xff, 0xff], true);
    // multicast and locally-administered bits both cleared, nothing set
    assert_eq!(m.format(), "fc:ff:ff:ff:ff:ff");
    let z = MAC::from_random_bytes(&[0x03, 0x01, 0x02, 0x03, 0x04, 0x05], true);
    assert_eq!(z.format(), "00:01:02:03:04:05");
}

#[test]
fn raw_data_roundtrip() {
    let addr = MAC::parse("fe:dc:ba:98:76:54").unwrap();
    let raw = addr.to_raw_data();
    assert_eq!(raw[0], 0xfeu8 as i8);
    assert_eq!(raw[5], 0x54);
    assert_eq!(&raw[6..], &[0i8; 8]);
    let back = MAC::from_raw_data(&raw);
    assert_eq!(back, addr);
}

#[test]
fn from_slice_takes_first_six_bytes() {
    assert!(MAC::from_slice(&[1, 2, 3, 4, 5]).is_none());
    let m = MAC::from_slice(&[0x10, 0x20, 0x30, 0x40, 0x50, 0x60, 0x70, 0x80]).unwrap();
    assert_eq!(m.format(), "10:20:30:40:50:60");
}

#[test]
fn from_bytes_wraps_exactly() {
    let m = MAC::from_bytes([0xde, 0xad, 0xbe, 0xef, 0x00, 0x01]);
    assert_eq!(m.format(), "de:ad:be:ef:00:01");
}

#[test]
fn error_messages() {
    assert_eq!(ParseMACError::FormatError.message(), "MAC has invalid format");
    assert_eq!(ParseMACError::ParseIntError.message(), "Failed to parse integer for MAC");
}

#[test]
fn equality_is_bytewise() {
    let a = MAC::parse("00:11:22:33:44:55").unwrap();
    let b = MAC::from_bytes([0x00, 0x11, 0x22, 0x33, 0x44, 0x55]);
    let c = MAC::parse("00:11:22:33:44:56").unwrap();
    assert_eq!(a, b);
    assert_ne!(a, c);
}
