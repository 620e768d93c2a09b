use macchanger::mac::MAC;
use macchanger::request::{
    build_set_hardware, decode_hardware_reply, decode_permanent_reply, encode_ifname,
    PermanentPayload, Request, RequestError, ETHTOOL_GPERMADDR, IFNAMSIZ, MAX_ADDR_LEN,
    SIOCETHTOOL, SIOCGIFHWADDR, SIOCSIFHWADDR,
};

#[test]
fn ifname_is_null_padded() {
    let buf = encode_ifname(b"eth0").unwrap();
    assert_eq!(buf.len(), 16);
    assert_eq!(&buf[..4], b"eth0");
    assert_eq!(&buf[4..], &[0u8; 12]);
}

#[test]
fn ifname_bounds() {
    let empty = encode_ifname(b"").unwrap();
    assert_eq!(empty, vec![0u8; 16]);
    let fifteen = encode_ifname(b"abcdefghijklmno").unwrap();
    assert_eq!(&fifteen[..15], b"abcdefghijklmno");
    assert_eq!(fifteen[15], 0);
    assert_eq!(encode_ifname(b"abcdefghijklmnop"), Err(RequestError::NameTooLong));
}

#[test]
fn request_codes() {
    assert_eq!(IFNAMSIZ, 16);
    assert_eq!(MAX_ADDR_LEN, 32);
    assert_eq!(SIOCGIFHWADDR, 0x8927);
    assert_eq!(SIOCSIFHWADDR, 0x8924);
    assert_eq!(SIOCETHTOOL, 0x8946);
    assert_eq!(ETHTOOL_GPERMADDR, 0x20);
    let name = encode_ifname(b"eth0").unwrap();
    let get = Request::GetHardware { name: name.clone() };
    assert_eq!(get.code(), 0x8927);
    let set = build_set_hardware(name.clone(), 1, &MAC::new());
    assert_eq!(set.code(), 0x8924);
    let query = Request::QueryPermanent { name, payload: PermanentPayload::new() };
    assert_eq!(query.code(), 0x8946);
}

#[test]
fn permanent_payload_declares_its_capacity() {
    let payload = PermanentPayload::new();
    assert_eq!(payload.cmd, 0x20);
    assert_eq!(payload.size, 32);
    assert_eq!(payload.data, [0u8; 32]);
}

#[test]
fn get_request_layout() {
    let name = encode_ifname(b"wlan0").unwrap();
    let image = (Request::GetHardware { name: name.clone() }).encode();
    assert_eq!(image.len(), 32);
    assert_eq!(&image[..16], &name[..]);
    assert_eq!(&image[16..], &[0u8; 16]);
}

#[test]
fn set_request_layout() {
    let name = encode_ifname(b"eth0").unwrap();
    let addr = MAC::parse("de:ad:be:ef:00:01").unwrap();
    let req = build_set_hardware(name.clone(), 0x0201, &addr);
    let image = req.encode();
    assert_eq!(image.len(), 32);
    assert_eq!(&image[..16], &name[..]);
    // family tag, little endian
    assert_eq!(image[16], 0x01);
    assert_eq!(image[17], 0x02);
    // the six address bytes, then zero fill
    assert_eq!(&image[18..24], &[0xde, 0xad, 0xbe, 0xef, 0x00, 0x01]);
    assert_eq!(&image[24..], &[0u8; 8]);
}

#[test]
fn set_request_encodes_high_bytes() {
    let name = encode_ifname(b"eth0").unwrap();
    let addr = MAC::parse("ff:80:7f:00:01:fe").unwrap();
    let image = build_set_hardware(name, 6, &addr).encode();
    assert_eq!(&image[18..24], &[0xff, 0x80, 0x7f, 0x00, 0x01, 0xfe]);
}

#[test]
fn permanent_query_layout() {
    let name = encode_ifname(b"eth1").unwrap();
    let image = (Request::QueryPermanent { name: name.clone(), payload: PermanentPayload::new() })
        .encode();
    assert_eq!(image.len(), 56);
    assert_eq!(&image[..16], &name[..]);
    // command code, little endian
    assert_eq!(&image[16..20], &[0x20, 0, 0, 0]);
    // declared buffer size, little endian
    assert_eq!(&image[20..24], &[32, 0, 0, 0]);
    assert_eq!(&image[24..], &[0u8; 32]);
}

#[test]
fn hardware_reply_roundtrip() {
    let name = encode_ifname(b"eth0").unwrap();
    let addr = MAC::parse("02:11:22:33:44:55").unwrap();
    let image = build_set_hardware(name, 1, &addr).encode();
    let (family, decoded) = decode_hardware_reply(&image).unwrap();
    assert_eq!(family, 1);
    assert_eq!(decoded, addr);
}

#[test]
fn hardware_reply_rejects_wrong_size() {
    assert!(decode_hardware_reply(&[0u8; 31]).is_none());
    assert!(decode_hardware_reply(&[0u8; 33]).is_none());
    assert!(decode_hardware_reply(&[]).is_none());
}

#[test]
fn permanent_reply_takes_the_buffer_head() {
    let mut image = vec![0u8; 56];
    image[24..30].copy_from_slice(&[0x66, 0x77, 0x88, 0x99, 0xaa, 0xbb]);
    // driver-specific padding after the address is discarded
    image[30] = 0xee;
    let decoded = decode_permanent_reply(&image).unwrap();
    assert_eq!(decoded.format(), "66:77:88:99:aa:bb");
    assert!(decode_permanent_reply(&image[..55]).is_none());
}
