use bluer::{Address, AddressType, Error, ErrorKind, InternalErrorKind, InvalidAddress, Modalias};

#[test]
fn address_new_and_any() {
    let a = Address::new([1, 2, 3, 4, 5, 6]);
    assert_eq!(a.0, [1, 2, 3, 4, 5, 6]);
    assert_eq!(Address::any().0, [0; 6]);
}

#[test]
fn address_to_string_is_upper_hex() {
    let a = Address::new([0x01, 0x23, 0x45, 0x67, 0x89, 0xab]);
    assert_eq!(a.to_string(), "01:23:45:67:89:AB");
    assert_eq!(Address::any().to_string(), "00:00:00:00:00:00");
}

#[test]
fn address_from_str_reads_either_case() {
    let a = Address::from_str("01:23:45:67:89:ab").unwrap();
    assert_eq!(a.0, [0x01, 0x23, 0x45, 0x67, 0x89, 0xab]);
    let b = Address::from_str("FF:EE:DD:CC:BB:AA").unwrap();
    assert_eq!(b.0, [0xff, 0xee, 0xdd, 0xcc, 0xbb, 0xaa]);
}

#[test]
fn address_roundtrip() {
    for bytes in [[0u8; 6], [0xff; 6], [0x12, 0x34, 0x56, 0x78, 0x9a, 0xbc], [0, 1, 2, 250, 251, 255]] {
        let a = Address::new(bytes);
        let back = Address::from_str(&a.to_string()).unwrap();
        assert_eq!(back, a);
    }
}

#[test]
fn address_from_str_errors() {
    // a bad field is reported by itself
    let e = Address::from_str("01:23:45:67:89:zz").unwrap_err();
    assert_eq!(e.0, "zz");
    // a wrong number of fields reports the whole text
    let e = Address::from_str("01:23:45").unwrap_err();
    assert_eq!(e.0, "01:23:45");
    let e = Address::from_str("01:23:45:67:89:ab:cd").unwrap_err();
    assert_eq!(e.0, "01:23:45:67:89:ab:cd");
    // a field too large for a byte
    let e = Address::from_str("100:23:45:67:89:ab").unwrap_err();
    assert_eq!(e.0, "100");
    // an empty text has one empty field
    let e = Address::from_str("").unwrap_err();
    assert_eq!(e.0, "");
    assert_eq!(InvalidAddress("x".to_string()).to_string(), "invalid Bluetooth address: x");
}

#[test]
fn address_plus_sign_field() {
    // from_str_radix accepts a leading plus sign
    let a = Address::from_str("+1:02:03:04:05:06").unwrap();
    assert_eq!(a.0, [1, 2, 3, 4, 5, 6]);
}

#[test]
fn bdaddr_roundtrip_reverses_bytes() {
    let a = Address::new([1, 2, 3, 4, 5, 6]);
    let b = a.to_bdaddr();
    assert_eq!(b.b, [6, 5, 4, 3, 2, 1]);
    assert_eq!(Address::from_bdaddr(b), a);
}

#[test]
fn address_type_texts_and_values() {
    assert_eq!(AddressType::BrEdr.to_string(), "br/edr");
    assert_eq!(AddressType::Public.to_string(), "public");
    assert_eq!(AddressType::Random.to_string(), "random");
    assert_eq!(AddressType::from_str("public"), Some(AddressType::Public));
    assert_eq!(AddressType::from_str("random"), Some(AddressType::Random));
    assert_eq!(AddressType::from_str("br/edr"), Some(AddressType::BrEdr));
    assert_eq!(AddressType::from_str("Public"), None);
    for t in [AddressType::BrEdr, AddressType::Public, AddressType::Random] {
        assert_eq!(AddressType::from_u8(t.as_u8()), Some(t));
    }
    assert_eq!(AddressType::Public.as_u8(), 1);
    assert_eq!(AddressType::Random.as_u8(), 2);
    assert_eq!(AddressType::from_u8(3), None);
    assert_eq!(AddressType::default(), AddressType::Public);
}

#[test]
fn error_kind_names() {
    assert_eq!(ErrorKind::from_name("Failed"), Some(ErrorKind::Failed));
    assert_eq!(ErrorKind::from_name("NotReady"), Some(ErrorKind::NotReady));
    assert_eq!(ErrorKind::from_name("Nonsense"), None);
}

#[test]
fn error_texts() {
    let e = Error::new(ErrorKind::Failed);
    assert_eq!(e.to_string(), "Bluetooth operation failed");
    let e = Error { kind: ErrorKind::NotReady, message: "Resource Not Ready".to_string() };
    assert_eq!(e.to_string(), "Bluetooth device not ready: Resource Not Ready");
    let e = Error::new(ErrorKind::Internal(InternalErrorKind::MissingKey("MaxAdvLen".to_string())));
    assert_eq!(e.to_string(), "internal error: key MaxAdvLen is missing");
    let e = Error::from_invalid_address(InvalidAddress("q".to_string()));
    assert_eq!(e.to_string(), "invalid Bluetooth address: q");
    let e = Error::new(ErrorKind::Internal(InternalErrorKind::Io(std::io::ErrorKind::NotFound)));
    assert_eq!(e.to_string(), "internal error: IO error NotFound");
}

#[test]
fn error_from_dbus() {
    let e = Error::from_dbus(Some("org.bluez.Error.InProgress"), Some("busy"));
    assert_eq!(e.kind, ErrorKind::InProgress);
    assert_eq!(e.message, "busy");
    let e = Error::from_dbus(Some("org.freedesktop.DBus.Error.UnknownObject"), Some("gone"));
    assert_eq!(e.kind, ErrorKind::NotFound);
    assert_eq!(e.message, "");
    let e = Error::from_dbus(Some("org.example.Other"), None);
    assert_eq!(e.kind, ErrorKind::Internal(InternalErrorKind::DBus("org.example.Other".to_string())));
    let e = Error::from_dbus(None, Some("m"));
    assert_eq!(e.kind, ErrorKind::Internal(InternalErrorKind::DBus(String::new())));
}

#[test]
fn modalias_parses_ids() {
    let m = Modalias::from_str("usb:v1D6Bp0246d0540").unwrap();
    assert_eq!(m.source, "usb");
    assert_eq!(m.vendor, 0x1d6b);
    assert_eq!(m.product, 0x0246);
    assert_eq!(m.device, 0x0540);
    let e = Modalias::from_str("usb").unwrap_err();
    assert_eq!(e.kind, ErrorKind::Internal(InternalErrorKind::InvalidModalias("usb".to_string())));
    assert!(Modalias::from_str("bluetooth:v00XXp0001d0001").is_err());
    assert!(Modalias::from_str("usb:v1D6B").is_err());
}
