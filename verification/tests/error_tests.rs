use printy::error::{DriverKind, PrintyError};
use printy::text::{push_decimal, push_hex, push_hex_list, push_hex_prefixed};

#[test]
fn driver_error_message_names_the_transport() {
    let e = PrintyError::Driver {
        kind: DriverKind::Usb,
        context: "I/O error on endpoint 0x81: Timeout".to_string(),
        source: Some("Timeout".to_string()),
    };
    assert_eq!(
        e.message(),
        "Driver (USB) error: I/O error on endpoint 0x81: Timeout - Timeout"
    );
    let e = PrintyError::Driver {
        kind: DriverKind::Debug,
        context: "bad line".to_string(),
        source: None,
    };
    assert_eq!(e.message(), "Driver (Debug) error: bad line");
}

#[test]
fn parse_error_message() {
    let e = PrintyError::Parse {
        context: "Failed to parse markdown - 1:1: oops".to_string(),
        source: None,
    };
    assert_eq!(e.message(), "Parse error: Failed to parse markdown - 1:1: oops");
    let e = PrintyError::Parse {
        context: "c".to_string(),
        source: Some("s".to_string()),
    };
    assert_eq!(e.message(), "Parse error: c - s");
}

#[test]
fn driver_constructor_has_no_source() {
    match PrintyError::driver(DriverKind::Usb, "x".to_string()) {
        PrintyError::Driver { kind, context, source } => {
            assert_eq!(kind, DriverKind::Usb);
            assert_eq!(context, "x");
            assert_eq!(source, None);
        }
        _ => panic!("expected a driver error"),
    }
}

#[test]
fn driver_kind_names() {
    assert_eq!(DriverKind::Debug.name(), "Debug");
    assert_eq!(DriverKind::Usb.name(), "USB");
}

#[test]
fn decimal_matches_std() {
    for n in [0u64, 1, 9, 10, 11, 99, 100, 255, 256, 1000, 65535, 4294967296, u64::MAX] {
        let mut s = String::from(">");
        push_decimal(&mut s, n);
        assert_eq!(s, format!(">{n}"));
    }
}

#[test]
fn hex_matches_std() {
    for n in [0u64, 1, 9, 10, 15, 16, 0x7f, 0xff, 0x100, 0x4b8, 0xffff, u64::MAX] {
        let mut s = String::new();
        push_hex(&mut s, n, 2);
        assert_eq!(s, format!("{n:02x}"));
        let mut s = String::new();
        push_hex(&mut s, n, 0);
        assert_eq!(s, format!("{n:x}"));
        let mut s = String::new();
        push_hex(&mut s, n, 4);
        assert_eq!(s, format!("{n:04x}"));
        let mut s = String::from("ept ");
        push_hex_prefixed(&mut s, n);
        assert_eq!(s, format!("ept {n:#04x}"));
    }
}

#[test]
fn hex_list_matches_std() {
    let cases: [&[u8]; 4] = [&[], &[0x1b], &[0x1b, 0x40], &[0, 1, 0xa, 0xff, 0x10]];
    for bytes in cases {
        let mut s = String::from("data: ");
        push_hex_list(&mut s, bytes);
        assert_eq!(s, format!("data: {bytes:02x?}"));
    }
    let mut s = String::new();
    push_hex_list(&mut s, &[0x1b, 0x40, 0x0a]);
    assert_eq!(s, "[1b, 40, 0a]");
}
