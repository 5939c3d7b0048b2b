use printy::driver::{copy_front, DebugDriver, Driver};
use printy::error::{DriverKind, PrintyError};
use printy::hexline::parse_hex_line;

#[test]
fn line_with_prefixes() {
    assert_eq!(parse_hex_line("0x41 0x42"), Some(vec![0x41, 0x42]));
    assert_eq!(parse_hex_line("0X1f 0xFF 0x0"), Some(vec![0x1f, 0xff, 0]));
}

#[test]
fn line_without_prefixes() {
    assert_eq!(parse_hex_line("41 42"), Some(vec![0x41, 0x42]));
    assert_eq!(parse_hex_line("12 12 12 12"), Some(vec![0x12; 4]));
    assert_eq!(parse_hex_line("a B cD"), Some(vec![0x0a, 0x0b, 0xcd]));
}

#[test]
fn line_with_mixed_tokens_and_spacing() {
    assert_eq!(
        parse_hex_line("  0x1a\t16   0X12\r\n"),
        Some(vec![0x1a, 0x16, 0x12])
    );
    assert_eq!(parse_hex_line("41\u{a0}42\u{3000}43"), Some(vec![0x41, 0x42, 0x43]));
}

#[test]
fn empty_line_writes_no_bytes() {
    assert_eq!(parse_hex_line(""), Some(vec![]));
    assert_eq!(parse_hex_line("   \t \n"), Some(vec![]));
}

#[test]
fn leading_zeros_and_plus_sign_are_accepted() {
    assert_eq!(parse_hex_line("0041"), Some(vec![0x41]));
    assert_eq!(parse_hex_line("0x000000ff"), Some(vec![0xff]));
    assert_eq!(parse_hex_line("+41 0x+7"), Some(vec![0x41, 0x07]));
}

#[test]
fn malformed_tokens_are_rejected() {
    for line in [
        "zz", "0x", "0X", "+", "0x+", "-1", "4g", "0x0x1", "x41", "41,42", "41 0x", "41 zz 42",
        "100", "0x100", "fff", "1ff", "++1", "4\u{e9}",
    ] {
        assert_eq!(parse_hex_line(line), None, "line {line:?}");
    }
}

#[test]
fn every_byte_reads_back() {
    for b in 0..=255u8 {
        assert_eq!(parse_hex_line(&format!("{b:02x}")), Some(vec![b]));
        assert_eq!(parse_hex_line(&format!("{b:#04x}")), Some(vec![b]));
        assert_eq!(parse_hex_line(&format!("{b:X}")), Some(vec![b]));
    }
}

#[test]
fn tokens_agree_with_std() {
    for token in ["0", "7f", "0x7f", "+7f", "0x+7f", "ff", "100", "", "0x", "g", "7 f", "+"] {
        for line in [token.to_string(), format!(" {token} 01")] {
            let expected: Result<Vec<u8>, _> = line
                .split_whitespace()
                .map(|s| {
                    if s.starts_with("0x") || s.starts_with("0X") {
                        u8::from_str_radix(&s[2..], 16)
                    } else {
                        u8::from_str_radix(s, 16)
                    }
                })
                .collect();
            assert_eq!(parse_hex_line(&line), expected.ok(), "line {line:?}");
        }
    }
}

#[test]
fn copy_front_fills_as_far_as_both_reach() {
    let mut buf = [9u8; 4];
    assert_eq!(copy_front(&vec![1, 2], &mut buf), 2);
    assert_eq!(buf, [1, 2, 9, 9]);
    let mut buf = [9u8; 2];
    assert_eq!(copy_front(&vec![1, 2, 3], &mut buf), 2);
    assert_eq!(buf, [1, 2]);
    let mut buf = [9u8; 2];
    assert_eq!(copy_front(&vec![], &mut buf), 0);
    assert_eq!(buf, [9, 9]);
    let mut none: [u8; 0] = [];
    assert_eq!(copy_front(&vec![1], &mut none), 0);
}

#[test]
fn debug_driver_starts_at_zero() {
    let driver = DebugDriver::default();
    assert_eq!(driver.read_count(), 0);
    assert_eq!(driver.write_count(), 0);
    assert_eq!(driver.read_prompt(), "P <- [0]:");
    assert_eq!(driver.write_prompt(), "P -> [0]:");
}

#[test]
fn debug_driver_reads_a_typed_line() {
    let mut driver = DebugDriver::default();
    let mut buf = [0u8; 4];
    driver.type_line("0x12 12 0x12 12\n".to_string());
    assert_eq!(driver.read(&mut buf).unwrap(), 4);
    assert_eq!(buf, [0x12; 4]);
    assert_eq!(driver.read_count(), 1);
    assert_eq!(driver.read_prompt(), "P <- [1]:");
    assert_eq!(driver.write_count(), 0);
}

#[test]
fn debug_driver_reads_the_lines_in_the_order_typed() {
    let mut driver = DebugDriver::default();
    driver.type_line("1".to_string());
    driver.type_line("2 3".to_string());
    let mut buf = [0u8; 2];
    assert_eq!(driver.read(&mut buf).unwrap(), 1);
    assert_eq!(buf, [1, 0]);
    assert_eq!(driver.read(&mut buf).unwrap(), 2);
    assert_eq!(buf, [2, 3]);
}

#[test]
fn debug_driver_reads_nothing_where_no_line_waits() {
    let mut driver = DebugDriver::default();
    let mut buf = [7u8; 2];
    assert_eq!(driver.read(&mut buf).unwrap(), 0);
    assert_eq!(buf, [7, 7]);
    assert_eq!(driver.read_count(), 1);
}

#[test]
fn debug_driver_copies_up_to_the_buffer() {
    let mut driver = DebugDriver::default();
    let mut buf = [0u8; 2];
    driver.type_line("1 2 3".to_string());
    assert_eq!(driver.read(&mut buf).unwrap(), 2);
    assert_eq!(buf, [1, 2]);
    let mut buf = [7u8; 4];
    driver.type_line("1".to_string());
    assert_eq!(driver.read(&mut buf).unwrap(), 1);
    assert_eq!(buf, [1, 7, 7, 7]);
    driver.type_line(String::new());
    assert_eq!(driver.read(&mut buf).unwrap(), 0);
    assert_eq!(buf, [1, 7, 7, 7]);
    assert_eq!(driver.read_count(), 3);
}

#[test]
fn debug_driver_reports_a_malformed_line() {
    let mut driver = DebugDriver::default();
    let mut buf = [7u8; 4];
    driver.type_line("0x41 nope".to_string());
    match driver.read(&mut buf) {
        Err(PrintyError::Driver { kind, context, source }) => {
            assert_eq!(kind, DriverKind::Debug);
            assert_eq!(
                context,
                "Invalid hex format. Use format like: '0x41', '0x42' or '41', '42'"
            );
            assert_eq!(source, None);
        }
        _ => panic!("expected a driver error"),
    }
    assert_eq!(buf, [7; 4]);
    assert_eq!(driver.read_count(), 0);
    assert_eq!(driver.read(&mut buf).unwrap(), 0);
}

#[test]
fn debug_driver_counts_writes() {
    let mut driver = DebugDriver::default();
    assert_eq!(driver.write(&[1, 2, 3]).unwrap(), 3);
    assert_eq!(driver.write(&[]).unwrap(), 0);
    assert_eq!(driver.write_count(), 2);
    assert_eq!(driver.write_prompt(), "P -> [2]:");
    assert_eq!(driver.read_count(), 0);
    for _ in 0..10 {
        driver.write(&[0]).unwrap();
    }
    assert_eq!(driver.write_prompt(), "P -> [12]:");
}

#[test]
fn debug_driver_has_nothing_to_drain() {
    let mut driver = DebugDriver::default();
    driver.type_line("1".to_string());
    assert!(driver.drain().is_ok());
    assert_eq!(driver.read_count(), 0);
    assert_eq!(driver.write_count(), 0);
    let mut buf = [0u8; 1];
    assert_eq!(driver.read(&mut buf).unwrap(), 1);
    assert_eq!(buf, [1]);
}

fn by_std(line: &str) -> Option<Vec<u8>> {
    let values: Result<Vec<u8>, _> = line
        .split_whitespace()
        .map(|s| {
            if s.starts_with("0x") || s.starts_with("0X") {
                u8::from_str_radix(&s[2..], 16)
            } else {
                u8::from_str_radix(s, 16)
            }
        })
        .collect();
    values.ok()
}

#[test]
fn white_space_agrees_with_std() {
    for code in 0..=0x3100u32 {
        if let Some(c) = char::from_u32(code) {
            let line = format!("41{c}42");
            assert_eq!(parse_hex_line(&line), by_std(&line), "char {code:#x}");
        }
    }
    for c in ['\u{feff}', '\u{e000}', '\u{1f5a8}', '\u{10ffff}'] {
        let line = format!("41{c}42");
        assert_eq!(parse_hex_line(&line), by_std(&line));
    }
}

#[test]
fn short_lines_agree_with_std() {
    let alphabet = ['0', 'x', 'X', '+', '-', 'f', 'F', 'g', '1', ' ', '\t'];
    let mut lines = vec![String::new()];
    for _ in 0..4 {
        let mut longer = Vec::new();
        for line in &lines {
            for c in alphabet {
                let mut next = line.clone();
                next.push(c);
                longer.push(next);
            }
        }
        for line in &longer {
            assert_eq!(parse_hex_line(line), by_std(line), "line {line:?}");
        }
        lines = longer;
    }
}
