use printy::driver::{DebugDriver, Driver};
use printy::error::{DriverKind, PrintyError, PrintyResult};
use printy::printer::{after, decode_reply, Printer};
use printy::status::{PaperStatus, PrinterStatus};

/// A transport that records what it is asked to do and answers from a script.
struct Script {
    written: Vec<Vec<u8>>,
    log: Vec<&'static str>,
    reply: Vec<u8>,
    fail_write_at: Option<usize>,
    fail_read: bool,
    fail_drain: bool,
}

impl Script {
    fn new() -> Script {
        Script {
            written: Vec::new(),
            log: Vec::new(),
            reply: Vec::new(),
            fail_write_at: None,
            fail_read: false,
            fail_drain: false,
        }
    }

    fn failure(what: &str) -> PrintyError {
        PrintyError::Driver {
            kind: DriverKind::Usb,
            context: what.to_string(),
            source: None,
        }
    }

    fn sent_bytes(&self) -> Vec<u8> {
        self.written.concat()
    }
}

impl Driver for Script {
    fn read(&mut self, buf: &mut [u8]) -> PrintyResult<usize> {
        self.log.push("read");
        if self.fail_read {
            return Err(Script::failure("read failed"));
        }
        let n = self.reply.len().min(buf.len());
        buf[..n].copy_from_slice(&self.reply[..n]);
        Ok(n)
    }

    fn write(&mut self, data: &[u8]) -> PrintyResult<usize> {
        self.log.push("write");
        if self.fail_write_at == Some(self.written.len()) {
            return Err(Script::failure("write failed"));
        }
        self.written.push(data.to_vec());
        Ok(data.len())
    }

    fn drain(&mut self) -> PrintyResult<()> {
        self.log.push("drain");
        if self.fail_drain {
            return Err(Script::failure("drain failed"));
        }
        Ok(())
    }
}

fn opened() -> Printer<Script> {
    let mut printer = Printer::new(Script::new()).unwrap();
    printer.driver.written.clear();
    printer.driver.log.clear();
    printer
}

#[test]
fn new_drains_then_resets_then_disables_status_back() {
    let printer = Printer::new(Script::new()).unwrap();
    assert_eq!(printer.driver.log, vec!["drain", "write", "write"]);
    assert_eq!(
        printer.driver.written,
        vec![vec![0x1B, 0x40], vec![0x1D, 0x61, 0x00]]
    );
}

#[test]
fn new_fails_with_the_error_of_the_drain() {
    let mut script = Script::new();
    script.fail_drain = true;
    match Printer::new(script) {
        Err(PrintyError::Driver { context, .. }) => assert_eq!(context, "drain failed"),
        _ => panic!("expected the error of the drain"),
    }
}

#[test]
fn new_fails_with_the_error_of_the_first_write() {
    let mut script = Script::new();
    script.fail_write_at = Some(0);
    match Printer::new(script) {
        Err(PrintyError::Driver { context, .. }) => assert_eq!(context, "write failed"),
        _ => panic!("expected the error of the write"),
    }
}

#[test]
fn init_stops_at_the_second_write_that_fails() {
    let mut printer = opened();
    printer.driver.fail_write_at = Some(1);
    assert!(printer.init().is_err());
    assert_eq!(printer.driver.log, vec!["drain", "write", "write"]);
    assert_eq!(printer.driver.sent_bytes(), vec![0x1B, 0x40]);
}

#[test]
fn cut_writes_the_cut_command() {
    let mut printer = opened();
    assert!(printer.cut().is_ok());
    assert_eq!(printer.driver.written, vec![vec![0x1D, 0x56, 0x42, 0x00]]);
}

#[test]
fn print_writes_the_text_unchanged() {
    let mut printer = opened();
    assert!(printer.print("Total: 3 \u{20ac}\n").is_ok());
    assert_eq!(
        printer.driver.sent_bytes(),
        "Total: 3 \u{20ac}\n".as_bytes().to_vec()
    );
}

#[test]
fn print_then_cut_chain() {
    let mut printer = opened();
    assert!(printer.print("hi").and_then(|p| p.cut()).is_ok());
    assert_eq!(
        printer.driver.written,
        vec![b"hi".to_vec(), vec![0x1D, 0x56, 0x42, 0x00]]
    );
}

#[test]
fn failed_cut_after_print_leaves_the_print() {
    let mut printer = opened();
    printer.driver.fail_write_at = Some(1);
    assert!(printer.print("hi").is_ok());
    assert!(printer.cut().is_err());
    assert_eq!(printer.driver.sent_bytes(), b"hi".to_vec());
}

#[test]
fn print_md_writes_the_compiled_markdown_in_one_write() {
    let mut printer = opened();
    assert!(printer.print_md("# Hi").is_ok());
    assert_eq!(
        printer.driver.written,
        vec![vec![0x1D, 0x21, 0x01, b'H', b'i', 0x1D, 0x21, 0x00, 0x0A, 0x0A]]
    );
}

#[test]
fn status_polls_with_all_four_requests_in_one_write() {
    let mut printer = opened();
    printer.driver.reply = vec![0x12, 0x12, 0x12, 0x12];
    let status = printer.status(|| {});
    assert_eq!(
        printer.driver.written,
        vec![vec![0x10, 0x04, 1, 0x10, 0x04, 2, 0x10, 0x04, 3, 0x10, 0x04, 4]]
    );
    assert_eq!(printer.driver.log, vec!["write", "read"]);
    assert_eq!(
        status,
        Some(PrinterStatus {
            is_online: true,
            offline_cause: None,
            paper_status: PaperStatus::Adequate,
        })
    );
}

#[test]
fn status_settles_between_the_write_and_the_read() {
    let mut printer = opened();
    printer.driver.reply = vec![0x12, 0x12, 0x12, 0x12];
    let mut settled = 0;
    let status = printer.status(|| settled += 1);
    assert!(status.is_some());
    assert_eq!(settled, 1);
}

#[test]
fn status_is_none_on_a_short_read() {
    let mut printer = opened();
    printer.driver.reply = vec![0x12, 0x12, 0x12];
    assert_eq!(printer.status(|| {}), None);
}

#[test]
fn status_is_none_when_the_read_fails() {
    let mut printer = opened();
    printer.driver.reply = vec![0x12, 0x12, 0x12, 0x12];
    printer.driver.fail_read = true;
    assert_eq!(printer.status(|| {}), None);
}

#[test]
fn status_is_none_when_the_write_fails_and_nothing_is_read() {
    let mut printer = opened();
    printer.driver.reply = vec![0x12, 0x12, 0x12, 0x12];
    printer.driver.fail_write_at = Some(0);
    let mut settled = 0;
    assert_eq!(printer.status(|| settled += 1), None);
    assert_eq!(settled, 0);
    assert_eq!(printer.driver.log, vec!["write"]);
}

#[test]
fn status_is_none_when_the_reply_does_not_decode() {
    let mut printer = opened();
    printer.driver.reply = vec![0x12, 0x12, 0x00, 0x12];
    assert_eq!(printer.status(|| {}), None);
}

#[test]
fn decode_reply_wants_all_four_bytes() {
    let reply = [0x12, 0x12, 0x12, 0x12];
    assert!(decode_reply(&Ok(4), &reply).is_some());
    assert_eq!(decode_reply(&Ok(3), &reply), None);
    assert_eq!(decode_reply(&Ok(0), &reply), None);
    assert_eq!(decode_reply(&Err(Script::failure("x")), &reply), None);
}

#[test]
fn after_hands_on_the_value_of_a_step_that_went_through() {
    assert_eq!(after(Ok(()), 5u8).unwrap(), 5);
    assert_eq!(after(Ok(()), "x").unwrap(), "x");
}

#[test]
fn after_hands_on_the_error_of_a_step_that_failed() {
    match after(Err(Script::failure("drain failed")), 5u8) {
        Err(PrintyError::Driver { kind, context, source }) => {
            assert_eq!(kind, DriverKind::Usb);
            assert_eq!(context, "drain failed");
            assert_eq!(source, None);
        }
        _ => panic!("expected the error of the step"),
    }
}

#[test]
fn new_fails_with_the_error_of_the_second_write() {
    let mut script = Script::new();
    script.fail_write_at = Some(1);
    match Printer::new(script) {
        Err(PrintyError::Driver { context, .. }) => assert_eq!(context, "write failed"),
        _ => panic!("expected the error of the write"),
    }
}

#[test]
fn printer_over_the_debug_transport_opens_with_two_writes() {
    let printer = Printer::new(DebugDriver::default()).unwrap();
    assert_eq!(printer.driver.write_count(), 2);
    assert_eq!(printer.driver.read_count(), 0);
}

#[test]
fn printer_over_the_debug_transport_decodes_the_typed_reply() {
    let mut printer = Printer::new(DebugDriver::default()).unwrap();
    printer.driver.type_line("0x1a 0x16 0x12 0x12\n".to_string());
    let status = printer.status(|| {}).unwrap();
    assert!(!status.is_online);
    assert!(status.offline_cause.unwrap().is_cover_open);
    assert_eq!(printer.driver.write_count(), 3);
    assert_eq!(printer.driver.read_count(), 1);
}

#[test]
fn printer_over_the_debug_transport_has_no_status_for_a_short_or_bad_reply() {
    let mut printer = Printer::new(DebugDriver::default()).unwrap();
    printer.driver.type_line("12 12 12".to_string());
    assert_eq!(printer.status(|| {}), None);
    printer.driver.type_line("12 12 12 zz".to_string());
    assert_eq!(printer.status(|| {}), None);
    assert_eq!(printer.status(|| {}), None);
}

#[test]
fn printer_can_be_put_together_from_a_transport() {
    let mut printer = Printer {
        driver: Script::new(),
    };
    assert!(printer.cut().is_ok());
    assert_eq!(printer.driver.log, vec!["write"]);
}
