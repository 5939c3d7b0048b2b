//! What the printer reports of itself: the four real-time status bytes and
//! the state they stand for.

use vstd::prelude::*;
use vstd::string::*;

verus! {

/// Bits that every status byte holds at a fixed value.
pub const STATUS_FIXED_MASK: u8 = 0b1001_0011;

/// The value of the fixed bits.
pub const STATUS_FIXED_BITS: u8 = 0b0001_0010;

/// Why the printer reports an error.
#[derive(Debug, Clone, Copy, PartialEq, Eq, Structural)]
pub struct PrinterError {
    pub is_cutter_error: bool,
    pub is_fatal_error: bool,
    pub is_recoverable_error: bool,
}

/// Why the printer is offline.
#[derive(Debug, Clone, Copy, PartialEq, Eq, Structural)]
pub struct OfflineCause {
    pub is_cover_open: bool,
    pub is_paper_empty: bool,
    /// Present only while the printer signals an error.
    pub error: Option<PrinterError>,
}

/// How much paper the sensors see.
#[derive(Debug, Clone, Copy, PartialEq, Eq, Structural)]
pub enum PaperStatus {
    Adequate,
    NearEnd,
    NotPresent,
}

/// The state of the printer as one status poll shows it.
#[derive(Debug, Clone, Copy, PartialEq, Eq, Structural)]
pub struct PrinterStatus {
    pub is_online: bool,
    /// Present only while the printer is offline.
    pub offline_cause: Option<OfflineCause>,
    pub paper_status: PaperStatus,
}

/// Whether a status byte holds the fixed bits that the protocol prescribes.
pub open spec fn matches_template(b: u8) -> bool {
    b & STATUS_FIXED_MASK == STATUS_FIXED_BITS
}

/// The paper status that the paper-sensor byte reports. The paper-end
/// sensor goes first: once it sees no paper, the near-end sensor is not
/// asked.
pub open spec fn paper_status_of(paper: u8) -> PaperStatus {
    if paper & 0b110_0000 != 0 {
        PaperStatus::NotPresent
    } else if paper & 0b1100 != 0 {
        PaperStatus::NearEnd
    } else {
        PaperStatus::Adequate
    }
}

/// The error that the error-cause byte reports.
pub open spec fn printer_error_of(error_cause: u8) -> PrinterError {
    PrinterError {
        is_cutter_error: error_cause & 0b1000 != 0,
        is_fatal_error: error_cause & 0b10_0000 != 0,
        is_recoverable_error: error_cause & 0b100_0000 != 0,
    }
}

/// The cause that the offline-cause byte reports; the error-cause byte is
/// read only where the offline-cause byte signals an error.
pub open spec fn offline_cause_of(offline_cause: u8, error_cause: u8) -> OfflineCause {
    OfflineCause {
        is_cover_open: offline_cause & 0b100 != 0,
        is_paper_empty: offline_cause & 0b10_0000 != 0,
        error: if offline_cause & 0b100_0000 != 0 {
            Some(printer_error_of(error_cause))
        } else {
            None
        },
    }
}

/// Whether the printer-status byte reports the printer online.
pub open spec fn online_of(device: u8) -> bool {
    device & 0b1000 == 0
}

/// What a reply of four status bytes means, in the order printer status,
/// offline cause, error cause, paper sensors. A reply with a byte that does
/// not hold the fixed bits means nothing.
pub open spec fn decode_status(bytes: Seq<u8>) -> Option<PrinterStatus>
    recommends
        bytes.len() == 4,
{
    if matches_template(bytes[0]) && matches_template(bytes[1]) && matches_template(bytes[2])
        && matches_template(bytes[3]) {
        Some(
            PrinterStatus {
                is_online: online_of(bytes[0]),
                offline_cause: if online_of(bytes[0]) {
                    None
                } else {
                    Some(offline_cause_of(bytes[1], bytes[2]))
                },
                paper_status: paper_status_of(bytes[3]),
            },
        )
    } else {
        None
    }
}

impl PrinterStatus {
    /// A status names a cause only while it is offline.
    pub open spec fn well_formed(self) -> bool {
        self.offline_cause is Some ==> !self.is_online
    }

    /// Decodes the reply to a status poll.
    pub fn from_bytes(bytes: &[u8; 4]) -> (status: Option<PrinterStatus>)
        ensures
            status == decode_status(bytes@),
            status is None <==> exists|i: int| 0 <= i < 4 && !matches_template(#[trigger] bytes@[i]),
            status matches Some(s) ==> s.well_formed(),
    {
        let device: u8 = bytes[0];
        let offline: u8 = bytes[1];
        let error: u8 = bytes[2];
        let paper: u8 = bytes[3];
        if !(fixed_bits_hold(device) && fixed_bits_hold(offline) && fixed_bits_hold(error)
            && fixed_bits_hold(paper)) {
            return None;
        }
        let is_online: bool = device & 0b1000 == 0;
        let paper_status = if paper & 0b110_0000 != 0 {
            PaperStatus::NotPresent
        } else if paper & 0b1100 != 0 {
            PaperStatus::NearEnd
        } else {
            PaperStatus::Adequate
        };
        let offline_cause = if is_online {
            None
        } else {
            let off_err = if offline & 0b100_0000 != 0 {
                Some(
                    PrinterError {
                        is_cutter_error: error & 0b1000 != 0,
                        is_fatal_error: error & 0b10_0000 != 0,
                        is_recoverable_error: error & 0b100_0000 != 0,
                    },
                )
            } else {
                None
            };
            Some(
                OfflineCause {
                    is_cover_open: offline & 0b100 != 0,
                    is_paper_empty: offline & 0b10_0000 != 0,
                    error: off_err,
                },
            )
        };
        Some(PrinterStatus { is_online, offline_cause, paper_status })
    }
}

/// The texts with `sep` between each two of them.
pub open spec fn joined(items: Seq<Seq<char>>, sep: Seq<char>) -> Seq<char>
    decreases items.len(),
{
    if items.len() == 0 {
        Seq::empty()
    } else if items.len() == 1 {
        items[0]
    } else {
        joined(items.drop_last(), sep) + sep + items.last()
    }
}

/// The text alone where `present` holds, and nothing where it does not.
pub open spec fn only_if(present: bool, text: Seq<char>) -> Seq<Seq<char>> {
    if present {
        seq![text]
    } else {
        Seq::empty()
    }
}

/// How a status line shows whether the printer is online.
pub open spec fn online_text(is_online: bool) -> Seq<char> {
    if is_online {
        "\x1b[32;1mONLINE\x1b[0m"@
    } else {
        "\x1b[31;1mOFFLINE\x1b[0m"@
    }
}

/// How a status line shows the paper.
pub open spec fn paper_text(paper: PaperStatus) -> Seq<char> {
    match paper {
        PaperStatus::Adequate => "\x1b[32;1mOK\x1b[0m"@,
        PaperStatus::NotPresent => "\x1b[31;1mEMPTY\x1b[0m"@,
        PaperStatus::NearEnd => "\x1b[33;1mLOW\x1b[0m"@,
    }
}

/// The issues that an error stands for: fatal, recovering by itself, cutter.
pub open spec fn error_issues(error: Option<PrinterError>) -> Seq<Seq<char>> {
    match error {
        Some(e) => only_if(e.is_fatal_error, "\x1b[31;1mfatal-error\x1b[0m"@) + only_if(
            e.is_recoverable_error,
            "\x1b[33;1mauto-recovery\x1b[0m"@,
        ) + only_if(e.is_cutter_error, "\x1b[35mcutter-error\x1b[0m"@),
        None => Seq::empty(),
    }
}

/// The issues that a status line lists for an offline printer: those of the
/// error first, then the open cover, then the missing paper.
pub open spec fn issue_texts(cause: OfflineCause) -> Seq<Seq<char>> {
    error_issues(cause.error) + only_if(cause.is_cover_open, "\x1b[35mcover-open\x1b[0m"@)
        + only_if(cause.is_paper_empty, "\x1b[35mno-paper\x1b[0m"@)
}

/// The end of a status line: the issues of an offline printer, where there
/// are any.
pub open spec fn issues_suffix(status: PrinterStatus) -> Seq<char> {
    match status.offline_cause {
        Some(cause) if !status.is_online && issue_texts(cause).len() > 0 => " - Issues: "@
            + joined(issue_texts(cause), ", "@),
        _ => Seq::empty(),
    }
}

/// The status as one line of text, coloured for a terminal.
pub open spec fn status_text(status: PrinterStatus) -> Seq<char> {
    "Status: "@ + online_text(status.is_online) + " - Paper: "@ + paper_text(status.paper_status)
        + issues_suffix(status)
}

/// The views of string slices.
pub open spec fn texts_of(items: Seq<&'static str>) -> Seq<Seq<char>> {
    items.map_values(|s: &'static str| s@)
}

fn push_joined(out: &mut String, items: &Vec<&'static str>, sep: &str)
    ensures
        final(out)@ == old(out)@ + joined(texts_of(items@), sep@),
{
    let ghost texts = texts_of(items@);
    let mut i: usize = 0;
    while i < items.len()
        invariant
            i <= items.len(),
            texts == texts_of(items@),
            out@ == old(out)@ + joined(texts.take(i as int), sep@),
        decreases items.len() - i,
    {
        if i > 0 {
            out.append(sep);
        }
        out.append(items[i]);
        assert(texts.take(i + 1).drop_last() =~= texts.take(i as int));
        i += 1;
    }
    assert(texts.take(i as int) =~= texts);
}

fn collect_issues(cause: &OfflineCause) -> (issues: Vec<&'static str>)
    ensures
        texts_of(issues@) == issue_texts(*cause),
{
    let mut issues: Vec<&'static str> = Vec::new();
    if let Some(error) = &cause.error {
        if error.is_fatal_error {
            issues.push("\x1b[31;1mfatal-error\x1b[0m");
        }
        if error.is_recoverable_error {
            issues.push("\x1b[33;1mauto-recovery\x1b[0m");
        }
        if error.is_cutter_error {
            issues.push("\x1b[35mcutter-error\x1b[0m");
        }
    }
    if cause.is_cover_open {
        issues.push("\x1b[35mcover-open\x1b[0m");
    }
    if cause.is_paper_empty {
        issues.push("\x1b[35mno-paper\x1b[0m");
    }
    issues
}

impl PrinterStatus {
    /// The status as one line of text, coloured for a terminal.
    pub fn to_text(&self) -> (out: String)
        ensures
            out@ == status_text(*self),
    {
        let mut out = String::new();
        out.append("Status: ");
        out.append(
            if self.is_online {
                "\x1b[32;1mONLINE\x1b[0m"
            } else {
                "\x1b[31;1mOFFLINE\x1b[0m"
            },
        );
        out.append(" - Paper: ");
        out.append(
            match self.paper_status {
                PaperStatus::Adequate => "\x1b[32;1mOK\x1b[0m",
                PaperStatus::NotPresent => "\x1b[31;1mEMPTY\x1b[0m",
                PaperStatus::NearEnd => "\x1b[33;1mLOW\x1b[0m",
            },
        );
        if !self.is_online {
            if let Some(cause) = &self.offline_cause {
                let issues = collect_issues(cause);
                if issues.len() > 0 {
                    out.append(" - Issues: ");
                    push_joined(&mut out, &issues, ", ");
                }
            }
        }
        out
    }
}

fn fixed_bits_hold(b: u8) -> (ok: bool)
    ensures
        ok == matches_template(b),
{
    b & STATUS_FIXED_MASK == STATUS_FIXED_BITS
}

/// Whether all four bytes of a reply hold the fixed bits.
pub open spec fn reply_is_valid(bytes: Seq<u8>) -> bool {
    bytes.len() == 4 && forall|i: int| 0 <= i < 4 ==> matches_template(#[trigger] bytes[i])
}

/// A reply with a byte that does not hold the fixed bits decodes to nothing,
/// and every other reply decodes to a status.
pub proof fn lemma_decode_checks_template(bytes: Seq<u8>)
    requires
        bytes.len() == 4,
    ensures
        decode_status(bytes) is None <==> !reply_is_valid(bytes),
{
}

/// A reply that reports the printer online, with neither paper sensor
/// raised, decodes to an online printer with enough paper and no cause.
pub proof fn lemma_decode_online(bytes: Seq<u8>)
    requires
        reply_is_valid(bytes),
        bytes[0] & 0b1000 == 0,
        bytes[3] & 0b110_1100 == 0,
    ensures
        decode_status(bytes) == Some(
            PrinterStatus {
                is_online: true,
                offline_cause: None,
                paper_status: PaperStatus::Adequate,
            },
        ),
{
    let paper = bytes[3];
    assert(paper & 0b110_0000 == 0 && paper & 0b1100 == 0) by (bit_vector)
        requires
            paper & 0b110_1100 == 0,
    ;
}

/// A reply that reports the printer offline with the cover open and no
/// error decodes to an offline printer whose cause names the open cover and
/// no error, whatever the error-cause byte holds.
pub proof fn lemma_decode_cover_open(bytes: Seq<u8>)
    requires
        reply_is_valid(bytes),
        bytes[0] & 0b1000 != 0,
        bytes[1] & 0b100 != 0,
        bytes[1] & 0b100_0000 == 0,
    ensures
        decode_status(bytes) matches Some(s) && !s.is_online && (s.offline_cause matches Some(c)
            && c.is_cover_open && c.error is None),
{
}

/// A reply that reports the printer offline with an error, and in the
/// error-cause byte the fatal bit alone, decodes to an error that is fatal,
/// not recoverable and not of the cutter.
pub proof fn lemma_decode_fatal_error(bytes: Seq<u8>)
    requires
        reply_is_valid(bytes),
        bytes[0] & 0b1000 != 0,
        bytes[1] & 0b100_0000 != 0,
        bytes[2] & 0b10_0000 != 0,
        bytes[2] & 0b100_1000 == 0,
    ensures
        decode_status(bytes) matches Some(s) && !s.is_online && (s.offline_cause matches Some(c)
            && c.error == Some(
            PrinterError {
                is_cutter_error: false,
                is_fatal_error: true,
                is_recoverable_error: false,
            },
        )),
{
    let error = bytes[2];
    assert(error & 0b1000 == 0 && error & 0b100_0000 == 0) by (bit_vector)
        requires
            error & 0b100_1000 == 0,
    ;
}

/// The paper-end sensor goes before the near-end sensor: a reply whose
/// paper byte raises the paper-end bits decodes to missing paper, whatever
/// the near-end bits hold.
pub proof fn lemma_paper_end_goes_first(paper: u8)
    ensures
        paper & 0b110_0000 != 0 ==> paper_status_of(paper) == PaperStatus::NotPresent,
        paper & 0b110_0000 == 0 && paper & 0b1100 != 0 ==> paper_status_of(paper)
            == PaperStatus::NearEnd,
        paper & 0b110_1100 == 0 ==> paper_status_of(paper) == PaperStatus::Adequate,
{
    assert(paper & 0b110_1100 == 0 ==> paper & 0b110_0000 == 0 && paper & 0b1100 == 0)
        by (bit_vector);
}

/// Every decoded status names a cause exactly when the printer is offline.
pub proof fn lemma_decoded_is_well_formed(bytes: Seq<u8>)
    requires
        bytes.len() == 4,
    ensures
        decode_status(bytes) matches Some(s) ==> s.well_formed() && (s.offline_cause is Some
            <==> !s.is_online),
{
}

} // verus!
