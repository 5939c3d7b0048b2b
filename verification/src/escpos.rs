//! The ESC/POS commands that the printer is sent, as the bytes on the wire.

use vstd::prelude::*;

verus! {

/// Escape: the first byte of most commands.
pub const ESC: u8 = 0x1B;

/// Data link escape: the first byte of a real-time command.
pub const DLE: u8 = 0x10;

/// End of transmission: the second byte of a real-time status request.
pub const EOT: u8 = 0x04;

/// Group separator: the first byte of the other commands.
pub const GS: u8 = 0x1D;

/// Line feed.
pub const LF: u8 = 0x0A;

/// Time the printer needs to act on a command before it can answer, in
/// milliseconds.
pub const CMD_PROC_DELAY_MS: u64 = 500;

/// Largest magnification that the character-size command encodes.
pub const MAX_MAGNIFY: u8 = 8;

/// Resets the printer to the state it had at power-on.
pub const CMD_INIT: [u8; 2] = [ESC, 0x40];

/// Turns off the status bytes that the printer sends unasked.
pub const CMD_DISABLE_ASB: [u8; 3] = [GS, 0x61, 0];

/// Cuts the paper right after the last printed line (feed amount 0).
pub const CMD_CUT: [u8; 4] = [GS, 0x56, 66, 0];

/// Prints the line buffer and feeds one line.
pub const CMD_PRINT_AND_FEED: [u8; 1] = [LF];

/// Which of the four real-time status bytes a request asks for.
#[derive(Debug, Clone, Copy, PartialEq, Eq, Structural)]
pub enum RtStatusReq {
    PrinterStatus,
    OfflineCause,
    ErrorCause,
    PaperStatus,
}

impl RtStatusReq {
    /// The parameter byte of the request.
    pub open spec fn code(self) -> u8 {
        match self {
            RtStatusReq::PrinterStatus => 1,
            RtStatusReq::OfflineCause => 2,
            RtStatusReq::ErrorCause => 3,
            RtStatusReq::PaperStatus => 4,
        }
    }

    /// The parameter byte of the request.
    pub fn to_byte(self) -> (b: u8)
        ensures
            b == self.code(),
    {
        match self {
            RtStatusReq::PrinterStatus => 1,
            RtStatusReq::OfflineCause => 2,
            RtStatusReq::ErrorCause => 3,
            RtStatusReq::PaperStatus => 4,
        }
    }
}

/// Horizontal alignment of the printed line.
#[derive(Debug, Clone, Copy, PartialEq, Eq, Structural)]
pub enum JustifyReq {
    Left,
    Center,
    Right,
}

impl JustifyReq {
    /// The parameter byte of the alignment.
    pub open spec fn code(self) -> u8 {
        match self {
            JustifyReq::Left => 0,
            JustifyReq::Center => 1,
            JustifyReq::Right => 2,
        }
    }

    /// The parameter byte of the alignment.
    pub fn to_byte(self) -> (b: u8)
        ensures
            b == self.code(),
    {
        match self {
            JustifyReq::Left => 0,
            JustifyReq::Center => 1,
            JustifyReq::Right => 2,
        }
    }
}

/// A flag as the printer expects it: one byte, 1 for on and 0 for off.
pub open spec fn flag_byte(enable: bool) -> u8 {
    if enable {
        1
    } else {
        0
    }
}

/// A magnification as the printer encodes it: anything above the largest
/// one counts as the largest.
pub open spec fn clamp_magnify(m: u8) -> u8 {
    if m > MAX_MAGNIFY {
        MAX_MAGNIFY
    } else {
        m
    }
}

/// The parameter byte of the character-size command: the width in the high
/// four bits, the height in the low four.
pub open spec fn size_byte(h_magnify: u8, w_magnify: u8) -> u8 {
    (16 * clamp_magnify(w_magnify) + clamp_magnify(h_magnify)) as u8
}

/// The request for one real-time status byte.
pub open spec fn rt_status_bytes(req: RtStatusReq) -> Seq<u8> {
    seq![DLE, EOT, req.code()]
}

/// The command that turns emphasized print on or off.
pub open spec fn bold_bytes(enable: bool) -> Seq<u8> {
    seq![ESC, 0x45u8, flag_byte(enable)]
}

/// The command that turns underlining on or off.
pub open spec fn underline_bytes(enable: bool) -> Seq<u8> {
    seq![ESC, 0x2Du8, flag_byte(enable)]
}

/// The command that selects the character size.
pub open spec fn char_size_bytes(h_magnify: u8, w_magnify: u8) -> Seq<u8> {
    seq![GS, 0x21u8, size_byte(h_magnify, w_magnify)]
}

/// The command that selects the alignment.
pub open spec fn justify_bytes(req: JustifyReq) -> Seq<u8> {
    seq![ESC, 0x61u8, req.code()]
}

/// The command that prints the line buffer and feeds `n` lines.
pub open spec fn feed_lines_bytes(n: u8) -> Seq<u8> {
    seq![ESC, 0x64u8, n]
}

/// The four status requests in the order in which the reply is decoded.
pub open spec fn status_poll_bytes() -> Seq<u8> {
    rt_status_bytes(RtStatusReq::PrinterStatus) + rt_status_bytes(RtStatusReq::OfflineCause)
        + rt_status_bytes(RtStatusReq::ErrorCause) + rt_status_bytes(RtStatusReq::PaperStatus)
}

fn command(first: u8, second: u8, param: u8) -> (out: Vec<u8>)
    ensures
        out@ == seq![first, second, param],
{
    let mut out: Vec<u8> = Vec::with_capacity(3);
    out.push(first);
    out.push(second);
    out.push(param);
    out
}

fn flag(enable: bool) -> (b: u8)
    ensures
        b == flag_byte(enable),
{
    if enable {
        1
    } else {
        0
    }
}

fn clamped(m: u8) -> (c: u8)
    ensures
        c == clamp_magnify(m),
{
    if m > MAX_MAGNIFY {
        MAX_MAGNIFY
    } else {
        m
    }
}

/// Asks for one real-time status byte.
#[allow(non_snake_case)]
pub fn CMD_RT_STATUS(req: RtStatusReq) -> (out: Vec<u8>)
    ensures
        out@ == rt_status_bytes(req),
{
    command(DLE, EOT, req.to_byte())
}

/// Turns emphasized print on or off.
#[allow(non_snake_case)]
pub fn CMD_BOLD(enable: bool) -> (out: Vec<u8>)
    ensures
        out@ == bold_bytes(enable),
{
    command(ESC, 0x45, flag(enable))
}

/// Turns underlining on or off.
#[allow(non_snake_case)]
pub fn CMD_UNDERLINE(enable: bool) -> (out: Vec<u8>)
    ensures
        out@ == underline_bytes(enable),
{
    command(ESC, 0x2D, flag(enable))
}

/// Selects the character size. Each magnification counts from 0 (normal
/// size); one above 8 is taken as 8.
#[allow(non_snake_case)]
pub fn CMD_CHAR_SIZE(h_magnify: u8, w_magnify: u8) -> (out: Vec<u8>)
    ensures
        out@ == char_size_bytes(h_magnify, w_magnify),
{
    let h: u8 = clamped(h_magnify);
    let w: u8 = clamped(w_magnify);
    let packed: u8 = (w << 4) | h;
    assert(packed == 16 * w + h) by (bit_vector)
        requires
            packed == (w << 4) | h,
            w <= 8,
            h <= 8,
    ;
    command(GS, 0x21, packed)
}

/// Selects the alignment of the lines that follow.
#[allow(non_snake_case)]
pub fn CMD_JUSTIFY(req: JustifyReq) -> (out: Vec<u8>)
    ensures
        out@ == justify_bytes(req),
{
    command(ESC, 0x61, req.to_byte())
}

/// Prints the line buffer and feeds `n` lines.
#[allow(non_snake_case)]
pub fn CMD_PRINT_AND_FEED_LINES(n: u8) -> (out: Vec<u8>)
    ensures
        out@ == feed_lines_bytes(n),
{
    command(ESC, 0x64, n)
}

/// The four status requests as one write.
#[allow(non_snake_case)]
pub fn CMD_STATUS_POLL() -> (out: Vec<u8>)
    ensures
        out@ == status_poll_bytes(),
{
    let mut out: Vec<u8> = CMD_RT_STATUS(RtStatusReq::PrinterStatus);
    let mut second: Vec<u8> = CMD_RT_STATUS(RtStatusReq::OfflineCause);
    let mut third: Vec<u8> = CMD_RT_STATUS(RtStatusReq::ErrorCause);
    let mut fourth: Vec<u8> = CMD_RT_STATUS(RtStatusReq::PaperStatus);
    out.append(&mut second);
    out.append(&mut third);
    out.append(&mut fourth);
    out
}

/// Magnifications above the largest one encode as the largest one does.
pub proof fn lemma_char_size_clamps(h_magnify: u8, w_magnify: u8)
    ensures
        char_size_bytes(h_magnify, w_magnify) == char_size_bytes(
            clamp_magnify(h_magnify),
            clamp_magnify(w_magnify),
        ),
        h_magnify > MAX_MAGNIFY ==> char_size_bytes(h_magnify, w_magnify) == char_size_bytes(
            MAX_MAGNIFY,
            w_magnify,
        ),
        w_magnify > MAX_MAGNIFY ==> char_size_bytes(h_magnify, w_magnify) == char_size_bytes(
            h_magnify,
            MAX_MAGNIFY,
        ),
{
}

} // verus!
