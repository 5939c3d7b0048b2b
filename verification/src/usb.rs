//! The USB transport without the bus: which device and which endpoints it
//! takes, what it does when a transfer fails, and when it stops draining.
//! The transfers themselves are made by the caller.

use crate::error::{result_view, DriverKind, ErrorView, PrintyError, PrintyResult};
use crate::text::{decimal, hex_list, hex_prefixed, push_decimal, push_hex_list, push_hex_prefixed};
use vstd::prelude::*;
use vstd::string::*;

verus! {

/// Vendor number of the printer that is looked for by default, an Epson
/// TM-T88IV.
pub const DEFAULT_VENDOR_ID: u16 = 0x4b8;

/// Product number of the printer that is looked for by default.
pub const DEFAULT_PRODUCT_ID: u16 = 0x202;

/// Size of the buffer that draining reads into, in bytes.
pub const DRAIN_CHUNK: usize = 16;

/// Time after which a transfer is given up, in seconds.
pub const IO_TIMEOUT_SECS: u64 = 5;

/// The direction of an endpoint, seen from the host.
#[derive(Debug, Clone, Copy, PartialEq, Eq, Structural)]
pub enum Direction {
    In,
    Out,
}

/// The kind of transfer that an endpoint makes.
#[derive(Debug, Clone, Copy, PartialEq, Eq, Structural)]
pub enum TransferType {
    Control,
    Isochronous,
    Bulk,
    Interrupt,
}

/// One endpoint of an interface, as its descriptor gives it.
#[derive(Debug, Clone, Copy, PartialEq, Eq, Structural)]
pub struct EndpointInfo {
    pub address: u8,
    pub direction: Direction,
    pub transfer_type: TransferType,
}

/// One setting of an interface of the active configuration.
#[derive(Debug)]
pub struct InterfaceInfo {
    pub number: u8,
    pub endpoints: Vec<EndpointInfo>,
}

/// The vendor and product number of a device on the bus.
#[derive(Debug, Clone, Copy, PartialEq, Eq, Structural)]
pub struct DeviceId {
    pub vendor_id: u16,
    pub product_id: u16,
}

/// The USB transport as far as it is plain data: the interface it claims,
/// its two bulk endpoints, and its patience.
#[derive(Debug, Clone, Copy, PartialEq, Eq, Structural)]
pub struct UsbDriver {
    pub in_ept_addr: u8,
    pub out_ept_addr: u8,
    pub if_num: u8,
    pub io_timeout_secs: u64,
}

/// Whether an endpoint makes bulk transfers in the given direction.
pub open spec fn is_bulk(endpoint: EndpointInfo, direction: Direction) -> bool {
    endpoint.transfer_type == TransferType::Bulk && endpoint.direction == direction
}

/// The address of the last bulk endpoint in the given direction.
pub open spec fn last_bulk(endpoints: Seq<EndpointInfo>, direction: Direction) -> Option<u8>
    decreases endpoints.len(),
{
    if endpoints.len() == 0 {
        None
    } else if is_bulk(endpoints.last(), direction) {
        Some(endpoints.last().address)
    } else {
        last_bulk(endpoints.drop_last(), direction)
    }
}

/// The transport on an interface setting that has bulk endpoints in both
/// directions.
pub open spec fn transport_on(interface: InterfaceInfo) -> Option<UsbDriver> {
    match (
        last_bulk(interface.endpoints@, Direction::In),
        last_bulk(interface.endpoints@, Direction::Out),
    ) {
        (Some(in_ept_addr), Some(out_ept_addr)) => Some(
            UsbDriver {
                in_ept_addr,
                out_ept_addr,
                if_num: interface.number,
                io_timeout_secs: IO_TIMEOUT_SECS,
            },
        ),
        _ => None,
    }
}

/// The transport on the first interface setting that allows one.
pub open spec fn first_transport(interfaces: Seq<InterfaceInfo>) -> Option<UsbDriver>
    decreases interfaces.len(),
{
    if interfaces.len() == 0 {
        None
    } else {
        match transport_on(interfaces[0]) {
            Some(transport) => Some(transport),
            None => first_transport(interfaces.drop_first()),
        }
    }
}

/// The position of the first device with the given numbers. A device whose
/// numbers could not be read stands as `None` and is passed over.
pub open spec fn first_match(devices: Seq<Option<DeviceId>>, wanted: DeviceId) -> Option<int>
    decreases devices.len(),
{
    if devices.len() == 0 {
        None
    } else if devices[0] == Some(wanted) {
        Some(0)
    } else {
        match first_match(devices.drop_first(), wanted) {
            Some(i) => Some(i + 1),
            None => None,
        }
    }
}

/// The words for a device, as the messages show it.
pub open spec fn device_text(vid: u16, pid: u16) -> Seq<char> {
    "(vid="@ + hex_prefixed(vid as nat) + ", pid="@ + hex_prefixed(pid as nat) + ")"@
}

/// The error for a device that is not on the bus.
pub open spec fn device_not_found(vid: u16, pid: u16) -> ErrorView {
    ErrorView::Driver {
        kind: DriverKind::Usb,
        context: "Device "@ + device_text(vid, pid) + " not found"@,
        source: None,
    }
}

/// The error for a device without an interface that has bulk endpoints in
/// both directions.
pub open spec fn no_bulk_endpoints(vid: u16, pid: u16) -> ErrorView {
    ErrorView::Driver {
        kind: DriverKind::Usb,
        context: "No suitable bulk endpoints found for device with VID: "@ + hex_prefixed(
            vid as nat,
        ) + ", PID: "@ + hex_prefixed(pid as nat),
        source: None,
    }
}

/// The error for an interface that could not be claimed.
pub open spec fn claim_failed(if_num: u8, source: Seq<char>) -> ErrorView {
    ErrorView::Driver {
        kind: DriverKind::Usb,
        context: "Failed to claim USB interface "@ + decimal(if_num as nat),
        source: Some(source),
    }
}

fn scan_endpoints(endpoints: &Vec<EndpointInfo>) -> (found: (Option<u8>, Option<u8>))
    ensures
        found.0 == last_bulk(endpoints@, Direction::In),
        found.1 == last_bulk(endpoints@, Direction::Out),
{
    let mut in_ept: Option<u8> = None;
    let mut out_ept: Option<u8> = None;
    let mut i: usize = 0;
    while i < endpoints.len()
        invariant
            i <= endpoints.len(),
            in_ept == last_bulk(endpoints@.take(i as int), Direction::In),
            out_ept == last_bulk(endpoints@.take(i as int), Direction::Out),
        decreases endpoints.len() - i,
    {
        let ept = endpoints[i];
        assert(endpoints@.take(i + 1).drop_last() =~= endpoints@.take(i as int));
        match (ept.direction, ept.transfer_type) {
            (Direction::In, TransferType::Bulk) => {
                in_ept = Some(ept.address);
            },
            (Direction::Out, TransferType::Bulk) => {
                out_ept = Some(ept.address);
            },
            _ => {},
        }
        i = i + 1;
    }
    assert(endpoints@.take(i as int) =~= endpoints@);
    (in_ept, out_ept)
}

fn push_device(out: &mut String, vid: u16, pid: u16)
    ensures
        final(out)@ == old(out)@ + device_text(vid, pid),
{
    out.append("(vid=");
    push_hex_prefixed(out, vid as u64);
    out.append(", pid=");
    push_hex_prefixed(out, pid as u64);
    out.append(")");
}

/// Finds the first device with the given numbers among those on the bus.
pub fn find_device(devices: &Vec<Option<DeviceId>>, vid: u16, pid: u16) -> (r: PrintyResult<
    usize,
>)
    ensures
        match first_match(devices@, DeviceId { vendor_id: vid, product_id: pid }) {
            Some(i) => r matches Ok(found) && found == i,
            None => r matches Err(e) && e@ == device_not_found(vid, pid),
        },
{
    let ghost wanted = DeviceId { vendor_id: vid, product_id: pid };
    let mut i: usize = 0;
    assert(devices@.skip(0) =~= devices@);
    while i < devices.len()
        invariant
            i <= devices.len(),
            wanted == (DeviceId { vendor_id: vid, product_id: pid }),
            first_match(devices@, wanted) == match first_match(devices@.skip(i as int), wanted) {
                Some(k) => Some(k + i),
                None => None,
            },
        decreases devices.len() - i,
    {
        let ghost rest = devices@.skip(i as int);
        assert(rest.drop_first() =~= devices@.skip(i + 1));
        if let Some(id) = devices[i] {
            if id.vendor_id == vid && id.product_id == pid {
                return Ok(i);
            }
        }
        i = i + 1;
    }
    let mut context = String::new();
    context.append("Device ");
    push_device(&mut context, vid, pid);
    context.append(" not found");
    Err(PrintyError::Driver { kind: DriverKind::Usb, context, source: None })
}

/// The error for an interface that could not be claimed, with the words of
/// the failure.
pub fn claim_failure(if_num: u8, source: String) -> (e: PrintyError)
    ensures
        e@ == claim_failed(if_num, source@),
{
    let mut context = String::new();
    context.append("Failed to claim USB interface ");
    push_decimal(&mut context, if_num as u64);
    PrintyError::Driver { kind: DriverKind::Usb, context, source: Some(source) }
}

impl UsbDriver {
    /// Picks the transport for a device from the interface settings of its
    /// active configuration: the first setting with bulk endpoints in both
    /// directions, and of several such endpoints in one direction the last.
    pub fn new(interfaces: &Vec<InterfaceInfo>, vid: u16, pid: u16) -> (r: PrintyResult<UsbDriver>)
        ensures
            match first_transport(interfaces@) {
                Some(transport) => r matches Ok(found) && found == transport,
                None => r matches Err(e) && e@ == no_bulk_endpoints(vid, pid),
            },
    {
        let mut i: usize = 0;
        assert(interfaces@.skip(0) =~= interfaces@);
        while i < interfaces.len()
            invariant
                i <= interfaces.len(),
                first_transport(interfaces@) == first_transport(interfaces@.skip(i as int)),
            decreases interfaces.len() - i,
        {
            let ghost rest = interfaces@.skip(i as int);
            assert(rest.drop_first() =~= interfaces@.skip(i + 1));
            let found = scan_endpoints(&interfaces[i].endpoints);
            if let (Some(in_ept_addr), Some(out_ept_addr)) = found {
                return Ok(
                    UsbDriver {
                        in_ept_addr,
                        out_ept_addr,
                        if_num: interfaces[i].number,
                        io_timeout_secs: IO_TIMEOUT_SECS,
                    },
                );
            }
            i = i + 1;
        }
        let mut context = String::new();
        context.append("No suitable bulk endpoints found for device with VID: ");
        push_hex_prefixed(&mut context, vid as u64);
        context.append(", PID: ");
        push_hex_prefixed(&mut context, pid as u64);
        Err(PrintyError::Driver { kind: DriverKind::Usb, context, source: None })
    }
}

/// Why a transfer, or clearing a halt, failed.
#[derive(Debug)]
pub struct UsbFailure {
    /// Whether the endpoint stalled (a pipe error).
    pub stalled: bool,
    /// The words of the failure.
    pub text: String,
}

/// A failure with its words as a sequence of characters.
pub ghost struct FaultView {
    pub stalled: bool,
    pub text: Seq<char>,
}

impl View for UsbFailure {
    type V = FaultView;

    open spec fn view(&self) -> FaultView {
        FaultView { stalled: self.stalled, text: self.text@ }
    }
}

/// What the caller of a transfer with one retry is doing.
#[derive(Debug, Clone, Copy, PartialEq, Eq, Structural)]
pub enum IoState {
    /// Making the transfer for the first time.
    Trying,
    /// Clearing the halt of the endpoint that stalled.
    ClearingHalt,
    /// Waiting for the printer, then making the transfer once more.
    Retrying,
}

/// What the caller of a transfer does next.
#[derive(Debug)]
pub enum IoNext {
    /// Do what the state says and come back with what came of it.
    Go(IoState),
    /// The transfer is over, with this result.
    Return(PrintyResult<usize>),
}

/// `IoNext` with the texts of its error as sequences of characters.
pub ghost enum IoNextView {
    Go(IoState),
    Return(Result<usize, ErrorView>),
}

/// What came of one step, with the words of a failure as a sequence of
/// characters.
pub open spec fn outcome_view(outcome: Result<usize, UsbFailure>) -> Result<usize, FaultView> {
    match outcome {
        Ok(n) => Ok(n),
        Err(failure) => Err(failure@),
    }
}

impl View for IoNext {
    type V = IoNextView;

    open spec fn view(&self) -> IoNextView {
        match *self {
            IoNext::Go(state) => IoNextView::Go(state),
            IoNext::Return(result) => IoNextView::Return(result_view(result)),
        }
    }
}

/// The error of a transfer: what failed on which endpoint, and the words of
/// the failure as the underlying error.
pub open spec fn io_error(what: Seq<char>, ept_addr: u8, tail: Seq<char>, source: Seq<char>)
    -> ErrorView {
    ErrorView::Driver {
        kind: DriverKind::Usb,
        context: what + hex_prefixed(ept_addr as nat) + tail,
        source: Some(source),
    }
}

/// The error of a first transfer that failed without a stall.
pub open spec fn transfer_failed(ept_addr: u8, text: Seq<char>) -> ErrorView {
    io_error("I/O error on endpoint "@, ept_addr, ": "@ + text, text)
}

/// The error of a halt that could not be cleared.
pub open spec fn clear_halt_failed(ept_addr: u8, text: Seq<char>) -> ErrorView {
    io_error("Failed to clear halt on endpoint "@, ept_addr, Seq::empty(), text)
}

/// The error of a second transfer that failed.
pub open spec fn retry_failed(ept_addr: u8, text: Seq<char>) -> ErrorView {
    io_error("Failed to retry I/O operation on endpoint "@, ept_addr, Seq::empty(), text)
}

/// The retry policy of a transfer. A first transfer that stalls has the
/// halt of its endpoint cleared and is made once more; any other failure,
/// a halt that cannot be cleared, and a second failure end it.
pub open spec fn io_next(state: IoState, ept_addr: u8, outcome: Result<usize, FaultView>)
    -> IoNextView {
    match (state, outcome) {
        (IoState::Trying, Ok(n)) => IoNextView::Return(Ok(n)),
        (IoState::Trying, Err(failure)) => if failure.stalled {
            IoNextView::Go(IoState::ClearingHalt)
        } else {
            IoNextView::Return(Err(transfer_failed(ept_addr, failure.text)))
        },
        (IoState::ClearingHalt, Ok(_)) => IoNextView::Go(IoState::Retrying),
        (IoState::ClearingHalt, Err(failure)) => IoNextView::Return(
            Err(clear_halt_failed(ept_addr, failure.text)),
        ),
        (IoState::Retrying, Ok(n)) => IoNextView::Return(Ok(n)),
        (IoState::Retrying, Err(failure)) => IoNextView::Return(
            Err(retry_failed(ept_addr, failure.text)),
        ),
    }
}

fn io_failure(what: &str, ept_addr: u8, tail: &str, text: String) -> (e: PrintyError)
    ensures
        e@ == io_error(what@, ept_addr, tail@, text@),
{
    let mut context = String::new();
    context.append(what);
    push_hex_prefixed(&mut context, ept_addr as u64);
    context.append(tail);
    PrintyError::Driver { kind: DriverKind::Usb, context, source: Some(text) }
}

/// Decides how a transfer on the endpoint goes on, from what the caller
/// was doing and what came of it. For clearing a halt, any `Ok` counts as
/// done.
pub fn io_step(state: IoState, ept_addr: u8, outcome: Result<usize, UsbFailure>) -> (next: IoNext)
    ensures
        next@ == io_next(state, ept_addr, outcome_view(outcome)),
{
    match outcome {
        Ok(n) => match state {
            IoState::ClearingHalt => IoNext::Go(IoState::Retrying),
            _ => IoNext::Return(Ok(n)),
        },
        Err(failure) => match state {
            IoState::Trying => {
                if failure.stalled {
                    IoNext::Go(IoState::ClearingHalt)
                } else {
                    let mut tail = String::new();
                    tail.append(": ");
                    tail.append(failure.text.as_str());
                    IoNext::Return(
                        Err(
                            io_failure(
                                "I/O error on endpoint ",
                                ept_addr,
                                tail.as_str(),
                                failure.text,
                            ),
                        ),
                    )
                }
            },
            IoState::ClearingHalt => {
                proof {
                    reveal_strlit("");
                }
                IoNext::Return(
                    Err(io_failure("Failed to clear halt on endpoint ", ept_addr, "", failure.text)),
                )
            },
            IoState::Retrying => {
                proof {
                    reveal_strlit("");
                }
                IoNext::Return(
                    Err(
                        io_failure(
                            "Failed to retry I/O operation on endpoint ",
                            ept_addr,
                            "",
                            failure.text,
                        ),
                    ),
                )
            },
        },
    }
}

/// The states that a transfer goes through while its steps come to the
/// given outcomes, one after the other, starting in `state`.
pub open spec fn io_trace(state: IoState, ept_addr: u8, outcomes: Seq<Result<usize, FaultView>>)
    -> Seq<IoState>
    decreases outcomes.len(),
{
    if outcomes.len() == 0 {
        Seq::empty()
    } else {
        seq![state] + match io_next(state, ept_addr, outcomes[0]) {
            IoNextView::Go(next) => io_trace(next, ept_addr, outcomes.drop_first()),
            IoNextView::Return(_) => Seq::empty(),
        }
    }
}

/// The result of a transfer whose steps come to the given outcomes, where
/// these are enough to end it.
pub open spec fn io_result(
    state: IoState,
    ept_addr: u8,
    outcomes: Seq<Result<usize, FaultView>>,
) -> Option<Result<usize, ErrorView>>
    decreases outcomes.len(),
{
    if outcomes.len() == 0 {
        None
    } else {
        match io_next(state, ept_addr, outcomes[0]) {
            IoNextView::Go(next) => io_result(next, ept_addr, outcomes.drop_first()),
            IoNextView::Return(result) => Some(result),
        }
    }
}

/// Whatever the steps come to, a transfer makes its first try, then at most
/// one clearing of the halt, then at most one more try, and is over after
/// that.
pub proof fn lemma_io_is_bounded(ept_addr: u8, outcomes: Seq<Result<usize, FaultView>>)
    ensures
        io_trace(IoState::Trying, ept_addr, outcomes).is_prefix_of(
            seq![IoState::Trying, IoState::ClearingHalt, IoState::Retrying],
        ),
        outcomes.len() >= 3 ==> io_result(IoState::Trying, ept_addr, outcomes) is Some,
{
    reveal_with_fuel(io_trace, 4);
    reveal_with_fuel(io_result, 4);
}

/// A first try that stalls has the halt cleared once and the transfer made
/// once more. What the second try comes to ends the transfer: its count,
/// or an error for any failure, a second stall too.
pub proof fn lemma_stall_retries_once(
    ept_addr: u8,
    stall: FaultView,
    cleared: usize,
    second: Result<usize, FaultView>,
)
    requires
        stall.stalled,
    ensures
        io_trace(IoState::Trying, ept_addr, seq![Err(stall), Ok(cleared), second]) == seq![
            IoState::Trying,
            IoState::ClearingHalt,
            IoState::Retrying,
        ],
        io_result(IoState::Trying, ept_addr, seq![Err(stall), Ok(cleared), second]) == Some(
            match second {
                Ok(n) => Ok::<usize, ErrorView>(n),
                Err(failure) => Err(retry_failed(ept_addr, failure.text)),
            },
        ),
{
    reveal_with_fuel(io_trace, 4);
    reveal_with_fuel(io_result, 4);
}

/// The error of a write that the endpoint took only a part of.
pub open spec fn partial_write(data: Seq<u8>, written: nat) -> ErrorView {
    ErrorView::Driver {
        kind: DriverKind::Usb,
        context: "Partial write: expected "@ + decimal(data.len()) + ", got "@ + decimal(written)
            + " - data: "@ + hex_list(data.take(written as int)),
        source: None,
    }
}

/// What a write of `data` comes to while the steps of its transfer come to
/// the given outcomes: the count where the transfer took all of `data`, the
/// error of a partial write where it took less, and the error of the
/// transfer where that failed. Nothing while the outcomes do not end the
/// transfer.
pub open spec fn write_result(
    data: Seq<u8>,
    ept_addr: u8,
    outcomes: Seq<Result<usize, FaultView>>,
) -> Option<Result<usize, ErrorView>> {
    match io_result(IoState::Trying, ept_addr, outcomes) {
        Some(Ok(n)) => Some(
            if n == data.len() {
                Ok(n)
            } else {
                Err(partial_write(data, n as nat))
            },
        ),
        Some(Err(e)) => Some(Err(e)),
        None => None,
    }
}

/// A write whose first transfer stalls has the halt cleared once and the
/// transfer made once more, and that is all: it ends with the count where
/// the second transfer took all of the data, with the error of a partial
/// write where it took less, and with the error of the retry where it
/// failed, by a stall too.
pub proof fn lemma_write_retries_once(
    data: Seq<u8>,
    ept_addr: u8,
    stall: FaultView,
    cleared: usize,
    second: Result<usize, FaultView>,
)
    requires
        stall.stalled,
    ensures
        io_trace(IoState::Trying, ept_addr, seq![Err(stall), Ok(cleared), second]) == seq![
            IoState::Trying,
            IoState::ClearingHalt,
            IoState::Retrying,
        ],
        write_result(data, ept_addr, seq![Err(stall), Ok(cleared), second]) == Some(
            match second {
                Ok(n) => if n == data.len() {
                    Ok::<usize, ErrorView>(n)
                } else {
                    Err(partial_write(data, n as nat))
                },
                Err(failure) => Err(retry_failed(ept_addr, failure.text)),
            },
        ),
{
    lemma_stall_retries_once(ept_addr, stall, cleared, second);
}

/// The error of a step on the bus that is no transfer: what failed, and
/// the words of the failure as the underlying error.
pub open spec fn bus_error(what: Seq<char>, source: Seq<char>) -> ErrorView {
    ErrorView::Driver { kind: DriverKind::Usb, context: what, source: Some(source) }
}

/// The error of a step on the bus that is no transfer.
pub fn bus_failure(what: &str, source: String) -> (e: PrintyError)
    ensures
        e@ == bus_error(what@, source@),
{
    PrintyError::Driver { kind: DriverKind::Usb, context: String::from_str(what), source: Some(source) }
}

/// Tells whether a write that transferred `written` bytes took all of
/// `data`. A shorter write is an error that shows the part that was taken.
pub fn check_written(data: &[u8], written: usize) -> (r: PrintyResult<usize>)
    requires
        written <= data@.len(),
    ensures
        written == data@.len() ==> (r matches Ok(n) && n == written),
        written != data@.len() ==> (r matches Err(e) && e@ == partial_write(
            data@,
            written as nat,
        )),
{
    if written == data.len() {
        return Ok(written);
    }
    let mut context = String::new();
    context.append("Partial write: expected ");
    push_decimal(&mut context, data.len() as u64);
    context.append(", got ");
    push_decimal(&mut context, written as u64);
    context.append(" - data: ");
    let taken = &data[0..written];
    push_hex_list(&mut context, taken);
    Err(PrintyError::Driver { kind: DriverKind::Usb, context, source: None })
}

/// What draining does after a read.
#[derive(Debug)]
pub enum DrainNext {
    /// Something was read and dropped: read again.
    ReadAgain,
    /// Draining is over, with this result.
    Return(PrintyResult<()>),
}

/// `DrainNext` with the texts of its error as sequences of characters.
pub ghost enum DrainNextView {
    ReadAgain,
    Return(Result<(), ErrorView>),
}

impl View for DrainNext {
    type V = DrainNextView;

    open spec fn view(&self) -> DrainNextView {
        match *self {
            DrainNext::ReadAgain => DrainNextView::ReadAgain,
            DrainNext::Return(result) => DrainNextView::Return(result_view(result)),
        }
    }
}

/// Draining ends with the first read that gives nothing or fails.
pub open spec fn drain_next(outcome: Result<usize, ErrorView>) -> DrainNextView {
    match outcome {
        Ok(n) => if n == 0 {
            DrainNextView::Return(Ok(()))
        } else {
            DrainNextView::ReadAgain
        },
        Err(e) => DrainNextView::Return(Err(e)),
    }
}

/// Decides how draining goes on after a read into the scratch buffer.
pub fn drain_step(outcome: PrintyResult<usize>) -> (next: DrainNext)
    ensures
        next@ == drain_next(result_view(outcome)),
{
    match outcome {
        Ok(n) => {
            if n == 0 {
                DrainNext::Return(Ok(()))
            } else {
                DrainNext::ReadAgain
            }
        },
        Err(e) => DrainNext::Return(Err(e)),
    }
}

/// How many reads draining makes while its reads come to the given
/// outcomes, one after the other.
pub open spec fn drain_reads(outcomes: Seq<Result<usize, ErrorView>>) -> nat
    decreases outcomes.len(),
{
    if outcomes.len() == 0 {
        0
    } else {
        match drain_next(outcomes[0]) {
            DrainNextView::ReadAgain => 1 + drain_reads(outcomes.drop_first()),
            DrainNextView::Return(_) => 1,
        }
    }
}

/// The result of draining whose reads come to the given outcomes, where
/// these are enough to end it.
pub open spec fn drain_result(outcomes: Seq<Result<usize, ErrorView>>) -> Option<
    Result<(), ErrorView>,
>
    decreases outcomes.len(),
{
    if outcomes.len() == 0 {
        None
    } else {
        match drain_next(outcomes[0]) {
            DrainNextView::ReadAgain => drain_result(outcomes.drop_first()),
            DrainNextView::Return(result) => Some(result),
        }
    }
}

/// Draining ends well with the first read that gives nothing: it makes no
/// read after it, whatever further reads would have come to.
pub proof fn lemma_drain_stops_at_empty_read(outcomes: Seq<Result<usize, ErrorView>>, k: int)
    requires
        0 <= k < outcomes.len(),
        outcomes[k] == Ok::<usize, ErrorView>(0),
        forall|i: int| 0 <= i < k ==> (#[trigger] outcomes[i] matches Ok(n) && n > 0),
    ensures
        drain_reads(outcomes) == k + 1,
        drain_result(outcomes) == Some(Ok::<(), ErrorView>(())),
    decreases k,
{
    if k > 0 {
        let rest = outcomes.drop_first();
        assert forall|i: int| 0 <= i < k - 1 implies (#[trigger] rest[i] matches Ok(n) && n
            > 0) by {}
        lemma_drain_stops_at_empty_read(rest, k - 1);
    }
}

} // verus!
