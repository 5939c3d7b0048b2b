//! The printer behind a transport: it opens the session, asks for the
//! status, prints text and markdown, and cuts the paper.

use crate::driver::{added, lemma_added_one, lemma_added_twice, Driver, Step};
use crate::error::{error_of, result_view, ErrorView, PrintyError, PrintyResult};
use crate::escpos::{status_poll_bytes, CMD_CUT, CMD_DISABLE_ASB, CMD_INIT, CMD_STATUS_POLL};
use crate::markup::{markdown_tree, parse_error, tree_bytes, EscposMarkdown};
use crate::status::{decode_status, PrinterStatus};
use vstd::prelude::*;
use vstd::utf8::encode_utf8;

verus! {

/// How many bytes the reply to a status poll has.
pub const STATUS_REPLY_LEN: usize = 4;

/// What a read after a status poll means: the status that the four bytes
/// decode to where the read gave all four, and nothing where it failed or
/// gave fewer.
pub open spec fn reply_status(outcome: Result<usize, ErrorView>, reply: Seq<u8>) -> Option<
    PrinterStatus,
> {
    match outcome {
        Ok(len) if len == STATUS_REPLY_LEN => decode_status(reply),
        _ => None,
    }
}

/// Tells what the read after a status poll means.
pub fn decode_reply(outcome: &PrintyResult<usize>, reply: &[u8; 4]) -> (status: Option<
    PrinterStatus,
>)
    ensures
        status == reply_status(result_view(*outcome), reply@),
{
    match outcome {
        Ok(len) => {
            if *len == STATUS_REPLY_LEN {
                PrinterStatus::from_bytes(reply)
            } else {
                None
            }
        },
        Err(_) => None,
    }
}

/// What is handed on after a step that the transport decides: `value` where
/// the step went through, and the error of the step where it failed.
pub fn after<T>(outcome: PrintyResult<()>, value: T) -> (r: PrintyResult<T>)
    ensures
        match outcome {
            Ok(_) => r == Ok::<T, PrintyError>(value),
            Err(e) => r == Err::<T, PrintyError>(e),
        },
{
    match outcome {
        Ok(_) => Ok(value),
        Err(e) => Err(e),
    }
}

/// The calls that open a session, up to the first that fails: the drain,
/// the write of the reset, and the write of the command that turns off the
/// status bytes sent unasked. `failed` is the error of the call that
/// failed, the last one, where one did.
pub open spec fn opening(steps: Seq<Step>, failed: Option<ErrorView>) -> bool {
    if failed is None {
        &&& steps.len() == 3
        &&& steps[0].is_drain(None)
        &&& steps[1].is_write(CMD_INIT@, None)
        &&& steps[2].is_write(CMD_DISABLE_ASB@, None)
    } else {
        ||| steps.len() == 1 && steps[0].is_drain(failed)
        ||| steps.len() == 2 && steps[0].is_drain(None) && steps[1].is_write(CMD_INIT@, failed)
        ||| steps.len() == 3 && steps[0].is_drain(None) && steps[1].is_write(CMD_INIT@, None)
            && steps[2].is_write(CMD_DISABLE_ASB@, failed)
    }
}

/// One write of exactly `data`, and no other call. `failed` is the error
/// of the write, where it failed.
pub open spec fn writing(steps: Seq<Step>, data: Seq<u8>, failed: Option<ErrorView>) -> bool {
    steps.len() == 1 && steps[0].is_write(data, failed)
}

/// The calls of a status poll and the status it gives. Either the write of
/// the four requests failed, it is the only call, and there is no status;
/// or it went through, one read into four bytes follows, and the status is
/// what that read means.
pub open spec fn polling(steps: Seq<Step>, status: Option<PrinterStatus>) -> bool {
    ||| {
        &&& steps.len() == 1
        &&& steps[0] matches Step::Write { data, outcome } && data == status_poll_bytes()
            && outcome is Err
        &&& status is None
    }
    ||| {
        &&& steps.len() == 2
        &&& steps[0].is_write(status_poll_bytes(), None)
        &&& steps[1] matches Step::Read { filled, outcome } && filled.len() == STATUS_REPLY_LEN
            && status == reply_status(outcome, filled)
    }
}

/// A printer and the transport that reaches it.
pub struct Printer<D: Driver> {
    pub driver: D,
}

impl<D: Driver> Printer<D> {
    /// The calls that the transport of this printer took so far.
    pub open spec fn handed(&self) -> Seq<Step> {
        self.driver.handed()
    }

    /// Hands `data` to the transport in one write.
    fn send(&mut self, data: &[u8]) -> (r: PrintyResult<()>)
        ensures
            old(self).handed().is_prefix_of(final(self).handed()),
            writing(added(old(self).handed(), final(self).handed()), data@, error_of(r)),
    {
        let outcome = self.driver.write(data);
        proof {
            lemma_added_one(
                old(self).handed(),
                Step::Write { data: data@, outcome: result_view(outcome) },
            );
        }
        match outcome {
            Ok(_) => Ok(()),
            Err(e) => Err(e),
        }
    }

    /// Takes the transport and opens the session on it, as `open` does: the
    /// printer where every call of the opening went through, and the error
    /// of the first call that failed. After a failure the transport is
    /// gone with the printer; its log is then the one that the last clause
    /// speaks of.
    pub fn new(driver: D) -> (r: PrintyResult<Self>)
        ensures
            r matches Ok(printer) ==> driver.handed().is_prefix_of(printer.handed()) && opening(
                added(driver.handed(), printer.handed()),
                None,
            ),
            r matches Err(e) ==> exists|log: Seq<Step>|
                driver.handed().is_prefix_of(log) && #[trigger] opening(
                    added(driver.handed(), log),
                    Some(e@),
                ),
    {
        let mut printer = Printer { driver };
        let outcome = printer.open();
        assert(opening(added(driver.handed(), printer.handed()), error_of(outcome)));
        after(outcome, printer)
    }

    /// Opens the session: drops what the printer sent at power-on, resets
    /// it, and turns off the status bytes that it sends unasked. The first
    /// call that fails ends it with its error, and no call is made after
    /// it.
    pub fn open(&mut self) -> (r: PrintyResult<()>)
        ensures
            old(self).handed().is_prefix_of(final(self).handed()),
            opening(added(old(self).handed(), final(self).handed()), error_of(r)),
    {
        let drained = self.driver.drain();
        let ghost first = self.handed();
        proof {
            lemma_added_one(old(self).handed(), Step::Drain { ended: result_view(drained) });
        }
        if let Err(e) = drained {
            return Err(e);
        }
        let reset = self.send(&CMD_INIT);
        let ghost second = self.handed();
        proof {
            lemma_added_twice(old(self).handed(), first, second);
        }
        if let Err(e) = reset {
            return Err(e);
        }
        let quiet = self.send(&CMD_DISABLE_ASB);
        proof {
            lemma_added_twice(old(self).handed(), second, self.handed());
        }
        quiet
    }

    /// Opens the session as `open` does, and hands the printer on where it
    /// is open.
    pub fn init(&mut self) -> (r: PrintyResult<&Self>)
        ensures
            old(self).handed().is_prefix_of(final(self).handed()),
            opening(added(old(self).handed(), final(self).handed()), error_of(r)),
            r matches Ok(p) ==> *p == *final(self),
    {
        match self.open() {
            Ok(_) => Ok(self),
            Err(e) => Err(e),
        }
    }

    /// Asks the printer for its status: writes the four status requests as
    /// one, lets `settle` wait while the printer puts the reply together,
    /// reads four bytes and decodes them. There is no status where the
    /// write or the read fails, where fewer than four bytes come, or where
    /// they do not decode. After a failed write `settle` is not called and
    /// nothing is read.
    pub fn status<F: FnOnce()>(&mut self, settle: F) -> (r: Option<PrinterStatus>)
        requires
            call_requires(settle, ()),
        ensures
            old(self).handed().is_prefix_of(final(self).handed()),
            polling(added(old(self).handed(), final(self).handed()), r),
            added(old(self).handed(), final(self).handed()).len() == 2 ==> call_ensures(
                settle,
                (),
                (),
            ),
    {
        let batched_status_cmds = CMD_STATUS_POLL();
        let asked = self.send(batched_status_cmds.as_slice());
        let ghost first = self.handed();
        if asked.is_err() {
            return None;
        }
        settle();
        let mut buf = [0u8; 4];
        let outcome = self.driver.read(&mut buf);
        proof {
            lemma_added_one(first, Step::Read { filled: buf@, outcome: result_view(outcome) });
            lemma_added_twice(old(self).handed(), first, self.handed());
        }
        decode_reply(&outcome, &buf)
    }

    /// Cuts the paper after the last printed line.
    pub fn cut(&mut self) -> (r: PrintyResult<&mut Self>)
        ensures
            r matches Ok(p) ==> ({
                &&& *final(p) == *final(self)
                &&& old(self).handed().is_prefix_of(p.handed())
                &&& writing(added(old(self).handed(), p.handed()), CMD_CUT@, None)
            }),
            r matches Err(e) ==> ({
                &&& old(self).handed().is_prefix_of(final(self).handed())
                &&& writing(added(old(self).handed(), final(self).handed()), CMD_CUT@, Some(e@))
            }),
    {
        match self.send(&CMD_CUT) {
            Ok(_) => Ok(self),
            Err(e) => Err(e),
        }
    }

    /// Prints the text as it stands, in one write.
    pub fn print(&mut self, data: &str) -> (r: PrintyResult<&mut Self>)
        ensures
            r matches Ok(p) ==> ({
                &&& *final(p) == *final(self)
                &&& old(self).handed().is_prefix_of(p.handed())
                &&& writing(added(old(self).handed(), p.handed()), encode_utf8(data@), None)
            }),
            r matches Err(e) ==> ({
                &&& old(self).handed().is_prefix_of(final(self).handed())
                &&& writing(
                    added(old(self).handed(), final(self).handed()),
                    encode_utf8(data@),
                    Some(e@),
                )
            }),
    {
        match self.send(data.as_bytes()) {
            Ok(_) => Ok(self),
            Err(e) => Err(e),
        }
    }

    /// Prints a markdown text, in one write. For a text that the parser
    /// rejects nothing is asked of the transport.
    pub fn print_md(&mut self, data: &str) -> (r: PrintyResult<&mut Self>)
        ensures
            (match markdown_tree(data@) {
                Ok(tree) => {
                    &&& r matches Ok(p) ==> ({
                        &&& *final(p) == *final(self)
                        &&& old(self).handed().is_prefix_of(p.handed())
                        &&& writing(added(old(self).handed(), p.handed()), tree_bytes(tree), None)
                    })
                    &&& r matches Err(e) ==> ({
                        &&& old(self).handed().is_prefix_of(final(self).handed())
                        &&& writing(
                            added(old(self).handed(), final(self).handed()),
                            tree_bytes(tree),
                            Some(e@),
                        )
                    })
                },
                Err(words) => {
                    &&& r matches Err(e) && e@ == parse_error(words)
                    &&& final(self).handed() == old(self).handed()
                },
            }),
    {
        let compiled = match EscposMarkdown.compile(data) {
            Ok(bytes) => bytes,
            Err(e) => {
                return Err(e);
            },
        };
        match self.send(compiled.as_slice()) {
            Ok(_) => Ok(self),
            Err(e) => Err(e),
        }
    }
}

} // verus!
