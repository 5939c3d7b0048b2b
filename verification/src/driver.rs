//! The transport between the host and the printer, and the debug transport
//! without its console: a person plays the printer, reads what is written
//! and types the replies.

use crate::error::{failure, result_view, DriverKind, ErrorView, PrintyError, PrintyResult};
use crate::hexline::{line_bytes, parse_hex_line};
use crate::text::{decimal, push_decimal};
use vstd::prelude::*;
use vstd::string::*;

verus! {

/// One call that a transport took, with what it answered.
pub ghost enum Step {
    /// A call of `drain`.
    Drain { ended: Result<(), ErrorView> },
    /// A call of `write` with this data.
    Write { data: Seq<u8>, outcome: Result<usize, ErrorView> },
    /// A call of `read`, with what the buffer held when it returned.
    Read { filled: Seq<u8>, outcome: Result<usize, ErrorView> },
}

impl Step {
    /// Whether this is a `drain` that ended as `failed` says: with that
    /// error, or well where there is none.
    pub open spec fn is_drain(self, failed: Option<ErrorView>) -> bool {
        self matches Step::Drain { ended } && failure(ended) == failed
    }

    /// Whether this is a `write` of exactly `data` that ended as `failed`
    /// says.
    pub open spec fn is_write(self, data: Seq<u8>, failed: Option<ErrorView>) -> bool {
        self matches Step::Write { data: written, outcome } && written == data && failure(outcome)
            == failed
    }
}

/// The calls that were added to a log since it was `before`.
pub open spec fn added(before: Seq<Step>, after: Seq<Step>) -> Seq<Step> {
    after.skip(before.len() as int)
}

/// A log with one more call holds the log before it, and that call is what
/// was added.
pub proof fn lemma_added_one(before: Seq<Step>, step: Step)
    ensures
        before.is_prefix_of(before.push(step)),
        added(before, before.push(step)) == seq![step],
{
}

/// What was added to a log in two stretches is what was added in the
/// first, then what was added in the second.
pub proof fn lemma_added_twice(first: Seq<Step>, second: Seq<Step>, third: Seq<Step>)
    requires
        first.is_prefix_of(second),
        second.is_prefix_of(third),
    ensures
        first.is_prefix_of(third),
        added(first, third) == added(first, second) + added(second, third),
{
}

/// A channel to one printer. Whoever holds it is its only reader and
/// writer.
///
/// A transport answers for a log of the calls it took: each call adds
/// itself to the log, with what it was handed and what it answered, and
/// changes nothing else of it. What is proved of a printer is proved of
/// this log: which calls the printer made, in which order, with which
/// data, and what it did with each answer.
pub trait Driver {
    /// The calls that this transport took so far, in their order.
    ///
    /// A verified transport has to say here where it keeps the log, as
    /// `DebugDriver` does: with the body below no call could meet its
    /// clause, since the log would never grow. The body is there only so
    /// that a transport can be written without proofs, where no log can be
    /// stated. Nothing is proved of such a transport; what is proved of a
    /// printer holds for every transport that keeps the log.
    open spec fn handed(&self) -> Seq<Step> {
        Seq::empty()
    }

    /// Reads what the printer has sent into the front of `buf` and returns
    /// how many bytes that was.
    fn read(&mut self, buf: &mut [u8]) -> (r: PrintyResult<usize>)
        ensures
            final(buf)@.len() == old(buf)@.len(),
            final(self).handed() == old(self).handed().push(
                Step::Read { filled: final(buf)@, outcome: result_view(r) },
            ),
    ;

    /// Writes all of `data`, or fails.
    fn write(&mut self, data: &[u8]) -> (r: PrintyResult<usize>)
        ensures
            final(self).handed() == old(self).handed().push(
                Step::Write { data: data@, outcome: result_view(r) },
            ),
    ;

    /// Reads and drops what the printer has sent, until nothing is left.
    fn drain(&mut self) -> (r: PrintyResult<()>)
        ensures
            final(self).handed() == old(self).handed().push(
                Step::Drain { ended: result_view(r) },
            ),
    ;
}

/// The counter after one more read or write; it stays at the largest value
/// once it has reached it.
pub open spec fn next_count(count: usize) -> usize {
    if count < usize::MAX {
        (count + 1) as usize
    } else {
        count
    }
}

/// The line that announces a write: an arrow from the host to the printer
/// and the number of the write.
pub open spec fn write_prompt_text(count: usize) -> Seq<char> {
    "P -> ["@ + decimal(count as nat) + "]:"@
}

/// The line that asks for a reply: an arrow from the printer to the host
/// and the number of the read.
pub open spec fn read_prompt_text(count: usize) -> Seq<char> {
    "P <- ["@ + decimal(count as nat) + "]:"@
}

/// The context of the error for a line that does not write bytes.
pub open spec fn invalid_hex_text() -> Seq<char> {
    "Invalid hex format. Use format like: '0x41', '0x42' or '41', '42'"@
}

/// The error for a line that does not write bytes.
pub open spec fn invalid_hex_error() -> ErrorView {
    ErrorView::Driver { kind: DriverKind::Debug, context: invalid_hex_text(), source: None }
}

/// How many bytes of a reply of `len` bytes fit a buffer of `room` bytes.
pub open spec fn copied_len(len: nat, room: nat) -> nat {
    if len < room {
        len
    } else {
        room
    }
}

fn bump(count: usize) -> (next: usize)
    ensures
        next == next_count(count),
{
    if count < usize::MAX {
        count + 1
    } else {
        count
    }
}

/// Copies the front of `values` over the front of `buf`, as far as both
/// reach, and returns how many bytes that was.
pub fn copy_front(values: &Vec<u8>, buf: &mut [u8]) -> (n: usize)
    ensures
        n == copied_len(values@.len(), old(buf)@.len()),
        final(buf)@ == values@.take(n as int) + old(buf)@.skip(n as int),
{
    let n: usize = if values.len() < buf.len() {
        values.len()
    } else {
        buf.len()
    };
    let mut i: usize = 0;
    while i < n
        invariant
            i <= n <= values.len(),
            n <= buf@.len(),
            buf@.len() == old(buf)@.len(),
            buf@ == values@.take(i as int) + old(buf)@.skip(i as int),
        decreases n - i,
    {
        buf[i] = values[i];
        i = i + 1;
    }
    n
}

/// The line that the next read takes: the oldest of the lines that wait,
/// and an empty line where none waits, as at the end of the input.
pub open spec fn next_line(typed: Seq<Seq<char>>) -> Seq<char> {
    if typed.len() > 0 {
        typed[0]
    } else {
        Seq::empty()
    }
}

/// The lines that wait after one read.
pub open spec fn lines_left(typed: Seq<Seq<char>>) -> Seq<Seq<char>> {
    if typed.len() > 0 {
        typed.drop_first()
    } else {
        typed
    }
}

/// The debug transport without its console: it counts the reads and
/// writes, words the prompts, and answers each read from the line that was
/// typed for it.
pub struct DebugDriver {
    write_count: usize,
    read_count: usize,
    typed: Vec<String>,
    handed: Ghost<Seq<Step>>,
}

impl Default for DebugDriver {
    fn default() -> (d: DebugDriver)
        ensures
            d.writes() == 0,
            d.reads() == 0,
            d.typed() == Seq::<Seq<char>>::empty(),
            d.handed() == Seq::<Step>::empty(),
    {
        DebugDriver {
            write_count: 0,
            read_count: 0,
            typed: Vec::new(),
            handed: Ghost(Seq::empty()),
        }
    }
}

impl DebugDriver {
    /// How many writes were shown.
    pub closed spec fn writes(&self) -> usize {
        self.write_count
    }

    /// How many replies were read.
    pub closed spec fn reads(&self) -> usize {
        self.read_count
    }

    /// The lines that were typed and wait to be read, the oldest first.
    pub closed spec fn typed(&self) -> Seq<Seq<char>> {
        self.typed@.map_values(|line: String| line@)
    }

    pub fn write_count(&self) -> (n: usize)
        ensures
            n == self.writes(),
    {
        self.write_count
    }

    pub fn read_count(&self) -> (n: usize)
        ensures
            n == self.reads(),
    {
        self.read_count
    }

    /// The line to show before the dump of a write.
    pub fn write_prompt(&self) -> (s: String)
        ensures
            s@ == write_prompt_text(self.writes()),
    {
        let mut s = String::new();
        s.append("P -> [");
        push_decimal(&mut s, self.write_count as u64);
        s.append("]:");
        s
    }

    /// The line to show before a reply is typed.
    pub fn read_prompt(&self) -> (s: String)
        ensures
            s@ == read_prompt_text(self.reads()),
    {
        let mut s = String::new();
        s.append("P <- [");
        push_decimal(&mut s, self.read_count as u64);
        s.append("]:");
        s
    }

    /// Takes a line that was typed as a reply; a later read answers from
    /// it.
    pub fn type_line(&mut self, line: String)
        ensures
            final(self).typed() == old(self).typed().push(line@),
            final(self).writes() == old(self).writes(),
            final(self).reads() == old(self).reads(),
            final(self).handed() == old(self).handed(),
    {
        self.typed.push(line);
    }

    /// Answers a read from a line. Where the line writes bytes, as many of
    /// them as fit are copied to the front of `buf`, the rest of `buf`
    /// stays, and the read is counted. Where it does not, nothing changes.
    fn answer(&mut self, line: &str, buf: &mut [u8]) -> (r: PrintyResult<usize>)
        ensures
            final(self).writes() == old(self).writes(),
            final(self).typed() == old(self).typed(),
            final(self).handed() == old(self).handed(),
            match line_bytes(line@) {
                Some(values) => {
                    let n = copied_len(values.len(), old(buf)@.len());
                    &&& r matches Ok(len) && len == n
                    &&& final(buf)@ == values.take(n as int) + old(buf)@.skip(n as int)
                    &&& final(self).reads() == next_count(old(self).reads())
                },
                None => {
                    &&& r matches Err(e) && e@ == invalid_hex_error()
                    &&& final(buf)@ == old(buf)@
                    &&& final(self).reads() == old(self).reads()
                },
            },
    {
        match parse_hex_line(line) {
            Some(values) => {
                self.read_count = bump(self.read_count);
                let n = copy_front(&values, buf);
                Ok(n)
            },
            None => Err(
                PrintyError::Driver {
                    kind: DriverKind::Debug,
                    context: String::from_str(
                        "Invalid hex format. Use format like: '0x41', '0x42' or '41', '42'",
                    ),
                    source: None,
                },
            ),
        }
    }
}

impl Driver for DebugDriver {
    closed spec fn handed(&self) -> Seq<Step> {
        self.handed@
    }

    /// Answers from the oldest line that waits, and from an empty line
    /// where none does. Where the line writes bytes, as many of them as fit
    /// are copied to the front of `buf`, the rest of `buf` stays, and the
    /// read is counted. Where it does not, the read fails and is not
    /// counted.
    fn read(&mut self, buf: &mut [u8]) -> (r: PrintyResult<usize>)
        ensures
            final(self).writes() == old(self).writes(),
            final(self).typed() == lines_left(old(self).typed()),
            match line_bytes(next_line(old(self).typed())) {
                Some(values) => {
                    let n = copied_len(values.len(), old(buf)@.len());
                    &&& r matches Ok(len) && len == n
                    &&& final(buf)@ == values.take(n as int) + old(buf)@.skip(n as int)
                    &&& final(self).reads() == next_count(old(self).reads())
                },
                None => {
                    &&& r matches Err(e) && e@ == invalid_hex_error()
                    &&& final(buf)@ == old(buf)@
                    &&& final(self).reads() == old(self).reads()
                },
            },
    {
        let line = if self.typed.len() > 0 {
            self.typed.remove(0)
        } else {
            String::new()
        };
        let r = self.answer(line.as_str(), buf);
        proof {
            self.handed@ = self.handed@.push(Step::Read { filled: buf@, outcome: result_view(r) });
        }
        r
    }

    /// Counts the write; all of it is taken.
    fn write(&mut self, data: &[u8]) -> (r: PrintyResult<usize>)
        ensures
            r matches Ok(len) && len == data@.len(),
            final(self).writes() == next_count(old(self).writes()),
            final(self).reads() == old(self).reads(),
            final(self).typed() == old(self).typed(),
    {
        self.write_count = bump(self.write_count);
        let r = Ok(data.len());
        proof {
            self.handed@ = self.handed@.push(Step::Write { data: data@, outcome: result_view(r) });
        }
        r
    }

    /// There is nothing to drop: a reply is typed only when it is asked
    /// for.
    fn drain(&mut self) -> (r: PrintyResult<()>)
        ensures
            r is Ok,
            final(self).writes() == old(self).writes(),
            final(self).reads() == old(self).reads(),
            final(self).typed() == old(self).typed(),
    {
        let r = Ok(());
        proof {
            self.handed@ = self.handed@.push(Step::Drain { ended: result_view(r) });
        }
        r
    }
}

} // verus!
