//! The errors of this crate.

use vstd::prelude::*;
use vstd::string::*;

verus! {

/// The transport that an error came from.
#[derive(Debug, Clone, Copy, PartialEq, Eq, Structural)]
pub enum DriverKind {
    Debug,
    Usb,
}

/// What went wrong, with the text of the underlying error where there was
/// one.
#[derive(Debug)]
pub enum PrintyError {
    Driver { kind: DriverKind, context: String, source: Option<String> },
    Parse { context: String, source: Option<String> },
}

pub type PrintyResult<T> = Result<T, PrintyError>;

/// An error with its texts as sequences of characters.
pub ghost enum ErrorView {
    Driver { kind: DriverKind, context: Seq<char>, source: Option<Seq<char>> },
    Parse { context: Seq<char>, source: Option<Seq<char>> },
}

/// The text of an optional string.
pub open spec fn source_view(source: Option<String>) -> Option<Seq<char>> {
    match source {
        Some(s) => Some(s@),
        None => None,
    }
}

impl View for PrintyError {
    type V = ErrorView;

    open spec fn view(&self) -> ErrorView {
        match *self {
            PrintyError::Driver { kind, context, source } => ErrorView::Driver {
                kind,
                context: context@,
                source: source_view(source),
            },
            PrintyError::Parse { context, source } => ErrorView::Parse {
                context: context@,
                source: source_view(source),
            },
        }
    }
}

/// A result with the texts of its error as sequences of characters.
pub open spec fn result_view<T>(result: PrintyResult<T>) -> Result<T, ErrorView> {
    match result {
        Ok(value) => Ok(value),
        Err(e) => Err(e@),
    }
}

/// The error of a result, where it has one.
pub open spec fn failure<T>(result: Result<T, ErrorView>) -> Option<ErrorView> {
    match result {
        Ok(_) => None,
        Err(e) => Some(e),
    }
}

/// The error that a call ended with, where it failed.
pub open spec fn error_of<T>(result: PrintyResult<T>) -> Option<ErrorView> {
    match result {
        Ok(_) => None,
        Err(e) => Some(e@),
    }
}

impl DriverKind {
    /// The name of the transport as messages show it.
    pub open spec fn label(self) -> Seq<char> {
        match self {
            DriverKind::Debug => "Debug"@,
            DriverKind::Usb => "USB"@,
        }
    }

    pub fn name(self) -> (s: &'static str)
        ensures
            s@ == self.label(),
    {
        match self {
            DriverKind::Debug => "Debug",
            DriverKind::Usb => "USB",
        }
    }
}

/// The underlying error as a message ends with it: nothing where there is
/// none.
pub open spec fn source_suffix(source: Option<Seq<char>>) -> Seq<char> {
    match source {
        Some(s) => " - "@ + s,
        None => Seq::empty(),
    }
}

/// The message of an error: what failed, the context, then the underlying
/// error.
pub open spec fn message_text(e: ErrorView) -> Seq<char> {
    match e {
        ErrorView::Driver { kind, context, source } => "Driver ("@ + kind.label() + ") error: "@
            + context + source_suffix(source),
        ErrorView::Parse { context, source } => "Parse error: "@ + context + source_suffix(
            source,
        ),
    }
}

fn push_source(out: &mut String, source: &Option<String>)
    ensures
        final(out)@ == old(out)@ + source_suffix(source_view(*source)),
{
    match source {
        Some(s) => {
            out.append(" - ");
            out.append(s.as_str());
        },
        None => {
        },
    }
}

impl PrintyError {
    /// The message of this error, as one line.
    pub fn message(&self) -> (out: String)
        ensures
            out@ == message_text(self@),
    {
        let mut out = String::new();
        match self {
            PrintyError::Driver { kind, context, source } => {
                out.append("Driver (");
                out.append(kind.name());
                out.append(") error: ");
                out.append(context.as_str());
                push_source(&mut out, source);
            },
            PrintyError::Parse { context, source } => {
                out.append("Parse error: ");
                out.append(context.as_str());
                push_source(&mut out, source);
            },
        }
        out
    }

    /// An error of a transport, with no underlying error.
    pub fn driver(kind: DriverKind, context: String) -> (e: PrintyError)
        ensures
            e@ == (ErrorView::Driver { kind, context: context@, source: None }),
    {
        PrintyError::Driver { kind, context, source: None }
    }
}

} // verus!
