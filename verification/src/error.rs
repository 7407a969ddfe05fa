//! The errors of the host, as one closed union.
//!
//! Every kind can be rendered the way the VM renders an exception: as a class
//! name, a message and an optional backtrace.

use vstd::prelude::*;
use crate::arena::IndexError;
use crate::bytes::{bytes_of, copy_bytes, lines_view, text};
use crate::exception::{Exception, Unreadable};
use crate::interpreter::InterpreterAllocError;
use crate::parser::IncrementLinenoError;
use crate::value::ArgCountError;

verus! {

/// A value does not convert to the type that was asked for.
#[derive(Debug, PartialEq, Eq)]
pub struct TypeError {
    message: Vec<u8>,
}

impl View for TypeError {
    type V = Seq<u8>;

    closed spec fn view(&self) -> Seq<u8> {
        self.message@
    }
}

impl TypeError {
    pub fn new(message: Vec<u8>) -> (e: Self)
        ensures
            e@ == message@,
    {
        TypeError { message }
    }

    pub fn message(&self) -> (message: Vec<u8>)
        ensures
            message@ == self@,
    {
        copy_bytes(&self.message)
    }

    pub fn name(&self) -> (name: Vec<u8>)
        ensures
            name@ == text("TypeError"),
    {
        bytes_of("TypeError")
    }

    pub fn vm_backtrace(&self) -> (backtrace: Option<Vec<Vec<u8>>>)
        ensures
            backtrace is None,
    {
        None
    }
}

/// Everything that can go wrong between the host and the VM.
#[derive(Debug, PartialEq, Eq)]
pub enum ArtichokeError {
    /// The source failed to parse.
    Syntax(Exception),
    /// The VM raised an exception while it ran.
    Exec(Exception),
    /// The VM holds an error object that could not be read.
    UnableToExtract(Unreadable),
    /// The VM returned a value that must not leave it.
    UnreachableValue,
    /// The VM could not capture an arena savepoint.
    ArenaUnavailable(IndexError),
    /// The VM could not be allocated.
    New(InterpreterAllocError),
    /// The protected call could not be entered.
    ExecutorFailure,
    /// More arguments than the VM takes.
    ArgCount(ArgCountError),
    /// The filename of the eval context holds a NUL byte.
    Vfs,
    /// The parser ran out of line numbers.
    IncrementLineno(IncrementLinenoError),
    Type(TypeError),
}

impl ArtichokeError {
    /// The class name under which the VM would report this error.
    pub open spec fn spec_name(self) -> Seq<u8> {
        match self {
            ArtichokeError::Syntax(e) => e@.class_name,
            ArtichokeError::Exec(e) => e@.class_name,
            ArtichokeError::UnableToExtract(_) => text("fatal"),
            ArtichokeError::UnreachableValue => text("fatal"),
            ArtichokeError::ArenaUnavailable(_) => text("fatal"),
            ArtichokeError::New(_) => text("fatal"),
            ArtichokeError::ExecutorFailure => text("fatal"),
            ArtichokeError::ArgCount(_) => text("ArgumentError"),
            ArtichokeError::Vfs => text("fatal"),
            ArtichokeError::IncrementLineno(_) => text("ScriptError"),
            ArtichokeError::Type(_) => text("TypeError"),
        }
    }

    /// The message with which the VM would report this error.
    pub open spec fn spec_message(self) -> Seq<u8> {
        match self {
            ArtichokeError::Syntax(e) => e@.message,
            ArtichokeError::Exec(e) => e@.message,
            ArtichokeError::UnableToExtract(why) => match why {
                Unreadable::Object => text("Unable to read the pending error"),
                Unreadable::ClassName => text("Unable to read the class name of the pending error"),
                Unreadable::Message => text("Unable to read the message of the pending error"),
                Unreadable::Backtrace => text("Unable to read the backtrace of the pending error"),
            },
            ArtichokeError::UnreachableValue => text("Unreachable Ruby value"),
            ArtichokeError::ArenaUnavailable(_) => IndexError::spec_message(),
            ArtichokeError::New(_) => text("Failed to allocate Artichoke Ruby interpreter"),
            ArtichokeError::ExecutorFailure => text("Failed to enter a protected call"),
            ArtichokeError::ArgCount(_) => text("Too many arguments"),
            ArtichokeError::Vfs => text("failed to convert context filename to CString"),
            ArtichokeError::IncrementLineno(_) => text("parser exceeded maximum line count"),
            ArtichokeError::Type(e) => e@,
        }
    }

    /// The backtrace with which the VM would report this error. Only an
    /// exception that was raised in the VM has one.
    pub open spec fn spec_backtrace(self) -> Option<Seq<Seq<u8>>> {
        match self {
            ArtichokeError::Syntax(e) => e@.backtrace,
            ArtichokeError::Exec(e) => e@.backtrace,
            _ => None,
        }
    }

    pub fn name(&self) -> (name: Vec<u8>)
        ensures
            name@ == self.spec_name(),
    {
        match self {
            ArtichokeError::Syntax(e) => e.name(),
            ArtichokeError::Exec(e) => e.name(),
            ArtichokeError::UnableToExtract(_) => bytes_of("fatal"),
            ArtichokeError::UnreachableValue => bytes_of("fatal"),
            ArtichokeError::ArenaUnavailable(e) => e.name(),
            ArtichokeError::New(e) => e.name(),
            ArtichokeError::ExecutorFailure => bytes_of("fatal"),
            ArtichokeError::ArgCount(e) => e.name(),
            ArtichokeError::Vfs => bytes_of("fatal"),
            ArtichokeError::IncrementLineno(e) => e.name(),
            ArtichokeError::Type(e) => e.name(),
        }
    }

    pub fn message(&self) -> (message: Vec<u8>)
        ensures
            message@ == self.spec_message(),
    {
        match self {
            ArtichokeError::Syntax(e) => e.message(),
            ArtichokeError::Exec(e) => e.message(),
            ArtichokeError::UnableToExtract(why) => match why {
                Unreadable::Object => bytes_of("Unable to read the pending error"),
                Unreadable::ClassName => bytes_of("Unable to read the class name of the pending error"),
                Unreadable::Message => bytes_of("Unable to read the message of the pending error"),
                Unreadable::Backtrace => bytes_of("Unable to read the backtrace of the pending error"),
            },
            ArtichokeError::UnreachableValue => bytes_of("Unreachable Ruby value"),
            ArtichokeError::ArenaUnavailable(e) => e.message(),
            ArtichokeError::New(e) => e.message(),
            ArtichokeError::ExecutorFailure => bytes_of("Failed to enter a protected call"),
            ArtichokeError::ArgCount(e) => e.message(),
            ArtichokeError::Vfs => bytes_of("failed to convert context filename to CString"),
            ArtichokeError::IncrementLineno(e) => e.message(),
            ArtichokeError::Type(e) => e.message(),
        }
    }

    pub fn vm_backtrace(&self) -> (backtrace: Option<Vec<Vec<u8>>>)
        ensures
            self.spec_backtrace() == match backtrace {
                Some(frames) => Some(lines_view(frames@)),
                None => None,
            },
    {
        match self {
            ArtichokeError::Syntax(e) => e.vm_backtrace(),
            ArtichokeError::Exec(e) => e.vm_backtrace(),
            _ => None,
        }
    }

    /// The report shown to a user: that of an exception with this error's
    /// class name, message and backtrace.
    pub fn display(&self) -> (report: Vec<u8>)
        ensures
            report@ == (crate::exception::ExceptionView {
                class_name: self.spec_name(),
                message: self.spec_message(),
                backtrace: self.spec_backtrace(),
            }).rendered(),
    {
        Exception::new(self.name(), self.message(), self.vm_backtrace()).display()
    }
}

} // verus!
