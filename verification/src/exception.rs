//! Exceptions read back from the VM.
//!
//! After a protected call the VM may hold a pending error object. The driver
//! reads its class name, message and backtrace, each of which may fail, and
//! hands the three results to [`last_error`], which decides what the host
//! reports.

use vstd::prelude::*;
use crate::bytes::{bytes_of, copy_bytes, copy_lines, lines_view, prefixed, push_all, same_bytes, text};

verus! {

/// An exception raised in the VM, as the host reports it.
#[derive(Debug, PartialEq, Eq)]
pub struct Exception {
    class_name: Vec<u8>,
    message: Vec<u8>,
    backtrace: Option<Vec<Vec<u8>>>,
}

pub struct ExceptionView {
    pub class_name: Seq<u8>,
    pub message: Seq<u8>,
    pub backtrace: Option<Seq<Seq<u8>>>,
}

impl ExceptionView {
    /// Whether the exception reports a source that failed to parse.
    pub open spec fn is_syntax_error(self) -> bool {
        self.class_name == text("SyntaxError")
    }

    /// The report shown to a user. With a backtrace, the first line is the
    /// innermost frame, the message and the class name in parentheses, and
    /// every frame follows on a line of its own. Without one, it is the class
    /// name and the message.
    pub open spec fn rendered(self) -> Seq<u8> {
        match self.backtrace {
            Some(frames) => if frames.len() > 0 {
                frames[0] + text(": ") + self.message + text(" (") + self.class_name + text(")")
                    + prefixed(frames, seq![10u8])
            } else {
                self.class_name + text(": ") + self.message
            },
            None => self.class_name + text(": ") + self.message,
        }
    }
}

impl View for Exception {
    type V = ExceptionView;

    closed spec fn view(&self) -> ExceptionView {
        ExceptionView {
            class_name: self.class_name@,
            message: self.message@,
            backtrace: match self.backtrace {
                Some(frames) => Some(lines_view(frames@)),
                None => None,
            },
        }
    }
}

impl Clone for Exception {
    fn clone(&self) -> (copy: Self)
        ensures
            copy@ == self@,
    {
        Exception {
            class_name: copy_bytes(&self.class_name),
            message: copy_bytes(&self.message),
            backtrace: match &self.backtrace {
                Some(frames) => Some(copy_lines(frames)),
                None => None,
            },
        }
    }
}

impl Exception {
    pub fn new(class_name: Vec<u8>, message: Vec<u8>, backtrace: Option<Vec<Vec<u8>>>) -> (e: Self)
        ensures
            e@.class_name == class_name@,
            e@.message == message@,
            e@.backtrace == match backtrace {
                Some(frames) => Some(lines_view(frames@)),
                None => None,
            },
    {
        Exception { class_name, message, backtrace }
    }

    /// The name of the exception's class.
    pub fn name(&self) -> (name: Vec<u8>)
        ensures
            name@ == self@.class_name,
    {
        copy_bytes(&self.class_name)
    }

    pub fn message(&self) -> (message: Vec<u8>)
        ensures
            message@ == self@.message,
    {
        copy_bytes(&self.message)
    }

    pub fn vm_backtrace(&self) -> (backtrace: Option<Vec<Vec<u8>>>)
        ensures
            self@.backtrace == match backtrace {
                Some(frames) => Some(lines_view(frames@)),
                None => None,
            },
    {
        match &self.backtrace {
            Some(frames) => Some(copy_lines(frames)),
            None => None,
        }
    }

    pub fn is_syntax_error(&self) -> (r: bool)
        ensures
            r == self@.is_syntax_error(),
    {
        let expected: Vec<u8> = bytes_of("SyntaxError");
        same_bytes(self.class_name.as_slice(), expected.as_slice())
    }

    /// The report shown to a user.
    pub fn display(&self) -> (report: Vec<u8>)
        ensures
            report@ == self@.rendered(),
    {
        let mut out: Vec<u8> = Vec::new();
        match &self.backtrace {
            Some(frames) => {
                if frames.len() > 0 {
                    push_all(&mut out, frames[0].as_slice());
                    push_all(&mut out, bytes_of(": ").as_slice());
                    push_all(&mut out, self.message.as_slice());
                    push_all(&mut out, bytes_of(" (").as_slice());
                    push_all(&mut out, self.class_name.as_slice());
                    push_all(&mut out, bytes_of(")").as_slice());
                    let ghost head = out@;
                    let ghost lines = lines_view(frames@);
                    let mut i: usize = 0;
                    while i < frames.len()
                        invariant
                            i <= frames.len(),
                            lines == lines_view(frames@),
                            out@ == head + prefixed(lines.subrange(0, i as int), seq![10u8]),
                        decreases frames.len() - i,
                    {
                        out.push(10u8);
                        push_all(&mut out, frames[i].as_slice());
                        proof {
                            let before = lines.subrange(0, i as int);
                            let after = lines.subrange(0, i + 1);
                            assert(after.drop_last() =~= before);
                            assert(after.last() == frames[i as int]@);
                            assert(out@ =~= head + prefixed(after, seq![10u8]));
                        }
                        i += 1;
                    }
                    assert(lines.subrange(0, frames.len() as int) =~= lines);
                    return out;
                }
            },
            None => {},
        }
        push_all(&mut out, self.class_name.as_slice());
        push_all(&mut out, bytes_of(": ").as_slice());
        push_all(&mut out, self.message.as_slice());
        out
    }
}

/// What the VM's introspection calls returned for a pending error object.
/// `None` in a field means that the read itself failed.
#[derive(Debug, PartialEq, Eq)]
pub struct ErrorObject {
    pub class_name: Option<Vec<u8>>,
    pub message: Option<Vec<u8>>,
    /// The inner `None` is an error object without a backtrace.
    pub backtrace: Option<Option<Vec<Vec<u8>>>>,
}

/// The read that failed on a malformed error object.
#[derive(Debug, Clone, Copy, PartialEq, Eq, Structural)]
pub enum Unreadable {
    /// The error object as a whole.
    Object,
    ClassName,
    Message,
    Backtrace,
}

/// The error state of the VM after a call.
#[derive(Debug, PartialEq, Eq)]
pub enum LastError {
    /// No error object was pending.
    Nothing,
    /// An error object was pending and was read in full.
    Caught(Exception),
    /// An error object was pending and could not be read.
    UnableToExtract(Unreadable),
}

/// Whether `last` is what the reads in `object` amount to. The reads are
/// judged in the order class name, message, backtrace; the first that failed
/// is reported.
pub open spec fn extracted(object: ErrorObject, last: LastError) -> bool {
    match (object.class_name, object.message, object.backtrace) {
        (None, _, _) => last == LastError::UnableToExtract(Unreadable::ClassName),
        (Some(_), None, _) => last == LastError::UnableToExtract(Unreadable::Message),
        (Some(_), Some(_), None) => last == LastError::UnableToExtract(Unreadable::Backtrace),
        (Some(c), Some(m), Some(b)) => last matches LastError::Caught(e) && e@.class_name == c@
            && e@.message == m@ && e@.backtrace == match b {
            Some(frames) => Some(lines_view(frames@)),
            None => None,
        },
    }
}

/// Decides what a pending error amounts to: nothing where none is pending,
/// and else what was read of it.
pub fn last_error(pending: Option<ErrorObject>) -> (r: LastError)
    ensures
        pending is None ==> r is Nothing,
        pending matches Some(object) ==> extracted(object, r),
{
    match pending {
        None => LastError::Nothing,
        Some(obj) => {
            let ErrorObject { class_name, message, backtrace } = obj;
            match class_name {
                None => LastError::UnableToExtract(Unreadable::ClassName),
                Some(c) => match message {
                    None => LastError::UnableToExtract(Unreadable::Message),
                    Some(m) => match backtrace {
                        None => LastError::UnableToExtract(Unreadable::Backtrace),
                        Some(b) => LastError::Caught(Exception::new(c, m, b)),
                    },
                },
            }
        },
    }
}

} // verus!
