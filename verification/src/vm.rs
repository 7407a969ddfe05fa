//! The requests the host makes of the VM, and the VM's replies.
//!
//! A driver outside this crate performs one request at a time and hands the
//! reply to the machine that asked. A reply of another kind than the request
//! calls for counts as the request having failed.

use vstd::prelude::*;
use crate::error::ArtichokeError;
use crate::exception::ErrorObject;
use crate::value::Value;

verus! {

/// The payload of a protected evaluation: the filename to report,
/// NUL-terminated, and the source to evaluate.
///
/// The VM may leave the evaluation by unwinding, which runs no destructor
/// between the call and the place that catches the unwind. The driver
/// therefore hands the VM these bytes by reference and keeps the `Protect`
/// itself outside the frames that the unwind skips.
#[derive(Debug, PartialEq, Eq)]
pub struct Protect {
    pub filename: Vec<u8>,
    pub code: Vec<u8>,
}

/// A method call: the receiver, the method's name, the arguments and the
/// block.
#[derive(Debug, PartialEq, Eq)]
pub struct Call {
    pub receiver: Value,
    pub method: Vec<u8>,
    pub args: Vec<Value>,
    pub block: Option<Value>,
}

/// The packages of the standard library that are written in Ruby alone.
#[derive(Debug, Clone, Copy, PartialEq, Eq, Structural)]
pub enum Package {
    Delegate,
    Forwardable,
    Monitor,
    Ostruct,
    SetLib,
}

/// What the host asks of the VM.
#[derive(Debug, PartialEq, Eq)]
pub enum Request {
    /// Allocate the VM.
    Open,
    /// Free the VM.
    Close,
    /// Stop the garbage collector.
    DisableGc,
    /// Start the garbage collector again.
    EnableGc,
    /// Run a full collection.
    FullGc,
    /// Define the core and standard library in the VM.
    InitExtensions,
    /// Initialize the gems that are compiled into the VM.
    InitGems,
    /// Define one package of the standard library in the VM.
    InitPackage(Package),
    /// Capture the top of the GC arena.
    SaveArena,
    /// Truncate the GC arena to a position captured before.
    RestoreArena(i32),
    /// Evaluate source under protection. An exception that the evaluation
    /// raises is left in the VM's pending-error slot.
    Eval(Protect),
    /// Call a method under protection. An exception that the call raises is
    /// left in the VM's pending-error slot.
    Funcall(Call),
    /// Read the class name, message and backtrace of the pending error.
    ReadError,
    /// Empty the pending-error slot.
    ClearError,
    /// Unwind the VM: with the pending error, or with the given one. The VM
    /// does not return from this request.
    Raise(Option<ArtichokeError>),
}

/// How a protected call ended.
#[derive(Debug, PartialEq, Eq)]
pub enum Outcome {
    /// The call returned this value.
    Value(Value),
    /// The call raised; the value marks the exception.
    Raised(Value),
    /// The call could not be protected and was not made.
    Failure,
}

/// What the VM answers.
#[derive(Debug, PartialEq, Eq)]
pub enum Reply {
    /// Whether the VM was allocated.
    Opened(bool),
    /// The garbage collector is stopped; whether it ran before.
    GcDisabled(bool),
    /// The request failed with this error.
    Failed(ArtichokeError),
    /// The arena position that was captured, `None` where the VM could not
    /// capture one.
    ArenaSaved(Option<i32>),
    Returned(Outcome),
    /// What was read of the pending error, `None` where none is pending.
    Error(Option<ErrorObject>),
    /// The request was carried out and has nothing to report.
    Finished,
}

/// One step of a machine: the request to perform next, with the machine to
/// hand the reply to, or the result.
#[derive(Debug, PartialEq, Eq)]
pub enum Step<M, T> {
    Ask(M, Request),
    Done(T),
}

} // verus!
