//! Operations on values that take more than one call into the VM.
//!
//! A task asks one query at a time. The driver answers a method call by
//! running it as a protected call (see [`crate::protect`]), and the other
//! queries by reading from or writing to the VM directly. An answer of
//! another kind than the query calls for counts as the query having failed.

use vstd::prelude::*;
use crate::error::ArtichokeError;
use crate::value::Value;
use crate::vm::Call;

verus! {

/// The host's name for a native initializer: a function of the host that
/// defines classes, modules and methods in the VM.
#[derive(Debug, Clone, Copy, PartialEq, Eq, Structural)]
pub struct Native(pub u32);

/// The kinds of random text.
#[derive(Debug, Clone, Copy, PartialEq, Eq, Structural)]
pub enum Random {
    Alphanumeric,
    Base64,
    Hex,
    Bytes,
    Uuid,
}

pub struct CallView {
    pub receiver: Value,
    pub method: Seq<u8>,
    pub args: Seq<Value>,
    pub block: Option<Value>,
}

impl View for Call {
    type V = CallView;

    open spec fn view(&self) -> CallView {
        CallView {
            receiver: self.receiver,
            method: self.method@,
            args: self.args@,
            block: self.block,
        }
    }
}

/// What a task asks for.
#[derive(Debug, PartialEq, Eq)]
pub enum Query {
    /// Call a method under protection.
    Call(Call),
    /// Allocate a `String` with these bytes in the VM.
    NewString(Vec<u8>),
    /// Read the bytes of a `String`.
    ReadString(Value),
    /// Evaluate source under protection, in the eval context that is
    /// innermost now.
    Eval(Vec<u8>),
    /// Run a native initializer.
    Native(Native),
    /// Generate random text of this kind and length, or of the kind's own
    /// length for `None`.
    Random(Random, Option<i64>),
    /// Generate a random number below this bound.
    RandomNumber(Option<Value>),
}

pub enum QueryView {
    Call(CallView),
    NewString(Seq<u8>),
    ReadString(Value),
    Eval(Seq<u8>),
    Native(Native),
    Random(Random, Option<i64>),
    RandomNumber(Option<Value>),
}

impl View for Query {
    type V = QueryView;

    open spec fn view(&self) -> QueryView {
        match self {
            Query::Call(call) => QueryView::Call(call@),
            Query::NewString(bytes) => QueryView::NewString(bytes@),
            Query::ReadString(value) => QueryView::ReadString(*value),
            Query::Eval(code) => QueryView::Eval(code@),
            Query::Native(native) => QueryView::Native(*native),
            Query::Random(kind, len) => QueryView::Random(*kind, *len),
            Query::RandomNumber(max) => QueryView::RandomNumber(*max),
        }
    }
}

/// A call of `method` on `receiver` without arguments or block.
pub open spec fn plain_call(receiver: Value, method: Seq<u8>) -> QueryView {
    QueryView::Call(CallView { receiver, method, args: Seq::empty(), block: None })
}

/// What the driver answers.
#[derive(Debug, PartialEq, Eq)]
pub enum Answer {
    /// What the protected call returned.
    Returned(Result<Value, ArtichokeError>),
    /// The `String` that was allocated.
    Created(Value),
    /// The bytes that were read, `None` where the value holds none.
    Bytes(Option<Vec<u8>>),
    /// Whether the native initializer succeeded.
    Initialized(bool),
    /// The random text that was generated, or why none was.
    Generated(Result<Vec<u8>, ArtichokeError>),
}

/// One step of a task: the query to answer next, with the task to hand the
/// answer to, or the result.
#[derive(Debug, PartialEq, Eq)]
pub enum Task<M, T> {
    Ask(M, Query),
    Done(T),
}

/// The query that calls `method` on `receiver` without arguments or block.
pub fn call_plain(receiver: Value, method: &str) -> (query: Query)
    ensures
        query@ == plain_call(receiver, crate::bytes::text(method)),
{
    Query::Call(
        Call { receiver, method: crate::bytes::bytes_of(method), args: Vec::new(), block: None },
    )
}

} // verus!
