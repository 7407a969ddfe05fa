//! VM values as the host holds them.

use vstd::prelude::*;
use vstd::slice::slice_to_vec;
use crate::bytes::{bytes_of, decimal, digits, push_all, text};
use crate::error::{ArtichokeError, TypeError};
use crate::protect::{Entry, Protected, Stage};
use crate::task::{call_plain, plain_call, Answer, CallView, Query, QueryView, Task};
use crate::types::Ruby;
use crate::vm::{Call, Request, Step};

verus! {

/// Max argument count for function calls including initialize and yield.
pub const MRB_FUNCALL_ARGC_MAX: usize = 16;

/// Boxed Ruby value: its type tag and its machine word.
///
/// The word of a `Fixnum` is the integer, the word of a `Bool` is zero for
/// `false`, and the word of any other value is the VM's reference to it.
#[derive(Debug, Clone, Copy, PartialEq, Eq, Structural)]
pub struct Value {
    tag: Ruby,
    word: i64,
}

pub struct ValueView {
    pub tag: Ruby,
    pub word: i64,
}

impl ValueView {
    pub open spec fn is_nil(self) -> bool {
        self.tag == Ruby::Nil
    }

    /// Whether the value carries the tag that the VM keeps for itself.
    pub open spec fn is_unreachable(self) -> bool {
        self.tag == Ruby::Unreachable
    }

    pub open spec fn to_bool(self) -> Option<bool> {
        if self.tag == Ruby::Bool {
            Some(self.word != 0)
        } else {
            None
        }
    }

    /// `nil` converts to `Some(None)`, a boolean to `Some(Some(_))`.
    pub open spec fn to_nilable_bool(self) -> Option<Option<bool>> {
        if self.tag == Ruby::Nil {
            Some(None)
        } else if self.tag == Ruby::Bool {
            Some(Some(self.word != 0))
        } else {
            None
        }
    }

    pub open spec fn to_int(self) -> Option<i64> {
        if self.tag == Ruby::Fixnum {
            Some(self.word)
        } else {
            None
        }
    }

    /// `nil` converts to `Some(None)`, an integer to `Some(Some(_))`.
    pub open spec fn to_nilable_int(self) -> Option<Option<i64>> {
        if self.tag == Ruby::Nil {
            Some(None)
        } else if self.tag == Ruby::Fixnum {
            Some(Some(self.word))
        } else {
            None
        }
    }
}

impl View for Value {
    type V = ValueView;

    closed spec fn view(&self) -> ValueView {
        ValueView { tag: self.tag, word: self.word }
    }
}

impl Default for Value {
    fn default() -> (v: Self)
        ensures
            v@ == (ValueView { tag: Ruby::Nil, word: 0 }),
    {
        Value { tag: Ruby::Nil, word: 0 }
    }
}

impl Value {
    /// A value with the given tag and word.
    #[must_use]
    pub fn new(tag: Ruby, word: i64) -> (v: Self)
        ensures
            v@ == (ValueView { tag, word }),
    {
        Value { tag, word }
    }

    #[must_use]
    pub fn nil() -> (v: Self)
        ensures
            v@ == (ValueView { tag: Ruby::Nil, word: 0 }),
    {
        Value { tag: Ruby::Nil, word: 0 }
    }

    #[must_use]
    pub fn from_bool(b: bool) -> (v: Self)
        ensures
            v@ == (ValueView { tag: Ruby::Bool, word: if b { 1i64 } else { 0i64 } }),
            v@.to_bool() == Some(b),
    {
        let word: i64 = if b { 1 } else { 0 };
        Value { tag: Ruby::Bool, word }
    }

    #[must_use]
    pub fn from_int(i: i64) -> (v: Self)
        ensures
            v@ == (ValueView { tag: Ruby::Fixnum, word: i }),
    {
        Value { tag: Ruby::Fixnum, word: i }
    }

    /// The machine word that this value wraps.
    #[inline]
    #[must_use]
    pub fn inner(&self) -> (word: i64)
        ensures
            word == self@.word,
    {
        self.word
    }

    /// This value's type tag.
    #[inline]
    #[must_use]
    pub fn ruby_type(&self) -> (tag: Ruby)
        ensures
            tag == self@.tag,
    {
        self.tag
    }

    /// Whether a value is an interpreter-only variant not exposed to Ruby.
    ///
    /// Handing such a value back to the VM is unspecified and may crash it.
    #[must_use]
    #[inline]
    pub fn is_unreachable(&self) -> (r: bool)
        ensures
            r == self@.is_unreachable(),
    {
        match self.tag {
            Ruby::Unreachable => true,
            _ => false,
        }
    }

    #[must_use]
    pub fn is_nil(&self) -> (r: bool)
        ensures
            r == self@.is_nil(),
    {
        match self.tag {
            Ruby::Nil => true,
            _ => false,
        }
    }

    pub fn try_into_bool(&self) -> (r: Option<bool>)
        ensures
            r == self@.to_bool(),
    {
        match self.tag {
            Ruby::Bool => Some(self.word != 0),
            _ => None,
        }
    }

    pub fn try_into_nilable_bool(&self) -> (r: Option<Option<bool>>)
        ensures
            r == self@.to_nilable_bool(),
    {
        match self.tag {
            Ruby::Nil => Some(None),
            Ruby::Bool => Some(Some(self.word != 0)),
            _ => None,
        }
    }

    pub fn try_into_int(&self) -> (r: Option<i64>)
        ensures
            r == self@.to_int(),
    {
        match self.tag {
            Ruby::Fixnum => Some(self.word),
            _ => None,
        }
    }

    pub fn try_into_nilable_int(&self) -> (r: Option<Option<i64>>)
        ensures
            r == self@.to_nilable_int(),
    {
        match self.tag {
            Ruby::Nil => Some(None),
            Ruby::Fixnum => Some(Some(self.word)),
            _ => None,
        }
    }

}

/// Argument count exceeds maximum allowed by the VM.
#[derive(Debug, Clone, Copy, PartialEq, Eq, Structural)]
pub struct ArgCountError {
    /// Number of arguments given.
    pub given: usize,
    /// Maximum number of arguments supported.
    pub max: usize,
}

impl ArgCountError {
    pub open spec fn spec_display(self) -> Seq<u8> {
        text("Too many arguments for function call: gave ") + digits(self.given as nat) + text(
            " arguments, but Artichoke only supports a maximum of ",
        ) + digits(self.max as nat) + text(" arguments")
    }

    pub fn new(args: &[Value]) -> (e: Self)
        ensures
            e.given == args@.len(),
            e.max == MRB_FUNCALL_ARGC_MAX,
    {
        ArgCountError { given: args.len(), max: MRB_FUNCALL_ARGC_MAX }
    }

    pub fn message(&self) -> (message: Vec<u8>)
        ensures
            message@ == text("Too many arguments"),
    {
        bytes_of("Too many arguments")
    }

    pub fn name(&self) -> (name: Vec<u8>)
        ensures
            name@ == text("ArgumentError"),
    {
        bytes_of("ArgumentError")
    }

    pub fn vm_backtrace(&self) -> (backtrace: Option<Vec<Vec<u8>>>)
        ensures
            backtrace is None,
    {
        None
    }

    pub fn display(&self) -> (report: Vec<u8>)
        ensures
            report@ == self.spec_display(),
    {
        let mut out: Vec<u8> = bytes_of("Too many arguments for function call: gave ");
        push_all(&mut out, decimal(self.given as u64).as_slice());
        push_all(&mut out, bytes_of(" arguments, but Artichoke only supports a maximum of ").as_slice());
        push_all(&mut out, decimal(self.max as u64).as_slice());
        push_all(&mut out, bytes_of(" arguments").as_slice());
        out
    }
}


/// The bytes that a call of `to_s` or `inspect` gives.
#[derive(Debug, Clone, Copy, PartialEq, Eq, Structural)]
pub enum Display {
    /// Asked for the method call.
    Called,
    /// Asked for the bytes of the `String` that the call returned.
    Reading,
}

impl Display {
    /// Whether `next` follows on `answer`: a `String` that the call returned
    /// is read, and its bytes are the result. Anything else gives no bytes.
    pub open spec fn follows(self, answer: Answer, next: Task<Display, Vec<u8>>) -> bool {
        match self {
            Display::Called => match answer {
                Answer::Returned(Ok(value)) => if value@.tag == Ruby::String {
                    next matches Task::Ask(task, query) && task == Display::Reading && query@
                        == QueryView::ReadString(value)
                } else {
                    next matches Task::Done(bytes) && bytes@ == Seq::<u8>::empty()
                },
                _ => next matches Task::Done(bytes) && bytes@ == Seq::<u8>::empty(),
            },
            Display::Reading => match answer {
                Answer::Bytes(Some(read)) => next matches Task::Done(bytes) && bytes@ == read@,
                _ => next matches Task::Done(bytes) && bytes@ == Seq::<u8>::empty(),
            },
        }
    }

    pub fn resume(self, answer: Answer) -> (next: Task<Display, Vec<u8>>)
        ensures
            self.follows(answer, next),
    {
        match self {
            Display::Called => match answer {
                Answer::Returned(Ok(value)) => match value.ruby_type() {
                    Ruby::String => Task::Ask(Display::Reading, Query::ReadString(value)),
                    _ => Task::Done(Vec::new()),
                },
                _ => Task::Done(Vec::new()),
            },
            Display::Reading => match answer {
                Answer::Bytes(Some(read)) => Task::Done(read),
                _ => Task::Done(Vec::new()),
            },
        }
    }
}

/// Whether a value answers to a method.
#[derive(Debug, Clone, Copy, PartialEq, Eq, Structural)]
pub enum RespondTo {
    /// Asked for the method's name as a `String`; holds the receiver.
    Naming(Value),
    /// Asked for the call of `respond_to?`.
    Called,
}

/// The message of the error for a value of type `tag` that is no boolean.
pub open spec fn not_a_bool(tag: Ruby) -> Seq<u8> {
    text("failed to convert from ruby ") + tag.spec_class_name() + text(" to rust bool")
}

impl RespondTo {
    /// Whether `next` follows on `answer`: once the name is allocated,
    /// `respond_to?` is called with it, and the boolean it returns is the
    /// result. An error of the call is passed on.
    pub open spec fn follows(self, answer: Answer, next: Task<RespondTo, Result<bool, ArtichokeError>>) -> bool {
        match self {
            RespondTo::Naming(receiver) => match answer {
                Answer::Created(name) => next matches Task::Ask(task, query) && task
                    == RespondTo::Called && query@ == QueryView::Call(
                    CallView {
                        receiver,
                        method: text("respond_to?"),
                        args: seq![name],
                        block: None,
                    },
                ),
                _ => next == Task::<RespondTo, Result<bool, ArtichokeError>>::Done(
                    Err(ArtichokeError::ExecutorFailure),
                ),
            },
            RespondTo::Called => match answer {
                Answer::Returned(Ok(value)) => match value@.to_bool() {
                    Some(b) => next == Task::<RespondTo, Result<bool, ArtichokeError>>::Done(Ok(b)),
                    None => next matches Task::Done(Err(ArtichokeError::Type(e))) && e@
                        == not_a_bool(value@.tag),
                },
                Answer::Returned(Err(e)) => next == Task::<
                    RespondTo,
                    Result<bool, ArtichokeError>,
                >::Done(Err(e)),
                _ => next == Task::<RespondTo, Result<bool, ArtichokeError>>::Done(
                    Err(ArtichokeError::ExecutorFailure),
                ),
            },
        }
    }

    pub fn resume(self, answer: Answer) -> (next: Task<RespondTo, Result<bool, ArtichokeError>>)
        ensures
            self.follows(answer, next),
    {
        match self {
            RespondTo::Naming(receiver) => match answer {
                Answer::Created(name) => {
                    let mut args: Vec<Value> = Vec::new();
                    args.push(name);
                    assert(args@ =~= seq![name]);
                    Task::Ask(
                        RespondTo::Called,
                        Query::Call(
                            Call { receiver, method: bytes_of("respond_to?"), args, block: None },
                        ),
                    )
                },
                _ => Task::Done(Err(ArtichokeError::ExecutorFailure)),
            },
            RespondTo::Called => match answer {
                Answer::Returned(Ok(value)) => match value.try_into_bool() {
                    Some(b) => Task::Done(Ok(b)),
                    None => {
                        let mut message: Vec<u8> = bytes_of("failed to convert from ruby ");
                        push_all(&mut message, value.ruby_type().class_name().as_slice());
                        push_all(&mut message, bytes_of(" to rust bool").as_slice());
                        Task::Done(Err(ArtichokeError::Type(TypeError::new(message))))
                    },
                },
                Answer::Returned(Err(e)) => Task::Done(Err(e)),
                _ => Task::Done(Err(ArtichokeError::ExecutorFailure)),
            },
        }
    }
}

/// Freezing a value.
#[derive(Debug, Clone, Copy, PartialEq, Eq, Structural)]
pub struct Freeze;

impl Freeze {
    /// The result of the call decides: its value is dropped, its error is
    /// passed on.
    pub open spec fn follows(self, answer: Answer, next: Task<Freeze, Result<(), ArtichokeError>>) -> bool {
        match answer {
            Answer::Returned(Ok(_)) => next == Task::<Freeze, Result<(), ArtichokeError>>::Done(
                Ok(()),
            ),
            Answer::Returned(Err(e)) => next == Task::<Freeze, Result<(), ArtichokeError>>::Done(
                Err(e),
            ),
            _ => next == Task::<Freeze, Result<(), ArtichokeError>>::Done(
                Err(ArtichokeError::ExecutorFailure),
            ),
        }
    }

    pub fn resume(self, answer: Answer) -> (next: Task<Freeze, Result<(), ArtichokeError>>)
        ensures
            self.follows(answer, next),
    {
        match answer {
            Answer::Returned(Ok(_)) => Task::Done(Ok(())),
            Answer::Returned(Err(e)) => Task::Done(Err(e)),
            _ => Task::Done(Err(ArtichokeError::ExecutorFailure)),
        }
    }
}

impl Value {
    /// Call a method on this value under protection.
    ///
    /// The call is refused, after the arena was captured and before the VM
    /// is entered, where it has more than [`MRB_FUNCALL_ARGC_MAX`] arguments.
    pub fn funcall(&self, func: &str, args: &[Value], block: Option<Value>) -> (next: Step<
        Protected,
        Result<Value, ArtichokeError>,
    >)
        ensures
            next matches Step::Ask(machine, Request::SaveArena)
                && machine.stage() matches Stage::Saving(Entry::Funcall(call)) && call@ == (CallView {
                receiver: *self,
                method: text(func),
                args: args@,
                block,
            }),
    {
        let call = Call {
            receiver: *self,
            method: bytes_of(func),
            args: slice_to_vec(args),
            block,
        };
        Protected::start(Entry::Funcall(call))
    }

    /// Freeze this value: calls `freeze` on it.
    pub fn freeze(&self) -> (next: Task<Freeze, Result<(), ArtichokeError>>)
        ensures
            next matches Task::Ask(_, query) && query@ == plain_call(*self, text("freeze")),
    {
        Task::Ask(Freeze, call_plain(*self, "freeze"))
    }

    /// The bytes of this value's `inspect`, empty where the call fails or
    /// returns no `String`.
    pub fn inspect(&self) -> (next: Task<Display, Vec<u8>>)
        ensures
            next matches Task::Ask(task, query) && task == Display::Called && query@ == plain_call(
                *self,
                text("inspect"),
            ),
    {
        Task::Ask(Display::Called, call_plain(*self, "inspect"))
    }

    /// Whether this value answers to `method`.
    pub fn respond_to(&self, method: &str) -> (next: Task<RespondTo, Result<bool, ArtichokeError>>)
        ensures
            next matches Task::Ask(task, query) && task == RespondTo::Naming(*self) && query@
                == QueryView::NewString(text(method)),
    {
        Task::Ask(RespondTo::Naming(*self), Query::NewString(bytes_of(method)))
    }

    /// The bytes of this value's `to_s`, empty where the call fails or returns
    /// no `String`.
    pub fn to_s(&self) -> (next: Task<Display, Vec<u8>>)
        ensures
            next matches Task::Ask(task, query) && task == Display::Called && query@ == plain_call(
                *self,
                text("to_s"),
            ),
    {
        Task::Ask(Display::Called, call_plain(*self, "to_s"))
    }
}

} // verus!
