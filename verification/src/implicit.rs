//! Naming values and converting them implicitly.

use vstd::prelude::*;
use crate::bytes::{bytes_of, push_all, text};
use crate::error::TypeError;
use crate::task::{call_plain, plain_call, Answer, Query, QueryView, Task};
use crate::types::Ruby;
use crate::value::{RespondTo, Value};

verus! {

/// Finding the name under which a value appears in messages.
#[derive(Debug, Clone, Copy, PartialEq, Eq, Structural)]
pub enum PrettyName {
    /// Asked for the value's class.
    Class,
    /// Asked for the class's name.
    Name,
    /// Asked for the bytes of the name.
    Reading,
}

/// The name of a value that needs no call into the VM: `true`, `false` and
/// `nil` are named as they are written, and every other value but an object
/// by its type.
pub open spec fn immediate_name(value: Value) -> Option<Seq<u8>> {
    match value@.to_nilable_bool() {
        Some(Some(b)) => Some(if b { text("true") } else { text("false") }),
        Some(None) => Some(text("nil")),
        None => if value@.tag == Ruby::Data || value@.tag == Ruby::Object {
            None
        } else {
            Some(value@.tag.spec_class_name())
        },
    }
}

/// Whether `next` begins the naming of `value`: an object is asked for its
/// class, any other value is named at once.
pub open spec fn named(value: Value, next: Task<PrettyName, Vec<u8>>) -> bool {
    match immediate_name(value) {
        Some(known) => next matches Task::Done(name) && name@ == known,
        None => next matches Task::Ask(task, query) && task == PrettyName::Class && query@
            == plain_call(value, text("class")),
    }
}

impl PrettyName {
    /// Whether `next` follows on `answer`: the class is asked for its name,
    /// the name is read if it is a `String`, and its bytes are the result.
    /// Where a call fails or the name is no `String`, the name is empty.
    pub open spec fn follows(self, answer: Answer, next: Task<PrettyName, Vec<u8>>) -> bool {
        match self {
            PrettyName::Class => match answer {
                Answer::Returned(Ok(class)) => next matches Task::Ask(task, query) && task
                    == PrettyName::Name && query@ == plain_call(class, text("name")),
                _ => next matches Task::Done(name) && name@ == Seq::<u8>::empty(),
            },
            PrettyName::Name => match answer {
                Answer::Returned(Ok(value)) => if value@.tag == Ruby::String {
                    next matches Task::Ask(task, query) && task == PrettyName::Reading && query@
                        == QueryView::ReadString(value)
                } else {
                    next matches Task::Done(name) && name@ == Seq::<u8>::empty()
                },
                _ => next matches Task::Done(name) && name@ == Seq::<u8>::empty(),
            },
            PrettyName::Reading => match answer {
                Answer::Bytes(Some(read)) => next matches Task::Done(name) && name@ == read@,
                _ => next matches Task::Done(name) && name@ == Seq::<u8>::empty(),
            },
        }
    }

    pub fn resume(self, answer: Answer) -> (next: Task<PrettyName, Vec<u8>>)
        ensures
            self.follows(answer, next),
    {
        match self {
            PrettyName::Class => match answer {
                Answer::Returned(Ok(class)) => Task::Ask(PrettyName::Name, call_plain(class, "name")),
                _ => Task::Done(Vec::new()),
            },
            PrettyName::Name => match answer {
                Answer::Returned(Ok(value)) => match value.ruby_type() {
                    Ruby::String => Task::Ask(PrettyName::Reading, Query::ReadString(value)),
                    _ => Task::Done(Vec::new()),
                },
                _ => Task::Done(Vec::new()),
            },
            PrettyName::Reading => match answer {
                Answer::Bytes(Some(read)) => Task::Done(read),
                _ => Task::Done(Vec::new()),
            },
        }
    }
}

/// The type an implicit conversion aims at.
#[derive(Debug, Clone, Copy, PartialEq, Eq, Structural)]
pub enum Target {
    Integer,
    String,
    /// A `String`, or `nil` for `nil`.
    NilableString,
}

impl Target {
    /// The name of the target's class.
    pub open spec fn spec_class(self) -> Seq<u8> {
        match self {
            Target::Integer => text("Integer"),
            _ => text("String"),
        }
    }

    /// The method that converts to the target.
    pub open spec fn spec_method(self) -> Seq<u8> {
        match self {
            Target::Integer => text("to_int"),
            _ => text("to_str"),
        }
    }

    pub fn class(self) -> (name: Vec<u8>)
        ensures
            name@ == self.spec_class(),
    {
        match self {
            Target::Integer => bytes_of("Integer"),
            _ => bytes_of("String"),
        }
    }

    pub fn method(self) -> (name: Vec<u8>)
        ensures
            name@ == self.spec_method(),
    {
        match self {
            Target::Integer => bytes_of("to_int"),
            _ => bytes_of("to_str"),
        }
    }
}

/// What an implicit conversion gave.
#[derive(Debug, PartialEq, Eq)]
pub enum Converted {
    Int(i64),
    Bytes(Vec<u8>),
    Nil,
}

/// The message for a value that has no conversion to the target.
pub open spec fn no_conversion(name: Seq<u8>, target: Target) -> Seq<u8> {
    text("no implicit conversion of ") + name + text(" into ") + target.spec_class()
}

/// The message for a value whose conversion method gave a value of another
/// type than the target.
pub open spec fn cannot_convert(name: Seq<u8>, target: Target, given: Seq<u8>) -> Seq<u8> {
    text("can't convert ") + name + text(" to ") + target.spec_class() + text(" (") + name + text(
        "#",
    ) + target.spec_method() + text(" gives ") + given + text(")")
}

/// Where an implicit conversion stands.
#[derive(Debug, PartialEq, Eq)]
pub enum ImplicitStage {
    /// Asked for the bytes of the receiver.
    ReadingSelf,
    /// Asking whether the receiver answers to the conversion method.
    Asking(RespondTo),
    /// Asked for the call of the conversion method.
    Converting,
    /// Asked for the bytes of the value that the conversion method gave.
    ReadingGiven(Value),
    /// Naming the receiver, which has no conversion.
    NamingUnconvertible(PrettyName),
    /// Naming the receiver, whose conversion method gave the held value.
    NamingSelf(PrettyName, Value),
    /// Naming the value that the conversion method gave; holds the receiver's
    /// name.
    NamingGiven(Vec<u8>, PrettyName),
}

/// An implicit conversion in progress.
#[derive(Debug, PartialEq, Eq)]
pub struct Implicit {
    receiver: Value,
    target: Target,
    stage: ImplicitStage,
}

pub type Conversion = Task<Implicit, Result<Converted, TypeError>>;

/// Whether `next` asks `query` and goes on at `stage` with the same receiver
/// and target.
pub open spec fn goes_on(
    receiver: Value,
    target: Target,
    stage: ImplicitStage,
    query: Query,
    next: Conversion,
) -> bool {
    &&& next matches Task::Ask(task, asked)
    &&& asked == query
    &&& task.receiver() == receiver
    &&& task.target() == target
    &&& task.stage() == stage
}

/// Whether `next` asks if the receiver answers to the conversion method.
pub open spec fn asking(receiver: Value, target: Target, next: Conversion) -> bool {
    &&& next matches Task::Ask(task, query)
    &&& query@ == QueryView::NewString(target.spec_method())
    &&& task.receiver() == receiver
    &&& task.target() == target
    &&& task.stage() == ImplicitStage::Asking(RespondTo::Naming(receiver))
}

/// Whether `next` reports that the receiver has no conversion, once the
/// receiver is named.
pub open spec fn unconvertible(receiver: Value, target: Target, next: Conversion) -> bool {
    exists|naming: Task<PrettyName, Vec<u8>>| #[trigger]
        named(receiver, naming) && unconvertible_with(receiver, target, naming, next)
}

pub open spec fn unconvertible_with(
    receiver: Value,
    target: Target,
    naming: Task<PrettyName, Vec<u8>>,
    next: Conversion,
) -> bool {
    match naming {
        Task::Ask(sub, query) => goes_on(
            receiver,
            target,
            ImplicitStage::NamingUnconvertible(sub),
            query,
            next,
        ),
        Task::Done(name) => next matches Task::Done(Err(e)) && e@ == no_conversion(name@, target),
    }
}

/// Whether `next` reports that the conversion method gave a value of another
/// type, once the value that it gave is named.
pub open spec fn naming_given(
    own: Vec<u8>,
    receiver: Value,
    target: Target,
    given: Value,
    next: Conversion,
) -> bool {
    exists|naming: Task<PrettyName, Vec<u8>>| #[trigger]
        named(given, naming) && naming_given_with(own, receiver, target, naming, next)
}

pub open spec fn naming_given_with(
    own: Vec<u8>,
    receiver: Value,
    target: Target,
    naming: Task<PrettyName, Vec<u8>>,
    next: Conversion,
) -> bool {
    match naming {
        Task::Ask(sub, query) => goes_on(
            receiver,
            target,
            ImplicitStage::NamingGiven(own, sub),
            query,
            next,
        ),
        Task::Done(name) => next matches Task::Done(Err(e)) && e@ == cannot_convert(
            own@,
            target,
            name@,
        ),
    }
}

/// Whether `next` reports that the conversion method gave a value of another
/// type, once the receiver and then that value are named.
pub open spec fn naming_self(receiver: Value, target: Target, given: Value, next: Conversion) -> bool {
    exists|naming: Task<PrettyName, Vec<u8>>| #[trigger]
        named(receiver, naming) && naming_self_with(receiver, target, given, naming, next)
}

pub open spec fn naming_self_with(
    receiver: Value,
    target: Target,
    given: Value,
    naming: Task<PrettyName, Vec<u8>>,
    next: Conversion,
) -> bool {
    match naming {
        Task::Ask(sub, query) => goes_on(
            receiver,
            target,
            ImplicitStage::NamingSelf(sub, given),
            query,
            next,
        ),
        Task::Done(name) => naming_given(name, receiver, target, given, next),
    }
}

/// Whether `next` is what the conversion method's result gives: a value of
/// the target's type is the result, read first if it is a `String`, and any
/// other value is named for the error.
pub open spec fn given(receiver: Value, target: Target, value: Value, next: Conversion) -> bool {
    match target {
        Target::Integer => match value@.to_int() {
            Some(i) => next == Conversion::Done(Ok(Converted::Int(i))),
            None => naming_self(receiver, target, value, next),
        },
        _ => if value@.tag == Ruby::String {
            goes_on(
                receiver,
                target,
                ImplicitStage::ReadingGiven(value),
                Query::ReadString(value),
                next,
            )
        } else {
            naming_self(receiver, target, value, next)
        },
    }
}

/// Whether `next` begins the conversion of `receiver`.
///
/// A value of the target's type converts to itself, a `String` once its
/// bytes are read; `nil` converts to `nil` where the target allows it and is
/// an error for an integer. Any other value is asked whether it answers to
/// the conversion method.
pub open spec fn begun(receiver: Value, target: Target, next: Conversion) -> bool {
    match target {
        Target::Integer => match receiver@.to_nilable_int() {
            Some(Some(i)) => next == Conversion::Done(Ok(Converted::Int(i))),
            Some(None) => next matches Task::Done(Err(e)) && e@ == text(
                "no implicit conversion from nil to integer",
            ),
            None => asking(receiver, target, next),
        },
        _ => if target == Target::NilableString && receiver@.is_nil() {
            next == Conversion::Done(Ok(Converted::Nil))
        } else if receiver@.tag == Ruby::String {
            goes_on(receiver, target, ImplicitStage::ReadingSelf, Query::ReadString(receiver), next)
        } else {
            asking(receiver, target, next)
        },
    }
}

impl Implicit {
    pub closed spec fn receiver(&self) -> Value {
        self.receiver
    }

    pub closed spec fn target(&self) -> Target {
        self.target
    }

    pub closed spec fn stage(&self) -> ImplicitStage {
        self.stage
    }

    /// Whether `next` follows on `answer`.
    ///
    /// Bytes that were read are the result. A receiver that answers to the
    /// conversion method is converted by it; one that does not, or whose
    /// conversion fails, has no conversion.
    pub open spec fn follows(self, answer: Answer, next: Conversion) -> bool {
        let receiver = self.receiver();
        let target = self.target();
        match self.stage() {
            ImplicitStage::ReadingSelf => match answer {
                Answer::Bytes(Some(read)) => next == Conversion::Done(Ok(Converted::Bytes(read))),
                _ => asking(receiver, target, next),
            },
            ImplicitStage::Asking(sub) => exists|asked: Task<RespondTo, Result<bool, crate::error::ArtichokeError>>|
                #[trigger] sub.follows(answer, asked) && match asked {
                    Task::Ask(sub, query) => goes_on(
                        receiver,
                        target,
                        ImplicitStage::Asking(sub),
                        query,
                        next,
                    ),
                    Task::Done(Ok(true)) => {
                        &&& next matches Task::Ask(task, query)
                        &&& query@ == plain_call(receiver, target.spec_method())
                        &&& task.receiver() == receiver
                        &&& task.target() == target
                        &&& task.stage() == ImplicitStage::Converting
                    },
                    Task::Done(_) => unconvertible(receiver, target, next),
                },
            ImplicitStage::Converting => match answer {
                Answer::Returned(Ok(value)) => given(receiver, target, value, next),
                _ => unconvertible(receiver, target, next),
            },
            ImplicitStage::ReadingGiven(value) => match answer {
                Answer::Bytes(Some(read)) => next == Conversion::Done(Ok(Converted::Bytes(read))),
                _ => naming_self(receiver, target, value, next),
            },
            ImplicitStage::NamingUnconvertible(sub) => exists|naming: Task<PrettyName, Vec<u8>>|
                #[trigger] sub.follows(answer, naming) && unconvertible_with(
                    receiver,
                    target,
                    naming,
                    next,
                ),
            ImplicitStage::NamingSelf(sub, value) => exists|naming: Task<PrettyName, Vec<u8>>|
                #[trigger] sub.follows(answer, naming) && naming_self_with(
                    receiver,
                    target,
                    value,
                    naming,
                    next,
                ),
            ImplicitStage::NamingGiven(own, sub) => exists|naming: Task<PrettyName, Vec<u8>>|
                #[trigger] sub.follows(answer, naming) && naming_given_with(
                    own,
                    receiver,
                    target,
                    naming,
                    next,
                ),
        }
    }

    fn ask(receiver: Value, target: Target) -> (next: Conversion)
        ensures
            asking(receiver, target, next),
    {
        Task::Ask(
            Implicit { receiver, target, stage: ImplicitStage::Asking(RespondTo::Naming(receiver)) },
            Query::NewString(target.method()),
        )
    }

    fn fail_unconvertible(
        receiver: Value,
        target: Target,
        naming: Task<PrettyName, Vec<u8>>,
    ) -> (next: Conversion)
        ensures
            unconvertible_with(receiver, target, naming, next),
    {
        match naming {
            Task::Ask(sub, query) => Task::Ask(
                Implicit { receiver, target, stage: ImplicitStage::NamingUnconvertible(sub) },
                query,
            ),
            Task::Done(name) => {
                let mut message: Vec<u8> = bytes_of("no implicit conversion of ");
                push_all(&mut message, name.as_slice());
                push_all(&mut message, bytes_of(" into ").as_slice());
                push_all(&mut message, target.class().as_slice());
                Task::Done(Err(TypeError::new(message)))
            },
        }
    }

    fn fail_given(
        own: Vec<u8>,
        receiver: Value,
        target: Target,
        naming: Task<PrettyName, Vec<u8>>,
    ) -> (next: Conversion)
        ensures
            naming_given_with(own, receiver, target, naming, next),
    {
        match naming {
            Task::Ask(sub, query) => Task::Ask(
                Implicit { receiver, target, stage: ImplicitStage::NamingGiven(own, sub) },
                query,
            ),
            Task::Done(name) => {
                let mut message: Vec<u8> = bytes_of("can't convert ");
                push_all(&mut message, own.as_slice());
                push_all(&mut message, bytes_of(" to ").as_slice());
                push_all(&mut message, target.class().as_slice());
                push_all(&mut message, bytes_of(" (").as_slice());
                push_all(&mut message, own.as_slice());
                push_all(&mut message, bytes_of("#").as_slice());
                push_all(&mut message, target.method().as_slice());
                push_all(&mut message, bytes_of(" gives ").as_slice());
                push_all(&mut message, name.as_slice());
                push_all(&mut message, bytes_of(")").as_slice());
                Task::Done(Err(TypeError::new(message)))
            },
        }
    }

    fn fail_self(
        receiver: Value,
        target: Target,
        value: Value,
        naming: Task<PrettyName, Vec<u8>>,
    ) -> (next: Conversion)
        ensures
            naming_self_with(receiver, target, value, naming, next),
    {
        match naming {
            Task::Ask(sub, query) => Task::Ask(
                Implicit { receiver, target, stage: ImplicitStage::NamingSelf(sub, value) },
                query,
            ),
            Task::Done(name) => Self::fail_given(name, receiver, target, value.pretty_name()),
        }
    }

    fn take(receiver: Value, target: Target, value: Value) -> (next: Conversion)
        ensures
            given(receiver, target, value, next),
    {
        match target {
            Target::Integer => match value.try_into_int() {
                Some(i) => Task::Done(Ok(Converted::Int(i))),
                None => Self::fail_self(receiver, target, value, receiver.pretty_name()),
            },
            _ => match value.ruby_type() {
                Ruby::String => Task::Ask(
                    Implicit { receiver, target, stage: ImplicitStage::ReadingGiven(value) },
                    Query::ReadString(value),
                ),
                _ => Self::fail_self(receiver, target, value, receiver.pretty_name()),
            },
        }
    }

    /// Begin the implicit conversion of `receiver` to `target`.
    pub fn start(receiver: Value, target: Target) -> (next: Conversion)
        ensures
            begun(receiver, target, next),
    {
        match target {
            Target::Integer => match receiver.try_into_nilable_int() {
                Some(Some(i)) => Task::Done(Ok(Converted::Int(i))),
                Some(None) => Task::Done(
                    Err(TypeError::new(bytes_of("no implicit conversion from nil to integer"))),
                ),
                None => Self::ask(receiver, target),
            },
            _ => {
                let nilable: bool = match target {
                    Target::NilableString => true,
                    _ => false,
                };
                if nilable && receiver.is_nil() {
                    Task::Done(Ok(Converted::Nil))
                } else {
                    match receiver.ruby_type() {
                        Ruby::String => Task::Ask(
                            Implicit { receiver, target, stage: ImplicitStage::ReadingSelf },
                            Query::ReadString(receiver),
                        ),
                        _ => Self::ask(receiver, target),
                    }
                }
            },
        }
    }

    pub fn resume(self, answer: Answer) -> (next: Conversion)
        ensures
            self.follows(answer, next),
    {
        let receiver = self.receiver;
        let target = self.target;
        match self.stage {
            ImplicitStage::ReadingSelf => match answer {
                Answer::Bytes(Some(read)) => Task::Done(Ok(Converted::Bytes(read))),
                _ => Self::ask(receiver, target),
            },
            ImplicitStage::Asking(sub) => match sub.resume(answer) {
                Task::Ask(sub, query) => Task::Ask(
                    Implicit { receiver, target, stage: ImplicitStage::Asking(sub) },
                    query,
                ),
                Task::Done(Ok(true)) => Task::Ask(
                    Implicit { receiver, target, stage: ImplicitStage::Converting },
                    Query::Call(
                        crate::vm::Call {
                            receiver,
                            method: target.method(),
                            args: Vec::new(),
                            block: None,
                        },
                    ),
                ),
                Task::Done(_) => Self::fail_unconvertible(receiver, target, receiver.pretty_name()),
            },
            ImplicitStage::Converting => match answer {
                Answer::Returned(Ok(value)) => Self::take(receiver, target, value),
                _ => Self::fail_unconvertible(receiver, target, receiver.pretty_name()),
            },
            ImplicitStage::ReadingGiven(value) => match answer {
                Answer::Bytes(Some(read)) => Task::Done(Ok(Converted::Bytes(read))),
                _ => Self::fail_self(receiver, target, value, receiver.pretty_name()),
            },
            ImplicitStage::NamingUnconvertible(sub) => Self::fail_unconvertible(
                receiver,
                target,
                sub.resume(answer),
            ),
            ImplicitStage::NamingSelf(sub, value) => Self::fail_self(
                receiver,
                target,
                value,
                sub.resume(answer),
            ),
            ImplicitStage::NamingGiven(own, sub) => Self::fail_given(
                own,
                receiver,
                target,
                sub.resume(answer),
            ),
        }
    }
}

impl Value {
    /// The name under which this value appears in messages.
    #[must_use]
    pub fn pretty_name(&self) -> (next: Task<PrettyName, Vec<u8>>)
        ensures
            named(*self, next),
    {
        match self.try_into_nilable_bool() {
            Some(Some(true)) => Task::Done(bytes_of("true")),
            Some(Some(false)) => Task::Done(bytes_of("false")),
            Some(None) => Task::Done(bytes_of("nil")),
            None => match self.ruby_type() {
                Ruby::Data => Task::Ask(PrettyName::Class, call_plain(*self, "class")),
                Ruby::Object => Task::Ask(PrettyName::Class, call_plain(*self, "class")),
                tag => Task::Done(tag.class_name()),
            },
        }
    }

    /// Convert this value to an integer: an integer converts to itself, and
    /// any other value but `nil` by its `to_int`.
    pub fn implicitly_convert_to_int(&self) -> (next: Conversion)
        ensures
            begun(*self, Target::Integer, next),
    {
        Implicit::start(*self, Target::Integer)
    }

    /// Convert this value to a byte string: a `String` converts to itself,
    /// and any other value by its `to_str`.
    pub fn implicitly_convert_to_string(&self) -> (next: Conversion)
        ensures
            begun(*self, Target::String, next),
    {
        Implicit::start(*self, Target::String)
    }

    /// Convert this value to a byte string, or to `nil` if it is `nil`.
    #[inline]
    pub fn implicitly_convert_to_nilable_string(&self) -> (next: Conversion)
        ensures
            begun(*self, Target::NilableString, next),
    {
        Implicit::start(*self, Target::NilableString)
    }
}

} // verus!
