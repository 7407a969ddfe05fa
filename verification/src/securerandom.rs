//! The native side of `SecureRandom`.
//!
//! The random text itself comes from the host's generator. What is decided
//! here is what the generator is asked for and what becomes of its answer.

use vstd::prelude::*;
use crate::error::ArtichokeError;
use crate::implicit::{begun, Conversion, Converted, Implicit, Target};
use crate::task::{Answer, Query, Random, Task};
use crate::value::Value;

verus! {

/// Where a call of `SecureRandom` stands.
#[derive(Debug, PartialEq, Eq)]
pub enum RandomStage {
    /// Converting the length to an integer.
    Measuring(Implicit),
    /// Asked the generator.
    Generating,
    /// Asked for the `String` that holds the text.
    Creating,
}

/// A call of `SecureRandom` in progress.
#[derive(Debug, PartialEq, Eq)]
pub struct SecureRandom {
    kind: Random,
    stage: RandomStage,
}

pub type Randomized = Task<SecureRandom, Result<Value, ArtichokeError>>;

/// Whether `next` is what a step of the length's conversion leads to: what
/// the conversion asks is asked, its error ends the call, and with its
/// integer the generator is asked.
pub open spec fn measured(kind: Random, conversion: Conversion, next: Randomized) -> bool {
    match conversion {
        Task::Ask(sub, query) => {
            &&& next matches Task::Ask(task, asked)
            &&& asked == query
            &&& task.kind() == kind
            &&& task.stage() == RandomStage::Measuring(sub)
        },
        Task::Done(Ok(Converted::Int(len))) => {
            &&& next matches Task::Ask(task, asked)
            &&& asked == Query::Random(kind, Some(len))
            &&& task.kind() == kind
            &&& task.stage() == RandomStage::Generating
        },
        Task::Done(Ok(_)) => next == Randomized::Done(Err(ArtichokeError::ExecutorFailure)),
        Task::Done(Err(e)) => next == Randomized::Done(Err(ArtichokeError::Type(e))),
    }
}

/// Whether `next` begins a call for random text of `kind`: a length that is
/// given is converted to an integer first, and without one the generator is
/// asked at once.
pub open spec fn asked(kind: Random, len: Option<Value>, next: Randomized) -> bool {
    match len {
        Some(len) => exists|conversion: Conversion| #[trigger]
            begun(len, Target::Integer, conversion) && measured(kind, conversion, next),
        None => {
            &&& next matches Task::Ask(task, asked)
            &&& asked == Query::Random(kind, None)
            &&& task.kind() == kind
            &&& task.stage() == RandomStage::Generating
        },
    }
}

impl SecureRandom {
    pub closed spec fn kind(&self) -> Random {
        self.kind
    }

    pub closed spec fn stage(&self) -> RandomStage {
        self.stage
    }

    /// Whether `next` follows on `answer`: the text that the generator gave
    /// is put into a `String`, which is the result; the generator's error
    /// ends the call.
    pub open spec fn follows(self, answer: Answer, next: Randomized) -> bool {
        match self.stage() {
            RandomStage::Measuring(sub) => exists|conversion: Conversion| #[trigger]
                sub.follows(answer, conversion) && measured(self.kind(), conversion, next),
            RandomStage::Generating => match answer {
                Answer::Generated(Ok(bytes)) => {
                    &&& next matches Task::Ask(task, asked)
                    &&& asked == Query::NewString(bytes)
                    &&& task.kind() == self.kind()
                    &&& task.stage() == RandomStage::Creating
                },
                Answer::Generated(Err(e)) => next == Randomized::Done(Err(e)),
                _ => next == Randomized::Done(Err(ArtichokeError::ExecutorFailure)),
            },
            RandomStage::Creating => match answer {
                Answer::Created(value) => next == Randomized::Done(Ok(value)),
                _ => next == Randomized::Done(Err(ArtichokeError::ExecutorFailure)),
            },
        }
    }

    fn measure(kind: Random, conversion: Conversion) -> (next: Randomized)
        ensures
            measured(kind, conversion, next),
    {
        match conversion {
            Task::Ask(sub, query) => Task::Ask(
                SecureRandom { kind, stage: RandomStage::Measuring(sub) },
                query,
            ),
            Task::Done(Ok(Converted::Int(len))) => Task::Ask(
                SecureRandom { kind, stage: RandomStage::Generating },
                Query::Random(kind, Some(len)),
            ),
            Task::Done(Ok(_)) => Task::Done(Err(ArtichokeError::ExecutorFailure)),
            Task::Done(Err(e)) => Task::Done(Err(ArtichokeError::Type(e))),
        }
    }

    /// Begin a call for random text of `kind`.
    pub fn start(kind: Random, len: Option<Value>) -> (next: Randomized)
        ensures
            asked(kind, len, next),
    {
        match len {
            Some(len) => {
                let conversion = len.implicitly_convert_to_int();
                let next = Self::measure(kind, conversion);
                assert(begun(len, Target::Integer, conversion) && measured(kind, conversion, next));
                next
            },
            None => Task::Ask(
                SecureRandom { kind, stage: RandomStage::Generating },
                Query::Random(kind, None),
            ),
        }
    }

    pub fn resume(self, answer: Answer) -> (next: Randomized)
        ensures
            self.follows(answer, next),
    {
        let kind = self.kind;
        match self.stage {
            RandomStage::Measuring(sub) => {
                let conversion = sub.resume(answer);
                let next = Self::measure(kind, conversion);
                assert(sub.follows(answer, conversion) && measured(kind, conversion, next));
                next
            },
            RandomStage::Generating => match answer {
                Answer::Generated(Ok(bytes)) => Task::Ask(
                    SecureRandom { kind, stage: RandomStage::Creating },
                    Query::NewString(bytes),
                ),
                Answer::Generated(Err(e)) => Task::Done(Err(e)),
                _ => Task::Done(Err(ArtichokeError::ExecutorFailure)),
            },
            RandomStage::Creating => match answer {
                Answer::Created(value) => Task::Done(Ok(value)),
                _ => Task::Done(Err(ArtichokeError::ExecutorFailure)),
            },
        }
    }
}

/// A random number below a bound.
#[derive(Debug, Clone, Copy, PartialEq, Eq, Structural)]
pub struct RandomNumber;

impl RandomNumber {
    /// Whether `next` follows on `answer`: the number that the generator
    /// made is the result, and its error is passed on.
    pub open spec fn follows(self, answer: Answer, next: Task<RandomNumber, Result<Value, ArtichokeError>>) -> bool {
        match answer {
            Answer::Returned(result) => next == Task::<
                RandomNumber,
                Result<Value, ArtichokeError>,
            >::Done(result),
            _ => next == Task::<RandomNumber, Result<Value, ArtichokeError>>::Done(
                Err(ArtichokeError::ExecutorFailure),
            ),
        }
    }

    pub fn resume(self, answer: Answer) -> (next: Task<RandomNumber, Result<Value, ArtichokeError>>)
        ensures
            self.follows(answer, next),
    {
        match answer {
            Answer::Returned(result) => Task::Done(result),
            _ => Task::Done(Err(ArtichokeError::ExecutorFailure)),
        }
    }
}

/// `SecureRandom.alphanumeric`: random letters and digits, `len` of them
/// where a length is given.
#[inline]
pub fn alphanumeric(len: Option<Value>) -> (next: Randomized)
    ensures
        asked(Random::Alphanumeric, len, next),
{
    SecureRandom::start(Random::Alphanumeric, len)
}

/// `SecureRandom.base64`: random bytes in base 64, `len` bytes where a
/// length is given.
#[inline]
pub fn base64(len: Option<Value>) -> (next: Randomized)
    ensures
        asked(Random::Base64, len, next),
{
    SecureRandom::start(Random::Base64, len)
}

/// `SecureRandom.hex`: random bytes in hexadecimal, `len` bytes where a
/// length is given.
#[inline]
pub fn hex(len: Option<Value>) -> (next: Randomized)
    ensures
        asked(Random::Hex, len, next),
{
    SecureRandom::start(Random::Hex, len)
}

/// `SecureRandom.random_bytes`: random bytes, `len` of them where a length
/// is given.
#[inline]
pub fn random_bytes(len: Option<Value>) -> (next: Randomized)
    ensures
        asked(Random::Bytes, len, next),
{
    SecureRandom::start(Random::Bytes, len)
}

/// `SecureRandom.random_number`: a random number below `max`.
#[inline]
pub fn random_number(max: Option<Value>) -> (next: Task<RandomNumber, Result<Value, ArtichokeError>>)
    ensures
        next == Task::<RandomNumber, Result<Value, ArtichokeError>>::Ask(
            RandomNumber,
            Query::RandomNumber(max),
        ),
{
    Task::Ask(RandomNumber, Query::RandomNumber(max))
}

/// `SecureRandom.uuid`: a random UUID.
#[inline]
pub fn uuid() -> (next: Randomized)
    ensures
        asked(Random::Uuid, None, next),
{
    SecureRandom::start(Random::Uuid, None)
}

} // verus!
