//! Protected calls into the VM.
//!
//! A protected call opens an arena savepoint, makes the call, reads the VM's
//! pending error, empties the pending-error slot and restores the savepoint,
//! in this order and on every path. What it returns is decided by [`settle`].

use vstd::prelude::*;
use crate::arena::ArenaIndex;
use crate::error::ArtichokeError;
use crate::exception::{last_error, LastError, Unreadable};
use crate::interpreter::{Artichoke, ArtichokeView};
use crate::value::{ArgCountError, Value, MRB_FUNCALL_ARGC_MAX};
use crate::vm::{Call, Outcome, Protect, Reply, Request, Step};

verus! {

/// The entry point of a protected call, with its payload.
#[derive(Debug, PartialEq, Eq)]
pub enum Entry {
    Eval(Protect),
    Funcall(Call),
}

impl Entry {
    /// Whether the VM takes the call as it is: a method call has at most
    /// [`MRB_FUNCALL_ARGC_MAX`] arguments.
    pub open spec fn accepted(self) -> bool {
        match self {
            Entry::Eval(_) => true,
            Entry::Funcall(call) => call.args@.len() <= MRB_FUNCALL_ARGC_MAX,
        }
    }

    /// The request that makes the call.
    pub open spec fn request(self) -> Request {
        match self {
            Entry::Eval(protect) => Request::Eval(protect),
            Entry::Funcall(call) => Request::Funcall(call),
        }
    }
}

/// What a protected call returns, given how the call ended and what the VM
/// held as its pending error afterwards.
///
/// An exception that was read is returned as an error, a `SyntaxError` apart
/// from the others. A pending error that could not be read is returned as
/// such. With nothing pending, a value is returned unless it carries the tag
/// that the VM keeps for itself; a call that raised or failed is an error.
pub open spec fn settled(outcome: Outcome, last: LastError) -> Result<Value, ArtichokeError> {
    match last {
        LastError::Caught(exception) => if exception@.is_syntax_error() {
            Err(ArtichokeError::Syntax(exception))
        } else {
            Err(ArtichokeError::Exec(exception))
        },
        LastError::UnableToExtract(why) => Err(ArtichokeError::UnableToExtract(why)),
        LastError::Nothing => match outcome {
            Outcome::Value(value) => if value@.is_unreachable() {
                Err(ArtichokeError::UnreachableValue)
            } else {
                Ok(value)
            },
            Outcome::Raised(_) => Err(ArtichokeError::UnableToExtract(Unreadable::Object)),
            Outcome::Failure => Err(ArtichokeError::ExecutorFailure),
        },
    }
}

/// Decides what a protected call returns.
pub fn settle(outcome: Outcome, last: LastError) -> (r: Result<Value, ArtichokeError>)
    ensures
        r == settled(outcome, last),
{
    match last {
        LastError::Caught(exception) => if exception.is_syntax_error() {
            Err(ArtichokeError::Syntax(exception))
        } else {
            Err(ArtichokeError::Exec(exception))
        },
        LastError::UnableToExtract(why) => Err(ArtichokeError::UnableToExtract(why)),
        LastError::Nothing => match outcome {
            Outcome::Value(value) => if value.is_unreachable() {
                Err(ArtichokeError::UnreachableValue)
            } else {
                Ok(value)
            },
            Outcome::Raised(_) => Err(ArtichokeError::UnableToExtract(Unreadable::Object)),
            Outcome::Failure => Err(ArtichokeError::ExecutorFailure),
        },
    }
}

/// A settled result never holds a value that must not leave the VM.
pub proof fn lemma_settled_is_reachable(outcome: Outcome, last: LastError)
    ensures
        settled(outcome, last) matches Ok(value) ==> !value@.is_unreachable(),
{
}

/// Where a protected call stands.
#[derive(Debug, PartialEq, Eq)]
pub enum Stage {
    /// Asked the VM to capture the arena; holds the call to make.
    Saving(Entry),
    /// Asked the VM to make the call.
    Calling(ArenaIndex),
    /// Asked the VM for its pending error; holds how the call ended.
    Reading(ArenaIndex, Outcome),
    /// Asked the VM to empty its pending-error slot; holds the result.
    Clearing(ArenaIndex, Result<Value, ArtichokeError>),
    /// Asked the VM to restore the arena; holds the result.
    Restoring(Result<Value, ArtichokeError>),
}

impl Stage {
    /// The result that the call will return, once it is decided.
    pub open spec fn result(self) -> Option<Result<Value, ArtichokeError>> {
        match self {
            Stage::Clearing(_, result) => Some(result),
            Stage::Restoring(result) => Some(result),
            _ => None,
        }
    }

    /// The savepoint that the call holds open.
    pub open spec fn savepoint(self) -> Option<ArenaIndex> {
        match self {
            Stage::Calling(savepoint) => Some(savepoint),
            Stage::Reading(savepoint, _) => Some(savepoint),
            Stage::Clearing(savepoint, _) => Some(savepoint),
            _ => None,
        }
    }

    /// The number of requests that the call makes at most from here on, the
    /// one that it is waiting for included.
    pub open spec fn remaining(self) -> nat {
        match self {
            Stage::Saving(_) => 5,
            Stage::Calling(_) => 4,
            Stage::Reading(_, _) => 3,
            Stage::Clearing(_, _) => 2,
            Stage::Restoring(_) => 1,
        }
    }

    /// A result that is decided holds no value that must not leave the VM.
    pub open spec fn sound(self) -> bool {
        self.result() matches Some(Ok(value)) ==> !value@.is_unreachable()
    }
}

/// A protected call in progress.
#[derive(Debug, PartialEq, Eq)]
pub struct Protected {
    stage: Stage,
}

/// What follows once the result is decided and the slot is empty: the
/// savepoint is restored if the arena still records it.
pub open spec fn released(
    savepoint: ArenaIndex,
    open: Seq<i32>,
    result: Result<Value, ArtichokeError>,
    next: Step<Protected, Result<Value, ArtichokeError>>,
    after: Seq<i32>,
) -> bool {
    if savepoint.live_in(open) {
        &&& next matches Step::Ask(machine, Request::RestoreArena(index))
        &&& index == savepoint.index()
        &&& machine.stage() == Stage::Restoring(result)
        &&& after == open.take(savepoint.level() as int)
    } else {
        &&& next == Step::<Protected, Result<Value, ArtichokeError>>::Done(result)
        &&& after == open
    }
}

impl Protected {
    pub closed spec fn stage(&self) -> Stage {
        self.stage
    }

    #[verifier::type_invariant]
    spec fn well_formed(&self) -> bool {
        self.stage.sound()
    }

    /// Whether `next` follows on `reply`, with the open savepoints going from
    /// `open` to `after`.
    ///
    /// The arena is captured first, and a call that the VM does not take is
    /// refused then. After the call the pending error is read, the slot is
    /// emptied, and the savepoint is restored if the arena still records it.
    pub open spec fn follows(
        self,
        reply: Reply,
        open: Seq<i32>,
        next: Step<Protected, Result<Value, ArtichokeError>>,
        after: Seq<i32>,
    ) -> bool {
        match self.stage() {
            Stage::Saving(entry) => {
                if reply matches Reply::ArenaSaved(Some(index)) && crate::arena::capturable(
                    open,
                    index,
                ) {
                    let index = reply->ArenaSaved_0->0;
                    if entry.accepted() {
                        &&& next matches Step::Ask(machine, request)
                        &&& request == entry.request()
                        &&& machine.stage() matches Stage::Calling(savepoint)
                        &&& savepoint.index() == index
                        &&& savepoint.level() == open.len()
                        &&& after == open.push(index)
                    } else {
                        &&& next matches Step::Ask(machine, Request::RestoreArena(position))
                        &&& position == index
                        &&& entry matches Entry::Funcall(call)
                        &&& machine.stage() == Stage::Restoring(
                            Err(
                                ArtichokeError::ArgCount(
                                    ArgCountError {
                                        given: call.args@.len() as usize,
                                        max: MRB_FUNCALL_ARGC_MAX,
                                    },
                                ),
                            ),
                        )
                        &&& after == open
                    }
                } else {
                    &&& next == Step::<Protected, Result<Value, ArtichokeError>>::Done(
                        Err(ArtichokeError::ArenaUnavailable(crate::arena::IndexError)),
                    )
                    &&& after == open
                }
            },
            Stage::Calling(savepoint) => match reply {
                Reply::Returned(Outcome::Value(value)) => {
                    &&& next matches Step::Ask(machine, Request::ReadError)
                    &&& machine.stage() == Stage::Reading(savepoint, Outcome::Value(value))
                    &&& after == open
                },
                Reply::Returned(Outcome::Raised(marker)) => {
                    &&& next matches Step::Ask(machine, Request::ReadError)
                    &&& machine.stage() == Stage::Reading(savepoint, Outcome::Raised(marker))
                    &&& after == open
                },
                _ => released(
                    savepoint,
                    open,
                    Err(ArtichokeError::ExecutorFailure),
                    next,
                    after,
                ),
            },
            Stage::Reading(savepoint, outcome) => {
                &&& next matches Step::Ask(machine, Request::ClearError)
                &&& machine.stage() matches Stage::Clearing(held, result)
                &&& held == savepoint
                &&& after == open
                &&& match reply {
                    Reply::Error(None) => result == settled(outcome, LastError::Nothing),
                    Reply::Error(Some(object)) => exists|last: LastError|
                        crate::exception::extracted(object, last) && result == settled(
                            outcome,
                            last,
                        ),
                    _ => result == settled(
                        outcome,
                        LastError::UnableToExtract(Unreadable::Object),
                    ),
                }
            },
            Stage::Clearing(savepoint, result) => released(
                savepoint,
                open,
                result,
                next,
                after,
            ),
            Stage::Restoring(result) => {
                &&& next == Step::<Protected, Result<Value, ArtichokeError>>::Done(result)
                &&& after == open
            },
        }
    }

    /// Begin a protected call: the first request captures the arena.
    pub fn start(entry: Entry) -> (next: Step<Protected, Result<Value, ArtichokeError>>)
        ensures
            next matches Step::Ask(machine, Request::SaveArena) && machine.stage() == Stage::Saving(
                entry,
            ),
    {
        Step::Ask(Protected { stage: Stage::Saving(entry) }, Request::SaveArena)
    }

    fn release(
        savepoint: ArenaIndex,
        interp: &mut Artichoke,
        result: Result<Value, ArtichokeError>,
    ) -> (next: Step<Protected, Result<Value, ArtichokeError>>)
        requires
            result matches Ok(value) ==> !value@.is_unreachable(),
        ensures
            released(savepoint, old(interp)@.savepoints, result, next, final(interp)@.savepoints),
            final(interp)@ == (ArtichokeView {
                savepoints: final(interp)@.savepoints,
                ..old(interp)@
            }),
    {
        match savepoint.restore(&mut interp.arena) {
            Some(index) => Step::Ask(
                Protected { stage: Stage::Restoring(result) },
                Request::RestoreArena(index),
            ),
            None => Step::Done(result),
        }
    }

    /// Take the VM's reply to the request that was asked last.
    ///
    /// Of the interpreter's state only the open savepoints change, and a
    /// result never holds a value that must not leave the VM.
    pub fn resume(self, interp: &mut Artichoke, reply: Reply) -> (next: Step<
        Protected,
        Result<Value, ArtichokeError>,
    >)
        ensures
            final(interp)@ == (ArtichokeView {
                savepoints: final(interp)@.savepoints,
                ..old(interp)@
            }),
            next matches Step::Done(Ok(value)) ==> !value@.is_unreachable(),
            self.follows(reply, old(interp)@.savepoints, next, final(interp)@.savepoints),
    {
        proof {
            use_type_invariant(&self);
        }
        match self.stage {
            Stage::Saving(entry) => {
                let captured: Option<i32> = match reply {
                    Reply::ArenaSaved(captured) => captured,
                    _ => None,
                };
                match ArenaIndex::new(&mut interp.arena, captured) {
                    Err(e) => Step::Done(Err(ArtichokeError::ArenaUnavailable(e))),
                    Ok(savepoint) => {
                        proof {
                            crate::arena::lemma_open_then_restore(
                                old(interp)@.savepoints,
                                savepoint.index(),
                            );
                        }
                        match entry {
                            Entry::Eval(protect) => Step::Ask(
                                Protected { stage: Stage::Calling(savepoint) },
                                Request::Eval(protect),
                            ),
                            Entry::Funcall(call) => {
                                if call.args.len() > MRB_FUNCALL_ARGC_MAX {
                                    let e = ArgCountError::new(call.args.as_slice());
                                    Self::release(savepoint, interp, Err(ArtichokeError::ArgCount(e)))
                                } else {
                                    Step::Ask(
                                        Protected { stage: Stage::Calling(savepoint) },
                                        Request::Funcall(call),
                                    )
                                }
                            },
                        }
                    },
                }
            },
            Stage::Calling(savepoint) => match reply {
                Reply::Returned(Outcome::Value(value)) => Step::Ask(
                    Protected { stage: Stage::Reading(savepoint, Outcome::Value(value)) },
                    Request::ReadError,
                ),
                Reply::Returned(Outcome::Raised(marker)) => Step::Ask(
                    Protected { stage: Stage::Reading(savepoint, Outcome::Raised(marker)) },
                    Request::ReadError,
                ),
                _ => Self::release(savepoint, interp, Err(ArtichokeError::ExecutorFailure)),
            },
            Stage::Reading(savepoint, outcome) => {
                let last: LastError = match reply {
                    Reply::Error(pending) => last_error(pending),
                    _ => LastError::UnableToExtract(Unreadable::Object),
                };
                proof {
                    lemma_settled_is_reachable(outcome, last);
                }
                let result = settle(outcome, last);
                Step::Ask(Protected { stage: Stage::Clearing(savepoint, result) }, Request::ClearError)
            },
            Stage::Clearing(savepoint, result) => Self::release(savepoint, interp, result),
            Stage::Restoring(result) => Step::Done(result),
        }
    }
}

/// Whether the open savepoints `open` are those that a protected call at
/// `stage` found, `base`, with the call's own savepoint on top of them while
/// it holds one.
pub open spec fn balanced(stage: Stage, open: Seq<i32>, base: Seq<i32>) -> bool {
    match stage.savepoint() {
        Some(savepoint) => savepoint.live_in(open) && open.take(savepoint.level() as int) == base,
        None => open == base,
    }
}

/// A protected call leaves the arena as it found it. As long as whatever runs
/// between two steps restores the savepoints that it opens, each step keeps
/// the call's savepoint on top of those that the call found; the savepoint is
/// restored to the position that was captured; and when the call ends, with
/// a value or with an error, the open savepoints are those that it found.
pub proof fn lemma_call_restores_the_arena(
    machine: Protected,
    reply: Reply,
    open: Seq<i32>,
    next: Step<Protected, Result<Value, ArtichokeError>>,
    after: Seq<i32>,
    base: Seq<i32>,
)
    requires
        balanced(machine.stage(), open, base),
        machine.follows(reply, open, next, after),
    ensures
        match next {
            Step::Ask(then, request) => balanced(then.stage(), after, base) && (request matches Request::RestoreArena(
                index,
            ) ==> after == base && (machine.stage().savepoint() matches Some(savepoint)
                ==> index == savepoint.index())),
            Step::Done(_) => after == base,
        },
{
    match machine.stage() {
        Stage::Saving(entry) => {
            if reply matches Reply::ArenaSaved(Some(index)) && crate::arena::capturable(open, index) {
                let index = reply->ArenaSaved_0->0;
                crate::arena::lemma_open_then_restore(open, index);
            }
        },
        _ => {},
    }
}

/// The pending error is cleared after every call that was made: the step
/// after the one that reads the error asks for the slot to be emptied, and
/// no result is handed out before.
pub proof fn lemma_error_is_cleared(
    machine: Protected,
    reply: Reply,
    open: Seq<i32>,
    next: Step<Protected, Result<Value, ArtichokeError>>,
    after: Seq<i32>,
)
    requires
        machine.stage() is Reading,
        machine.follows(reply, open, next, after),
    ensures
        next matches Step::Ask(_, Request::ClearError),
{
}

/// Every protected call ends: whatever the VM replies, each step brings the
/// call nearer to its result, which comes after five requests at most.
pub proof fn lemma_call_ends(
    machine: Protected,
    reply: Reply,
    open: Seq<i32>,
    next: Step<Protected, Result<Value, ArtichokeError>>,
    after: Seq<i32>,
)
    requires
        machine.follows(reply, open, next, after),
    ensures
        next matches Step::Ask(then, _) ==> then.stage().remaining() < machine.stage().remaining(),
        machine.stage().remaining() <= 5,
{
}

} // verus!
