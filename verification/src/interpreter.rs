//! The interpreter's host-side state.

use vstd::prelude::*;
use crate::arena::{Arena, ArenaIndex};
use crate::error::ArtichokeError;
use crate::protect::{Entry, Protected, Stage};
use crate::value::Value;
use crate::vm::{Reply, Request, Step};
use crate::bytes::{bytes_of, text};
use crate::eval::{top_filename, Context};
use crate::load::{Loader, SourceView};
use crate::parser::{IncrementLinenoError, Parser, MAX_LINENO};

verus! {

/// The VM could not be allocated.
#[derive(Debug, Clone, Copy, PartialEq, Eq, Structural)]
pub struct InterpreterAllocError;

impl Default for InterpreterAllocError {
    fn default() -> (e: Self)
        ensures
            e == InterpreterAllocError,
    {
        InterpreterAllocError
    }
}

impl InterpreterAllocError {
    /// Constructs a new, default `InterpreterAllocError`.
    #[must_use]
    pub fn new() -> (e: Self)
        ensures
            e == InterpreterAllocError,
    {
        InterpreterAllocError
    }

    pub fn message(&self) -> (message: Vec<u8>)
        ensures
            message@ == text("Failed to allocate Artichoke Ruby interpreter"),
    {
        bytes_of("Failed to allocate Artichoke Ruby interpreter")
    }

    pub fn name(&self) -> (name: Vec<u8>)
        ensures
            name@ == text("fatal"),
    {
        bytes_of("fatal")
    }

    pub fn vm_backtrace(&self) -> (backtrace: Option<Vec<Vec<u8>>>)
        ensures
            backtrace is None,
    {
        None
    }

    pub fn display(&self) -> (report: Vec<u8>)
        ensures
            report@ == text("Failed to allocate Artichoke interpreter"),
    {
        bytes_of("Failed to allocate Artichoke interpreter")
    }
}

/// What the host keeps for one VM instance: the parser's state, with the
/// stack of eval contexts, the open arena savepoints, and the sources that
/// can be loaded, with those that were required.
#[derive(Debug, PartialEq, Eq)]
pub struct Artichoke {
    pub parser: Parser,
    pub arena: Arena,
    pub loader: Loader,
}

pub struct ArtichokeView {
    /// The filenames of the eval contexts, outermost first.
    pub contexts: Seq<Seq<u8>>,
    pub lineno: u16,
    /// The arena positions of the open savepoints, outermost first.
    pub savepoints: Seq<i32>,
    /// The sources that were defined, in the order of their definition.
    pub sources: Seq<SourceView>,
    /// The paths of the sources that were required, in the order in which
    /// they were.
    pub required: Seq<Seq<u8>>,
}

impl View for Artichoke {
    type V = ArtichokeView;

    open spec fn view(&self) -> ArtichokeView {
        ArtichokeView {
            contexts: self.parser@.contexts,
            lineno: self.parser@.lineno,
            savepoints: self.arena@,
            sources: self.loader@.sources,
            required: self.loader@.required,
        }
    }
}

impl ArtichokeView {
    /// The state of an interpreter that has evaluated nothing yet.
    pub open spec fn fresh() -> ArtichokeView {
        ArtichokeView {
            contexts: Seq::empty(),
            lineno: 1,
            savepoints: Seq::empty(),
            sources: Seq::empty(),
            required: Seq::empty(),
        }
    }

    /// The filename that an evaluation reports: that of the innermost eval
    /// context, or the root context's where none is pushed.
    pub open spec fn active_filename(self) -> Seq<u8> {
        if self.contexts.len() > 0 {
            self.contexts.last()
        } else {
            top_filename()
        }
    }
}

impl Artichoke {
    pub fn new() -> (interp: Self)
        ensures
            interp@ == ArtichokeView::fresh(),
    {
        Artichoke { parser: Parser::new(), arena: Arena::new(), loader: Loader::new() }
    }

    /// Forget every eval context and start counting lines at one again.
    pub fn reset_parser(&mut self)
        ensures
            final(self)@ == (ArtichokeView { contexts: Seq::empty(), lineno: 1, ..old(self)@ }),
    {
        self.parser.reset();
    }

    /// The current line number.
    pub fn fetch_lineno(&self) -> (lineno: usize)
        ensures
            lineno == self@.lineno,
    {
        self.parser.fetch_lineno()
    }

    /// Advance the line counter by `val` and return the new line number. The
    /// counter is left alone if it would pass [`MAX_LINENO`].
    pub fn add_fetch_lineno(&mut self, val: usize) -> (r: Result<usize, IncrementLinenoError>)
        ensures
            old(self)@.lineno + val <= MAX_LINENO ==> r == Ok::<usize, IncrementLinenoError>(
                (old(self)@.lineno + val) as usize,
            ) && final(self)@ == (ArtichokeView {
                lineno: (old(self)@.lineno + val) as u16,
                ..old(self)@
            }),
            old(self)@.lineno + val > MAX_LINENO ==> r == Err::<usize, IncrementLinenoError>(
                IncrementLinenoError::Overflow(MAX_LINENO),
            ) && final(self)@ == old(self)@,
    {
        self.parser.add_fetch_lineno(val)
    }

    /// Make `context` the source identity that evaluations report.
    pub fn push_context(&mut self, context: Context)
        ensures
            final(self)@ == (ArtichokeView {
                contexts: old(self)@.contexts.push(context@),
                ..old(self)@
            }),
    {
        self.parser.push_context(context);
    }

    /// Remove the innermost eval context, so that the one below it, or the
    /// root context, is reported again.
    pub fn pop_context(&mut self) -> (popped: Option<Context>)
        ensures
            old(self)@.contexts.len() == 0 ==> popped is None && final(self)@ == old(self)@,
            old(self)@.contexts.len() > 0 ==> (popped matches Some(context)
                && context@ == old(self)@.contexts.last()
                && final(self)@ == (ArtichokeView {
                    contexts: old(self)@.contexts.drop_last(),
                    ..old(self)@
                })),
    {
        self.parser.pop_context()
    }

    /// The innermost eval context, if any was pushed.
    #[must_use]
    pub fn peek_context(&self) -> (top: Option<Context>)
        ensures
            self@.contexts.len() == 0 ==> top is None,
            self@.contexts.len() > 0 ==> (top matches Some(context)
                && context@ == self@.contexts.last()),
    {
        self.parser.peek_context()
    }
}

/// Where the start of an interpreter stands.
#[derive(Debug, PartialEq, Eq)]
pub enum BootStage {
    /// Asked for the VM to be allocated.
    Opening,
    /// Asked for the garbage collector to stop.
    DisablingGc,
    /// Asked for the core and standard library; holds whether the garbage
    /// collector ran before.
    Extending(bool),
    /// Asked for an arena savepoint around the gems.
    SavingForGems(bool),
    /// Asked for the gems.
    Gems(bool, ArenaIndex),
    /// Asked for the savepoint around the gems to be restored; holds the
    /// error of the gems, if they failed.
    RestoringGems(bool, Option<ArtichokeError>),
    /// Evaluating the empty source, so that the VM creates what it creates
    /// lazily.
    Evaluating(bool, Protected),
    /// Asked for the garbage collector to start again.
    EnablingGc,
    /// Asked for a full collection.
    Collecting,
}

/// The start of an interpreter in progress.
#[derive(Debug, PartialEq, Eq)]
pub struct Boot {
    interp: Artichoke,
    stage: BootStage,
}

pub type Booted = Step<Boot, Result<Artichoke, ArtichokeError>>;

/// Whether `next` asks `request` and goes on at `stage`, with the interpreter
/// in the state `interp`.
pub open spec fn boots_on(interp: ArtichokeView, stage: BootStage, request: Request, next: Booted) -> bool {
    &&& next matches Step::Ask(boot, asked)
    &&& asked == request
    &&& boot.stage() == stage
    &&& boot.interp()@ == interp
}

/// Whether `next` is what follows the gems: their error ends the start, and
/// else the empty source is evaluated under protection.
pub open spec fn after_gems(
    interp: ArtichokeView,
    prior: bool,
    error: Option<ArtichokeError>,
    next: Booted,
) -> bool {
    match error {
        Some(e) => next == Booted::Done(Err(e)),
        None => match crate::eval::c_string(interp.active_filename()) {
            Some(filename) => {
                &&& next matches Step::Ask(boot, Request::SaveArena)
                &&& boot.interp()@ == interp
                &&& boot.stage() matches BootStage::Evaluating(held, machine)
                &&& held == prior
                &&& machine.stage() matches Stage::Saving(Entry::Eval(protect))
                &&& protect.filename@ == filename
                &&& protect.code@ == Seq::<u8>::empty()
            },
            None => next == Booted::Done(Err(ArtichokeError::Vfs)),
        },
    }
}

/// Whether `next` is what follows the evaluation of the empty source: its
/// error ends the start; else the garbage collector is started again if it
/// ran before, and the interpreter is handed out.
pub open spec fn after_eval(
    interp: Artichoke,
    prior: bool,
    result: Result<Value, ArtichokeError>,
    next: Booted,
) -> bool {
    match result {
        Err(e) => next == Booted::Done(Err(e)),
        Ok(_) => if prior {
            &&& next matches Step::Ask(boot, Request::EnableGc)
            &&& boot.stage() == BootStage::EnablingGc
            &&& boot.interp() == interp
        } else {
            next == Booted::Done(Ok(interp))
        },
    }
}

/// Whether `next` is what follows a step of the evaluation of the empty
/// source: what the evaluation asks is asked, and its result ends it.
pub open spec fn evaluated(
    interp: Artichoke,
    prior: bool,
    inner: Step<Protected, Result<Value, ArtichokeError>>,
    next: Booted,
) -> bool {
    match inner {
        Step::Ask(machine, request) => {
            &&& next matches Step::Ask(boot, asked)
            &&& asked == request
            &&& boot.interp() == interp
            &&& boot.stage() == BootStage::Evaluating(prior, machine)
        },
        Step::Done(result) => after_eval(interp, prior, result, next),
    }
}

impl Boot {
    pub closed spec fn interp(&self) -> Artichoke {
        self.interp
    }

    pub closed spec fn stage(&self) -> BootStage {
        self.stage
    }

    /// Whether `next` follows on `reply`.
    ///
    /// The VM is allocated, the garbage collector is stopped, the core and
    /// standard library and then the gems are defined, the gems inside an
    /// arena savepoint, and the empty source is evaluated. The first of
    /// these that fails ends the start with its error. At the end the garbage
    /// collector is started again, with a full collection, if it ran before.
    pub open spec fn follows(self, reply: Reply, next: Booted) -> bool {
        let interp = self.interp()@;
        match self.stage() {
            BootStage::Opening => match reply {
                Reply::Opened(true) => boots_on(
                    interp,
                    BootStage::DisablingGc,
                    Request::DisableGc,
                    next,
                ),
                _ => next == Booted::Done(Err(ArtichokeError::New(InterpreterAllocError))),
            },
            BootStage::DisablingGc => match reply {
                Reply::GcDisabled(prior) => boots_on(
                    interp,
                    BootStage::Extending(prior),
                    Request::InitExtensions,
                    next,
                ),
                Reply::Failed(e) => next == Booted::Done(Err(e)),
                _ => next == Booted::Done(Err(ArtichokeError::ExecutorFailure)),
            },
            BootStage::Extending(prior) => match reply {
                Reply::Finished => boots_on(
                    interp,
                    BootStage::SavingForGems(prior),
                    Request::SaveArena,
                    next,
                ),
                Reply::Failed(e) => next == Booted::Done(Err(e)),
                _ => next == Booted::Done(Err(ArtichokeError::ExecutorFailure)),
            },
            BootStage::SavingForGems(prior) => {
                if reply matches Reply::ArenaSaved(Some(index)) && crate::arena::capturable(
                    interp.savepoints,
                    index,
                ) {
                    let index = reply->ArenaSaved_0->0;
                    &&& next matches Step::Ask(boot, Request::InitGems)
                    &&& boot.interp()@ == (ArtichokeView {
                        savepoints: interp.savepoints.push(index),
                        ..interp
                    })
                    &&& boot.stage() matches BootStage::Gems(held, savepoint)
                    &&& held == prior
                    &&& savepoint.index() == index
                    &&& savepoint.level() == interp.savepoints.len()
                } else {
                    next == Booted::Done(
                        Err(ArtichokeError::ArenaUnavailable(crate::arena::IndexError)),
                    )
                }
            },
            BootStage::Gems(prior, savepoint) => {
                let error = match reply {
                    Reply::Finished => None,
                    Reply::Failed(e) => Some(e),
                    _ => Some(ArtichokeError::ExecutorFailure),
                };
                if savepoint.live_in(interp.savepoints) {
                    boots_on(
                        ArtichokeView {
                            savepoints: interp.savepoints.take(savepoint.level() as int),
                            ..interp
                        },
                        BootStage::RestoringGems(prior, error),
                        Request::RestoreArena(savepoint.index()),
                        next,
                    )
                } else {
                    after_gems(interp, prior, error, next)
                }
            },
            BootStage::RestoringGems(prior, error) => after_gems(interp, prior, error, next),
            BootStage::Evaluating(prior, machine) => exists|
                inner: Step<Protected, Result<Value, ArtichokeError>>,
                after: Artichoke,
            |
                {
                    &&& machine.follows(reply, interp.savepoints, inner, after@.savepoints)
                    &&& after@ == (ArtichokeView { savepoints: after@.savepoints, ..interp })
                    &&& #[trigger] evaluated(after, prior, inner, next)
                },
            BootStage::EnablingGc => {
                &&& next matches Step::Ask(boot, Request::FullGc)
                &&& boot.stage() == BootStage::Collecting
                &&& boot.interp() == self.interp()
            },
            BootStage::Collecting => next == Booted::Done(Ok(self.interp())),
        }
    }

    fn evaluate(interp: Artichoke, prior: bool, error: Option<ArtichokeError>) -> (next: Booted)
        ensures
            after_gems(interp@, prior, error, next),
    {
        match error {
            Some(e) => Step::Done(Err(e)),
            None => {
                let code: Vec<u8> = Vec::new();
                match interp.eval(code.as_slice()) {
                    Step::Ask(machine, request) => Step::Ask(
                        Boot { interp, stage: BootStage::Evaluating(prior, machine) },
                        request,
                    ),
                    Step::Done(Ok(_)) => Step::Done(Err(ArtichokeError::Vfs)),
                    Step::Done(Err(e)) => Step::Done(Err(e)),
                }
            },
        }
    }

    fn finish(interp: Artichoke, prior: bool, result: Result<Value, ArtichokeError>) -> (next: Booted)
        ensures
            after_eval(interp, prior, result, next),
    {
        match result {
            Err(e) => Step::Done(Err(e)),
            Ok(_) => if prior {
                Step::Ask(Boot { interp, stage: BootStage::EnablingGc }, Request::EnableGc)
            } else {
                Step::Done(Ok(interp))
            },
        }
    }

    pub fn resume(self, reply: Reply) -> (next: Booted)
        ensures
            self.follows(reply, next),
    {
        let Boot { interp, stage } = self;
        let mut interp = interp;
        match stage {
            BootStage::Opening => match reply {
                Reply::Opened(true) => Step::Ask(
                    Boot { interp, stage: BootStage::DisablingGc },
                    Request::DisableGc,
                ),
                _ => Step::Done(Err(ArtichokeError::New(InterpreterAllocError))),
            },
            BootStage::DisablingGc => match reply {
                Reply::GcDisabled(prior) => Step::Ask(
                    Boot { interp, stage: BootStage::Extending(prior) },
                    Request::InitExtensions,
                ),
                Reply::Failed(e) => Step::Done(Err(e)),
                _ => Step::Done(Err(ArtichokeError::ExecutorFailure)),
            },
            BootStage::Extending(prior) => match reply {
                Reply::Finished => Step::Ask(
                    Boot { interp, stage: BootStage::SavingForGems(prior) },
                    Request::SaveArena,
                ),
                Reply::Failed(e) => Step::Done(Err(e)),
                _ => Step::Done(Err(ArtichokeError::ExecutorFailure)),
            },
            BootStage::SavingForGems(prior) => {
                let captured: Option<i32> = match reply {
                    Reply::ArenaSaved(captured) => captured,
                    _ => None,
                };
                match ArenaIndex::new(&mut interp.arena, captured) {
                    Err(e) => Step::Done(Err(ArtichokeError::ArenaUnavailable(e))),
                    Ok(savepoint) => Step::Ask(
                        Boot { interp, stage: BootStage::Gems(prior, savepoint) },
                        Request::InitGems,
                    ),
                }
            },
            BootStage::Gems(prior, savepoint) => {
                let error: Option<ArtichokeError> = match reply {
                    Reply::Finished => None,
                    Reply::Failed(e) => Some(e),
                    _ => Some(ArtichokeError::ExecutorFailure),
                };
                match savepoint.restore(&mut interp.arena) {
                    Some(index) => Step::Ask(
                        Boot { interp, stage: BootStage::RestoringGems(prior, error) },
                        Request::RestoreArena(index),
                    ),
                    None => Self::evaluate(interp, prior, error),
                }
            },
            BootStage::RestoringGems(prior, error) => Self::evaluate(interp, prior, error),
            BootStage::Evaluating(prior, machine) => {
                let ghost before = interp@;
                let inner = machine.resume(&mut interp, reply);
                let ghost after = interp;
                let next = match inner {
                    Step::Ask(machine, request) => Step::Ask(
                        Boot { interp, stage: BootStage::Evaluating(prior, machine) },
                        request,
                    ),
                    Step::Done(result) => Self::finish(interp, prior, result),
                };
                assert(machine.follows(reply, before.savepoints, inner, after@.savepoints));
                assert(evaluated(after, prior, inner, next));
                next
            },
            BootStage::EnablingGc => Step::Ask(
                Boot { interp, stage: BootStage::Collecting },
                Request::FullGc,
            ),
            BootStage::Collecting => Step::Done(Ok(interp)),
        }
    }
}

/// Create and initialize an interpreter: the first request allocates the VM,
/// and the interpreter that is handed out at the end has evaluated nothing
/// but the empty source.
pub fn interpreter() -> (next: Booted)
    ensures
        boots_on(ArtichokeView::fresh(), BootStage::Opening, Request::Open, next),
{
    Step::Ask(Boot { interp: Artichoke::new(), stage: BootStage::Opening }, Request::Open)
}

impl Artichoke {
    /// Give up the interpreter: the request frees the VM.
    pub fn close(self) -> (request: Request)
        ensures
            request == Request::Close,
    {
        Request::Close
    }
}

} // verus!
