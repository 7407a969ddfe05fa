//! Eval contexts and the payload of a protected evaluation.

use vstd::prelude::*;
use vstd::slice::slice_to_vec;
use vstd::string::*;
use crate::bytes::{bytes_of, copy_bytes, has_byte, text};
use crate::error::ArtichokeError;
use crate::interpreter::{Artichoke, ArtichokeView};
use crate::protect::{Entry, Protected, Stage};
use crate::value::Value;
use crate::vm::{Outcome, Protect, Reply, Request, Step};

verus! {

/// The filename that evaluations report while no context is pushed.
pub open spec fn top_filename() -> Seq<u8> {
    text("(eval)")
}

/// `Context` is the source identity of an evaluation: the value of the
/// `__FILE__` magic constant, which also appears in stack frames.
#[derive(Debug, PartialEq, Eq)]
#[must_use]
pub struct Context {
    /// Value of the `__FILE__` magic constant that also appears in stack
    /// frames.
    pub filename: Vec<u8>,
}

impl View for Context {
    type V = Seq<u8>;

    open spec fn view(&self) -> Seq<u8> {
        self.filename@
    }
}

impl Clone for Context {
    fn clone(&self) -> (copy: Self)
        ensures
            copy@ == self@,
    {
        Context { filename: copy_bytes(&self.filename) }
    }
}

impl Default for Context {
    fn default() -> (context: Self)
        ensures
            context@ == top_filename(),
    {
        Context { filename: bytes_of("(eval)") }
    }
}

/// A filename that the VM can take: `filename` followed by a NUL byte. There
/// is none for a filename that holds a NUL byte itself.
pub open spec fn c_string(filename: Seq<u8>) -> Option<Seq<u8>> {
    if filename.contains(0u8) {
        None
    } else {
        Some(filename.push(0u8))
    }
}

impl Context {
    /// Create a new [`Context`].
    pub fn new(filename: Vec<u8>) -> (context: Self)
        ensures
            context@ == filename@,
    {
        Context { filename }
    }

    /// Create a root, or default, [`Context`]. The root context sets the
    /// `__FILE__` magic constant to "(eval)".
    pub fn root() -> (context: Self)
        ensures
            context@ == top_filename(),
    {
        Context { filename: bytes_of("(eval)") }
    }

    /// The filename in the form the VM takes, NUL-terminated.
    pub fn filename_as_cstring(&self) -> (r: Option<Vec<u8>>)
        ensures
            match r {
                Some(bytes) => c_string(self@) == Some(bytes@),
                None => c_string(self@) is None,
            },
    {
        if has_byte(self.filename.as_slice(), 0) {
            None
        } else {
            let mut bytes: Vec<u8> = copy_bytes(&self.filename);
            bytes.push(0);
            Some(bytes)
        }
    }
}

impl Protect {
    /// The payload for evaluating `code` on `interp`: the filename is that of
    /// the innermost eval context, or of the root context where none is
    /// pushed. There is no payload where the filename holds a NUL byte.
    pub fn new(interp: &Artichoke, code: &[u8]) -> (r: Option<Self>)
        ensures
            match r {
                Some(protect) => c_string(interp@.active_filename()) == Some(protect.filename@)
                    && protect.code@ == code@,
                None => c_string(interp@.active_filename()) is None,
            },
    {
        let context = Context { filename: interp.parser.active_filename() };
        match context.filename_as_cstring() {
            Some(filename) => Some(Protect { filename, code: slice_to_vec(code) }),
            None => None,
        }
    }
}

/// An evaluation whose caller is itself running inside a protected call and
/// is prepared to be unwound.
#[derive(Debug, Clone, Copy, PartialEq, Eq, Structural)]
pub enum Unchecked {
    /// Asked for the evaluation.
    Calling,
    /// Asked the VM to unwind.
    Unwinding,
}

impl Unchecked {
    /// Whether `next` follows on `reply`: a value that may leave the VM is
    /// the result. In every other case the VM is asked to unwind: with the
    /// pending error where the evaluation raised, and else with an error that
    /// says what happened. Nothing follows an unwind.
    pub open spec fn follows(self, reply: Reply, next: Step<Unchecked, Value>) -> bool {
        match self {
            Unchecked::Calling => match reply {
                Reply::Returned(Outcome::Value(value)) => if value@.is_unreachable() {
                    next == Step::<Unchecked, Value>::Ask(
                        Unchecked::Unwinding,
                        Request::Raise(Some(ArtichokeError::UnreachableValue)),
                    )
                } else {
                    next == Step::<Unchecked, Value>::Done(value)
                },
                Reply::Returned(Outcome::Raised(_)) => next == Step::<Unchecked, Value>::Ask(
                    Unchecked::Unwinding,
                    Request::Raise(None),
                ),
                _ => next == Step::<Unchecked, Value>::Ask(
                    Unchecked::Unwinding,
                    Request::Raise(Some(ArtichokeError::ExecutorFailure)),
                ),
            },
            Unchecked::Unwinding => next == Step::<Unchecked, Value>::Ask(
                Unchecked::Unwinding,
                Request::Raise(None),
            ),
        }
    }

    pub fn resume(self, reply: Reply) -> (next: Step<Unchecked, Value>)
        ensures
            self.follows(reply, next),
            next matches Step::Done(value) ==> !value@.is_unreachable(),
    {
        match self {
            Unchecked::Calling => match reply {
                Reply::Returned(Outcome::Value(value)) => if value.is_unreachable() {
                    Step::Ask(
                        Unchecked::Unwinding,
                        Request::Raise(Some(ArtichokeError::UnreachableValue)),
                    )
                } else {
                    Step::Done(value)
                },
                Reply::Returned(Outcome::Raised(_)) => Step::Ask(
                    Unchecked::Unwinding,
                    Request::Raise(None),
                ),
                _ => Step::Ask(
                    Unchecked::Unwinding,
                    Request::Raise(Some(ArtichokeError::ExecutorFailure)),
                ),
            },
            Unchecked::Unwinding => Step::Ask(Unchecked::Unwinding, Request::Raise(None)),
        }
    }
}

impl Artichoke {
    /// Evaluate `code` under protection.
    ///
    /// The evaluation reports the filename of the innermost eval context, or
    /// of the root context where none is pushed. It is refused before the VM
    /// is entered where that filename holds a NUL byte.
    pub fn eval(&self, code: &[u8]) -> (next: Step<Protected, Result<Value, ArtichokeError>>)
        ensures
            match c_string(self@.active_filename()) {
                Some(filename) => next matches Step::Ask(machine, Request::SaveArena)
                    && machine.stage() matches Stage::Saving(Entry::Eval(protect))
                    && protect.filename@ == filename && protect.code@ == code@,
                None => next == Step::<Protected, Result<Value, ArtichokeError>>::Done(
                    Err(ArtichokeError::Vfs),
                ),
            },
    {
        match Protect::new(self, code) {
            Some(protect) => Protected::start(Entry::Eval(protect)),
            None => Step::Done(Err(ArtichokeError::Vfs)),
        }
    }

    /// Evaluate `code` without catching what it raises: an exception unwinds
    /// the VM past the caller. Where the filename of the eval context holds a
    /// NUL byte, the VM is unwound at once.
    #[must_use]
    pub fn unchecked_eval(&self, code: &[u8]) -> (next: Step<Unchecked, Value>)
        ensures
            match c_string(self@.active_filename()) {
                Some(filename) => next matches Step::Ask(machine, Request::Eval(protect))
                    && machine == Unchecked::Calling && protect.filename@ == filename
                    && protect.code@ == code@,
                None => next == Step::<Unchecked, Value>::Ask(
                    Unchecked::Unwinding,
                    Request::Raise(Some(ArtichokeError::Vfs)),
                ),
            },
    {
        match Protect::new(self, code) {
            Some(protect) => Step::Ask(Unchecked::Calling, Request::Eval(protect)),
            None => Step::Ask(Unchecked::Unwinding, Request::Raise(Some(ArtichokeError::Vfs))),
        }
    }
}

/// With no eval context pushed, an evaluation reports the root context's
/// filename, `(eval)`, which the VM can take.
pub proof fn lemma_root_context_is_reported(interp: ArtichokeView)
    requires
        interp.contexts.len() == 0,
    ensures
        interp.active_filename() == text("(eval)"),
        c_string(interp.active_filename()) == Some(text("(eval)").push(0u8)),
{
    reveal_strlit("(eval)");
    broadcast use is_ascii_spec_bytes;
    assert(is_ascii("(eval)"));
    let name = text("(eval)");
    assert(name.len() == 6);
    assert(forall|i: int| 0 <= i < 6 ==> name[i] != 0u8);
}

/// An eval context that is pushed is the one that evaluations report, and
/// popping it brings back what was reported before.
pub proof fn lemma_context_is_restored(interp: ArtichokeView, filename: Seq<u8>)
    ensures
        (ArtichokeView { contexts: interp.contexts.push(filename), ..interp }).active_filename()
            == filename,
        interp.contexts.push(filename).drop_last() == interp.contexts,
{
    assert(interp.contexts.push(filename).drop_last() =~= interp.contexts);
}

} // verus!
