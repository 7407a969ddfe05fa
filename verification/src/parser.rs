//! The parser's line counter and the stack of eval contexts.

use vstd::prelude::*;
use crate::bytes::{bytes_of, copy_bytes, decimal, digits, push_all, text};
use crate::eval::{top_filename, Context};

verus! {

/// The line counter would pass the largest line number the VM can hold.
#[derive(Debug, Clone, Copy, PartialEq, Eq, Structural)]
pub enum IncrementLinenoError {
    /// Carries the largest line number.
    Overflow(usize),
}

impl IncrementLinenoError {
    pub open spec fn spec_display(self) -> Seq<u8> {
        match self {
            IncrementLinenoError::Overflow(max) => text("Parser exceeded maximum line count: ")
                + digits(max as nat),
        }
    }

    pub fn message(&self) -> (message: Vec<u8>)
        ensures
            message@ == text("parser exceeded maximum line count"),
    {
        bytes_of("parser exceeded maximum line count")
    }

    pub fn name(&self) -> (name: Vec<u8>)
        ensures
            name@ == text("ScriptError"),
    {
        bytes_of("ScriptError")
    }

    pub fn vm_backtrace(&self) -> (backtrace: Option<Vec<Vec<u8>>>)
        ensures
            backtrace is None,
    {
        None
    }

    pub fn display(&self) -> (report: Vec<u8>)
        ensures
            report@ == self.spec_display(),
    {
        match self {
            IncrementLinenoError::Overflow(max) => {
                let mut out: Vec<u8> = bytes_of("Parser exceeded maximum line count: ");
                push_all(&mut out, decimal(*max as u64).as_slice());
                out
            },
        }
    }
}

/// The largest line number the VM can hold.
pub const MAX_LINENO: usize = 65535;

/// The parser's state: the stack of eval contexts and the line counter.
#[derive(Debug, PartialEq, Eq)]
pub struct Parser {
    stack: Vec<Context>,
    lineno: u16,
}

pub struct ParserView {
    /// The filenames of the eval contexts, outermost first.
    pub contexts: Seq<Seq<u8>>,
    pub lineno: u16,
}

impl ParserView {
    /// The filename that an evaluation reports: that of the innermost eval
    /// context, or the root context's where none is pushed.
    pub open spec fn active_filename(self) -> Seq<u8> {
        if self.contexts.len() > 0 {
            self.contexts.last()
        } else {
            top_filename()
        }
    }
}

impl View for Parser {
    type V = ParserView;

    closed spec fn view(&self) -> ParserView {
        ParserView {
            contexts: Seq::new(self.stack@.len(), |i: int| self.stack@[i]@),
            lineno: self.lineno,
        }
    }
}

impl Parser {
    pub fn new() -> (parser: Self)
        ensures
            parser@ == (ParserView { contexts: Seq::empty(), lineno: 1 }),
    {
        let parser = Parser { stack: Vec::new(), lineno: 1 };
        assert(parser@.contexts =~= Seq::empty());
        parser
    }

    /// Forget every eval context and start counting lines at one again.
    pub fn reset(&mut self)
        ensures
            final(self)@ == (ParserView { contexts: Seq::empty(), lineno: 1 }),
    {
        self.stack.clear();
        self.lineno = 1;
        assert(self@.contexts =~= Seq::empty());
    }

    /// The current line number.
    pub fn fetch_lineno(&self) -> (lineno: usize)
        ensures
            lineno == self@.lineno,
    {
        self.lineno as usize
    }

    /// Advance the line counter by `val` and return the new line number. The
    /// counter is left alone if it would pass [`MAX_LINENO`].
    pub fn add_fetch_lineno(&mut self, val: usize) -> (r: Result<usize, IncrementLinenoError>)
        ensures
            old(self)@.lineno + val <= MAX_LINENO ==> r == Ok::<usize, IncrementLinenoError>(
                (old(self)@.lineno + val) as usize,
            ) && final(self)@ == (ParserView {
                lineno: (old(self)@.lineno + val) as u16,
                ..old(self)@
            }),
            old(self)@.lineno + val > MAX_LINENO ==> r == Err::<usize, IncrementLinenoError>(
                IncrementLinenoError::Overflow(MAX_LINENO),
            ) && final(self)@ == old(self)@,
    {
        let old_lineno: usize = self.lineno as usize;
        if val > MAX_LINENO - old_lineno {
            return Err(IncrementLinenoError::Overflow(MAX_LINENO));
        }
        let new_lineno: usize = old_lineno + val;
        self.lineno = new_lineno as u16;
        Ok(new_lineno)
    }

    /// Make `context` the source identity that evaluations report.
    pub fn push_context(&mut self, context: Context)
        ensures
            final(self)@ == (ParserView {
                contexts: old(self)@.contexts.push(context@),
                ..old(self)@
            }),
    {
        self.stack.push(context);
        assert(self@.contexts =~= old(self)@.contexts.push(context@));
    }

    /// Remove the innermost eval context, so that the one below it, or the
    /// root context, is reported again.
    pub fn pop_context(&mut self) -> (popped: Option<Context>)
        ensures
            old(self)@.contexts.len() == 0 ==> popped is None && final(self)@ == old(self)@,
            old(self)@.contexts.len() > 0 ==> (popped matches Some(context)
                && context@ == old(self)@.contexts.last()
                && final(self)@ == (ParserView {
                    contexts: old(self)@.contexts.drop_last(),
                    ..old(self)@
                })),
    {
        let popped = self.stack.pop();
        assert(popped is Some ==> self@.contexts =~= old(self)@.contexts.drop_last());
        assert(popped is None ==> self@.contexts =~= old(self)@.contexts);
        popped
    }

    /// The innermost eval context, if any was pushed.
    #[must_use]
    pub fn peek_context(&self) -> (top: Option<Context>)
        ensures
            self@.contexts.len() == 0 ==> top is None,
            self@.contexts.len() > 0 ==> (top matches Some(context)
                && context@ == self@.contexts.last()),
    {
        let n: usize = self.stack.len();
        if n == 0 {
            None
        } else {
            Some(self.stack[n - 1].clone())
        }
    }

    /// The number of eval contexts that were pushed and not popped.
    pub fn context_depth(&self) -> (depth: usize)
        ensures
            depth == self@.contexts.len(),
    {
        self.stack.len()
    }

    /// The filename that an evaluation reports now.
    pub fn active_filename(&self) -> (filename: Vec<u8>)
        ensures
            filename@ == self@.active_filename(),
    {
        let n: usize = self.stack.len();
        if n == 0 {
            Context::root().filename
        } else {
            copy_bytes(&self.stack[n - 1].filename)
        }
    }
}

} // verus!
