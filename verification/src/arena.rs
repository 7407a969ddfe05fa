//! Garbage collection arenas for native code.
//!
//! The VM keeps every object created through its C API alive on a stack, the
//! arena. A savepoint is a position on that stack; restoring it truncates the
//! stack, so that what was pushed since can be collected. The VM does not
//! check the position it is given: a position above the current top corrupts
//! it. [`Arena`] records the savepoints that are open and hands out a position
//! to truncate to only while that position is still recorded.

use vstd::prelude::*;
use crate::bytes::{bytes_of, text};

verus! {

/// Failed to create a garbage collection savepoint.
#[derive(Debug, Clone, Copy, PartialEq, Eq, Structural)]
pub struct IndexError;

impl Default for IndexError {
    fn default() -> (e: Self)
        ensures
            e == IndexError,
    {
        IndexError
    }
}

impl IndexError {
    pub open spec fn spec_message() -> Seq<u8> {
        text("Failed to create internal garbage collection savepoint")
    }

    /// Constructs a new, default `IndexError`.
    #[must_use]
    pub fn new() -> (e: Self)
        ensures
            e == IndexError,
    {
        IndexError
    }

    pub fn message(&self) -> (message: Vec<u8>)
        ensures
            message@ == Self::spec_message(),
    {
        bytes_of("Failed to create internal garbage collection savepoint")
    }

    pub fn name(&self) -> (name: Vec<u8>)
        ensures
            name@ == text("fatal"),
    {
        bytes_of("fatal")
    }

    pub fn vm_backtrace(&self) -> (backtrace: Option<Vec<Vec<u8>>>)
        ensures
            backtrace is None,
    {
        None
    }

    pub fn display(&self) -> (report: Vec<u8>)
        ensures
            report@ == Self::spec_message(),
    {
        bytes_of("Failed to create internal garbage collection savepoint")
    }
}

/// The savepoints that are open, outermost first.
#[derive(Debug, PartialEq, Eq)]
pub struct Arena {
    open: Vec<i32>,
}

/// Whether `index` may be captured on top of the savepoints in `open`: it is
/// a position, and not below the innermost open one.
pub open spec fn capturable(open: Seq<i32>, index: i32) -> bool {
    &&& 0 <= index
    &&& open.len() > 0 ==> open.last() <= index
}

/// Positions never fall from an outer savepoint to an inner one.
pub open spec fn ordered(open: Seq<i32>) -> bool {
    &&& forall|i: int| 0 <= i < open.len() ==> 0 <= #[trigger] open[i]
    &&& forall|i: int, j: int| 0 <= i <= j < open.len() ==> open[i] <= open[j]
}

impl View for Arena {
    type V = Seq<i32>;

    closed spec fn view(&self) -> Seq<i32> {
        self.open@
    }
}

impl Arena {
    pub fn new() -> (arena: Self)
        ensures
            arena@ == Seq::<i32>::empty(),
            ordered(arena@),
    {
        Arena { open: Vec::new() }
    }

    /// The number of open savepoints.
    pub fn depth(&self) -> (n: usize)
        ensures
            n == self@.len(),
    {
        self.open.len()
    }
}

/// Interpreter guard that acts as a GC arena savepoint.
///
/// An `ArenaIndex` is a position on the VM's arena together with the depth at
/// which it was opened. It cannot be copied, and restoring it consumes it.
#[derive(Debug, PartialEq, Eq)]
pub struct ArenaIndex {
    index: i32,
    level: usize,
}

impl ArenaIndex {
    /// The arena position that was captured.
    pub closed spec fn index(&self) -> i32 {
        self.index
    }

    /// The number of savepoints that were open when this one was opened.
    pub closed spec fn level(&self) -> nat {
        self.level as nat
    }

    /// Whether `open` still records this savepoint.
    pub open spec fn live_in(&self, open: Seq<i32>) -> bool {
        self.level() < open.len() && open[self.level() as int] == self.index()
    }

    /// Create a new arena savepoint from the position the VM captured, `None`
    /// where the VM could not capture one.
    pub fn new(arena: &mut Arena, captured: Option<i32>) -> (r: Result<Self, IndexError>)
        ensures
            match r {
                Ok(savepoint) => captured matches Some(index)
                    && capturable(old(arena)@, index)
                    && savepoint.index() == index
                    && savepoint.level() == old(arena)@.len()
                    && final(arena)@ == old(arena)@.push(index),
                Err(_) => final(arena)@ == old(arena)@
                    && !(captured matches Some(index) && capturable(old(arena)@, index)),
            },
            ordered(old(arena)@) ==> ordered(final(arena)@),
    {
        match captured {
            None => Err(IndexError),
            Some(index) => {
                let level: usize = arena.open.len();
                if index < 0 || (level > 0 && arena.open[level - 1] > index) {
                    Err(IndexError)
                } else {
                    arena.open.push(index);
                    Ok(ArenaIndex { index, level })
                }
            },
        }
    }

    /// Restore the arena stack pointer to its prior index.
    ///
    /// Returns the position to hand to the VM, and forgets this savepoint and
    /// every savepoint opened after it. A savepoint that the arena no longer
    /// records gives `None` and changes nothing.
    pub fn restore(self, arena: &mut Arena) -> (r: Option<i32>)
        ensures
            self.live_in(old(arena)@) ==> r == Some(self.index())
                && final(arena)@ == old(arena)@.take(self.level() as int),
            !self.live_in(old(arena)@) ==> r is None && final(arena)@ == old(arena)@,
            ordered(old(arena)@) ==> ordered(final(arena)@),
    {
        if self.level < arena.open.len() && arena.open[self.level] == self.index {
            arena.open.truncate(self.level);
            Some(self.index)
        } else {
            None
        }
    }

    /// The arena position that was captured.
    pub fn position(&self) -> (index: i32)
        ensures
            index == self.index(),
    {
        self.index
    }
}

/// A savepoint restored right after it was opened hands the VM the position
/// that was captured and leaves the open savepoints as they were.
pub proof fn lemma_open_then_restore(open: Seq<i32>, index: i32)
    ensures
        open.push(index).take(open.len() as int) == open,
        open.push(index)[open.len() as int] == index,
{
    assert(open.push(index).take(open.len() as int) =~= open);
}

/// The position of a live savepoint is never above the innermost open one, so
/// truncating the VM's arena to it cannot grow the arena.
pub proof fn lemma_live_position_is_below_top(open: Seq<i32>, savepoint: ArenaIndex)
    requires
        ordered(open),
        savepoint.live_in(open),
    ensures
        0 <= savepoint.index() <= open.last(),
        ordered(open.take(savepoint.level() as int)),
{
}

} // verus!
