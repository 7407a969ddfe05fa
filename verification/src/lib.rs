//! The host side of an embedded Ruby VM.
//!
//! The VM signals fatal errors by unwinding past its caller, so every call
//! into it is made by an outer driver that performs one primitive request at a
//! time. This crate holds everything that driver has to decide: which request
//! comes next, what a reply means, and which bookkeeping (eval contexts, GC
//! arena savepoints, required sources) has to change with it.
//!
//! Two protocols connect the crate to its driver. A *machine* ([`vm::Step`])
//! asks the VM for one thing at a time with a [`vm::Request`] and takes a
//! [`vm::Reply`]: protected calls ([`protect`]), evaluations that may unwind
//! ([`eval`]) and the start of an interpreter ([`interpreter`]) are machines.
//! A *task* ([`task::Task`]) asks with a [`task::Query`], which may stand for
//! a whole protected call, and takes a [`task::Answer`]: operations on values
//! ([`value`], [`implicit`]), `require` and `load` ([`load`]) and the native
//! methods built on them are tasks.
//!
//! The driver owns the state of one VM instance as an
//! [`interpreter::Artichoke`] and hands it to every step that needs it. No
//! state is kept anywhere else.

pub mod arena;
pub mod bytes;
pub mod env;
pub mod error;
pub mod eval;
pub mod exception;
pub mod implicit;
pub mod integer;
pub mod interpreter;
pub mod kernel;
pub mod load;
pub mod parser;
pub mod path;
pub mod protect;
pub mod regexp;
pub mod securerandom;
pub mod stdlib;
pub mod task;
pub mod types;
pub mod value;
pub mod vm;
