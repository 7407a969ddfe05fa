//! Type tags of VM values.

use vstd::prelude::*;
use crate::bytes::{bytes_of, text};

verus! {

/// The type a VM value reports for itself.
#[derive(Debug, Clone, Copy, PartialEq, Eq, Structural)]
pub enum Ruby {
    Array,
    Bool,
    Class,
    CPointer,
    Data,
    Exception,
    Fiber,
    Fixnum,
    Float,
    Hash,
    InlineStruct,
    Module,
    Nil,
    Object,
    Proc,
    Range,
    SingletonClass,
    String,
    Symbol,
    /// A tag the VM keeps for itself. A value that carries it must never be
    /// handed to the VM again.
    Unreachable,
    RecursiveStruct,
}

impl Ruby {
    /// The name under which values of this type appear in messages.
    pub open spec fn spec_class_name(self) -> Seq<u8> {
        match self {
            Ruby::Array => text("Array"),
            Ruby::Bool => text("Boolean"),
            Ruby::Class => text("Class"),
            Ruby::CPointer => text("C Pointer"),
            Ruby::Data => text("Rust-backed Ruby instance"),
            Ruby::Exception => text("Exception"),
            Ruby::Fiber => text("Fiber"),
            Ruby::Fixnum => text("Fixnum"),
            Ruby::Float => text("Float"),
            Ruby::Hash => text("Hash"),
            Ruby::InlineStruct => text("Inline Struct"),
            Ruby::Module => text("Module"),
            Ruby::Nil => text("NilClass"),
            Ruby::Object => text("Object"),
            Ruby::Proc => text("Proc"),
            Ruby::Range => text("Range"),
            Ruby::SingletonClass => text("Singleton (anonymous) class"),
            Ruby::String => text("String"),
            Ruby::Symbol => text("Symbol"),
            Ruby::Unreachable => text("internal and unreachable"),
            Ruby::RecursiveStruct => text("recursive struct"),
        }
    }

    pub fn class_name(self) -> (name: Vec<u8>)
        ensures
            name@ == self.spec_class_name(),
    {
        match self {
            Ruby::Array => bytes_of("Array"),
            Ruby::Bool => bytes_of("Boolean"),
            Ruby::Class => bytes_of("Class"),
            Ruby::CPointer => bytes_of("C Pointer"),
            Ruby::Data => bytes_of("Rust-backed Ruby instance"),
            Ruby::Exception => bytes_of("Exception"),
            Ruby::Fiber => bytes_of("Fiber"),
            Ruby::Fixnum => bytes_of("Fixnum"),
            Ruby::Float => bytes_of("Float"),
            Ruby::Hash => bytes_of("Hash"),
            Ruby::InlineStruct => bytes_of("Inline Struct"),
            Ruby::Module => bytes_of("Module"),
            Ruby::Nil => bytes_of("NilClass"),
            Ruby::Object => bytes_of("Object"),
            Ruby::Proc => bytes_of("Proc"),
            Ruby::Range => bytes_of("Range"),
            Ruby::SingletonClass => bytes_of("Singleton (anonymous) class"),
            Ruby::String => bytes_of("String"),
            Ruby::Symbol => bytes_of("Symbol"),
            Ruby::Unreachable => bytes_of("internal and unreachable"),
            Ruby::RecursiveStruct => bytes_of("recursive struct"),
        }
    }
}

} // verus!
