//! The backend of `ENV`.

use vstd::prelude::*;
use crate::bytes::{bytes_of, text};
use crate::kernel::{
    define, definition, mrb_args_none, mrb_args_req, spec_args_req, Definition, DefinitionView, Method,
    Scope,
};

verus! {

#[verifier::external_type_specification]
#[verifier::external_body]
pub struct ExBString(bstr::BString);

/// The bytes that a `bstr::BString` holds.
pub uninterp spec fn bstring_bytes(string: bstr::BString) -> Seq<u8>;

/// Calls `BString::from` on a `Vec<u8>`, which makes the vector the string's
/// buffer: the string holds the bytes of the vector.
#[verifier::external_body]
fn bstring_from(bytes: Vec<u8>) -> (string: bstr::BString)
    ensures
        bstring_bytes(string) == bytes@,
{
    bstr::BString::from(bytes)
}

/// Calls `as_slice` on a `BString`, which gives the string's buffer as a
/// slice: the slice holds the bytes of the string.
#[verifier::external_body]
fn bstring_as_slice(string: &bstr::BString) -> (bytes: &[u8])
    ensures
        bytes@ == bstring_bytes(*string),
{
    string.as_slice()
}

/// A name or a value that the environment does not take.
pub struct EnvArgumentError(bstr::BString);

impl View for EnvArgumentError {
    type V = Seq<u8>;

    closed spec fn view(&self) -> Seq<u8> {
        bstring_bytes(self.0)
    }
}

impl EnvArgumentError {
    #[inline]
    #[must_use]
    pub fn new(message: &[u8]) -> (e: Self)
        ensures
            e@ == message@,
    {
        EnvArgumentError(bstring_from(vstd::slice::slice_to_vec(message)))
    }

    pub fn from(message: Vec<u8>) -> (e: Self)
        ensures
            e@ == message@,
    {
        EnvArgumentError(bstring_from(message))
    }

    #[inline]
    pub fn message(&self) -> (message: &[u8])
        ensures
            message@ == self@,
    {
        bstring_as_slice(&self.0)
    }

    #[inline]
    pub fn name(&self) -> (name: Vec<u8>)
        ensures
            name@ == text("ArgumentError"),
    {
        bytes_of("ArgumentError")
    }

    pub fn vm_backtrace(&self) -> (backtrace: Option<Vec<Vec<u8>>>)
        ensures
            backtrace is None,
    {
        None
    }

    pub fn display(&self) -> (report: Vec<u8>)
        ensures
            report@ == text("Unable to write message into destination"),
    {
        bytes_of("Unable to write message into destination")
    }
}

/// A store of environment variables.
pub trait EnvType {
    /// The value of the variable `name`, if it is set.
    fn get(&self, name: &[u8]) -> Result<Option<Vec<u8>>, EnvArgumentError>;

    /// Set the variable `name` to `value`, or unset it for `None`.
    fn put(&mut self, name: &[u8], value: Option<&[u8]>) -> Result<(), EnvArgumentError>;

    /// Every variable that is set, with its value.
    fn to_map(&self) -> Result<Vec<(Vec<u8>, Vec<u8>)>, EnvArgumentError>;
}

/// The methods that `Artichoke::Environ` has from the host, in the order in
/// which they are defined.
pub open spec fn definitions() -> Seq<DefinitionView> {
    seq![
        definition(
            "Artichoke::Environ",
            "[]",
            Scope::Instance,
            Method::EnvElementReference,
            spec_args_req(1),
        ),
        definition(
            "Artichoke::Environ",
            "[]=",
            Scope::Instance,
            Method::EnvElementAssignment,
            spec_args_req(2),
        ),
        definition("Artichoke::Environ", "initialize", Scope::Instance, Method::EnvInitialize, 0),
        definition("Artichoke::Environ", "to_h", Scope::Instance, Method::EnvToH, 0),
    ]
}

/// The methods to define in the VM for `Artichoke::Environ`.
pub fn init() -> (table: Vec<Definition>)
    ensures
        Seq::new(table@.len(), |i: int| table@[i]@) == definitions(),
{
    let mut table: Vec<Definition> = Vec::new();
    table.push(
        define(
            "Artichoke::Environ",
            "[]",
            Scope::Instance,
            Method::EnvElementReference,
            mrb_args_req(1),
        ),
    );
    table.push(
        define(
            "Artichoke::Environ",
            "[]=",
            Scope::Instance,
            Method::EnvElementAssignment,
            mrb_args_req(2),
        ),
    );
    table.push(
        define(
            "Artichoke::Environ",
            "initialize",
            Scope::Instance,
            Method::EnvInitialize,
            mrb_args_none(),
        ),
    );
    table.push(define("Artichoke::Environ", "to_h", Scope::Instance, Method::EnvToH, mrb_args_none()));
    assert(Seq::new(table@.len(), |i: int| table@[i]@) =~= definitions());
    table
}

} // verus!
