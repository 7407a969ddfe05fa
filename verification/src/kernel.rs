//! The native side of `Kernel` and `Warning`.

use vstd::prelude::*;
use crate::bytes::{bytes_of, copy_bytes, lines_view, push_all, text};
use crate::error::ArtichokeError;
use crate::integer::{integer, parse_integer, IntegerError, IntegerFault};
use crate::interpreter::Artichoke;
use crate::load::{load_path, Load, LoadStage, Loaded, LoaderError, Loading};
use crate::path::{parent, parent_of};
use crate::protect::{Entry, Protected, Stage};
use crate::task::{CallView, Query, Task};
use crate::types::Ruby;
use crate::value::Value;
use crate::vm::{Request, Step};

verus! {

/// The argument specification of a method that takes `n` required arguments.
pub open spec fn spec_args_req(n: u32) -> u32 {
    (n & 0x1f) << 18
}

/// The argument specification of a method that takes `n` optional arguments.
pub open spec fn spec_args_opt(n: u32) -> u32 {
    (n & 0x1f) << 13
}

/// The argument specification of a method that takes any number of
/// arguments.
pub open spec fn spec_args_rest() -> u32 {
    1u32 << 12
}

pub fn mrb_args_none() -> (aspec: u32)
    ensures
        aspec == 0,
{
    0
}

pub fn mrb_args_req(n: u32) -> (aspec: u32)
    ensures
        aspec == spec_args_req(n),
{
    (n & 0x1f) << 18
}

pub fn mrb_args_opt(n: u32) -> (aspec: u32)
    ensures
        aspec == spec_args_opt(n),
{
    (n & 0x1f) << 13
}

pub fn mrb_args_rest() -> (aspec: u32)
    ensures
        aspec == spec_args_rest(),
{
    1u32 << 12
}

pub fn mrb_args_req_and_opt(required: u32, optional: u32) -> (aspec: u32)
    ensures
        aspec == spec_args_req(required) | spec_args_opt(optional),
{
    mrb_args_req(required) | mrb_args_opt(optional)
}

/// Whether a method is called on instances or on the module itself.
#[derive(Debug, Clone, Copy, PartialEq, Eq, Structural)]
pub enum Scope {
    Instance,
    Singleton,
}

/// The native methods of this module, by number.
#[derive(Debug, Clone, Copy, PartialEq, Eq, Structural)]
pub enum Method {
    WarningWarn,
    Require,
    RequireRelative,
    Integer,
    Load,
    Print,
    Puts,
    Warn,
    EnvInitialize,
    EnvElementReference,
    EnvElementAssignment,
    EnvToH,
}

/// One method to define in the VM.
#[derive(Debug, PartialEq, Eq)]
pub struct Definition {
    pub module: Vec<u8>,
    pub name: Vec<u8>,
    pub scope: Scope,
    pub method: Method,
    pub aspec: u32,
}

pub struct DefinitionView {
    pub module: Seq<u8>,
    pub name: Seq<u8>,
    pub scope: Scope,
    pub method: Method,
    pub aspec: u32,
}

impl View for Definition {
    type V = DefinitionView;

    open spec fn view(&self) -> DefinitionView {
        DefinitionView {
            module: self.module@,
            name: self.name@,
            scope: self.scope,
            method: self.method,
            aspec: self.aspec,
        }
    }
}

pub open spec fn definition(
    module: &str,
    name: &str,
    scope: Scope,
    method: Method,
    aspec: u32,
) -> DefinitionView {
    DefinitionView { module: text(module), name: text(name), scope, method, aspec }
}

/// The methods that `Warning` and `Kernel` have from the host, in the order
/// in which they are defined.
pub open spec fn definitions() -> Seq<DefinitionView> {
    seq![
        definition("Warning", "warn", Scope::Instance, Method::WarningWarn, spec_args_req(1)),
        definition("Warning", "warn", Scope::Singleton, Method::WarningWarn, spec_args_req(1)),
        definition("Kernel", "require", Scope::Instance, Method::Require, spec_args_rest()),
        definition(
            "Kernel",
            "require_relative",
            Scope::Singleton,
            Method::RequireRelative,
            spec_args_rest(),
        ),
        definition(
            "Kernel",
            "Integer",
            Scope::Instance,
            Method::Integer,
            spec_args_req(1) | spec_args_opt(2),
        ),
        definition(
            "Kernel",
            "Integer",
            Scope::Singleton,
            Method::Integer,
            spec_args_req(1) | spec_args_opt(2),
        ),
        definition("Kernel", "load", Scope::Singleton, Method::Load, spec_args_rest()),
        definition("Kernel", "print", Scope::Instance, Method::Print, spec_args_rest()),
        definition("Kernel", "puts", Scope::Instance, Method::Puts, spec_args_rest()),
        definition("Kernel", "warn", Scope::Instance, Method::Warn, spec_args_rest()),
    ]
}

pub(crate) fn define(module: &str, name: &str, scope: Scope, method: Method, aspec: u32) -> (d: Definition)
    ensures
        d@ == definition(module, name, scope, method, aspec),
{
    Definition { module: bytes_of(module), name: bytes_of(name), scope, method, aspec }
}

/// The methods to define in the VM for `Warning` and `Kernel`.
pub fn init() -> (table: Vec<Definition>)
    ensures
        Seq::new(table@.len(), |i: int| table@[i]@) == definitions(),
{
    let mut table: Vec<Definition> = Vec::new();
    table.push(define("Warning", "warn", Scope::Instance, Method::WarningWarn, mrb_args_req(1)));
    table.push(define("Warning", "warn", Scope::Singleton, Method::WarningWarn, mrb_args_req(1)));
    table.push(define("Kernel", "require", Scope::Instance, Method::Require, mrb_args_rest()));
    table.push(
        define(
            "Kernel",
            "require_relative",
            Scope::Singleton,
            Method::RequireRelative,
            mrb_args_rest(),
        ),
    );
    table.push(
        define("Kernel", "Integer", Scope::Instance, Method::Integer, mrb_args_req_and_opt(1, 2)),
    );
    table.push(
        define("Kernel", "Integer", Scope::Singleton, Method::Integer, mrb_args_req_and_opt(1, 2)),
    );
    table.push(define("Kernel", "load", Scope::Singleton, Method::Load, mrb_args_rest()));
    table.push(define("Kernel", "print", Scope::Instance, Method::Print, mrb_args_rest()));
    table.push(define("Kernel", "puts", Scope::Instance, Method::Puts, mrb_args_rest()));
    table.push(define("Kernel", "warn", Scope::Instance, Method::Warn, mrb_args_rest()));
    assert(Seq::new(table@.len(), |i: int| table@[i]@) =~= definitions());
    table
}

pub struct Warning;

impl Warning {
    /// `Warning#warn`: the arguments are printed to `$stderr`, unless
    /// `$stderr` is `nil`.
    pub fn warn(stderr: Value, args: &[Value]) -> (next: Option<
        Step<Protected, Result<Value, ArtichokeError>>,
    >)
        ensures
            stderr@.is_nil() ==> next is None,
            !stderr@.is_nil() ==> (next matches Some(Step::Ask(machine, Request::SaveArena))
                && machine.stage() matches Stage::Saving(Entry::Funcall(call)) && call@
                == (CallView { receiver: stderr, method: text("print"), args: args@, block: None })),
    {
        if stderr.is_nil() {
            None
        } else {
            Some(stderr.funcall("print", args, None))
        }
    }
}

/// `line`, ended by a newline if it does not end in one.
pub open spec fn with_newline(line: Seq<u8>) -> Seq<u8> {
    if line.len() > 0 && line.last() == 10u8 {
        line
    } else {
        line.push(10u8)
    }
}

/// `lines`, each followed by a newline.
pub open spec fn each_line(lines: Seq<Seq<u8>>) -> Seq<u8>
    decreases lines.len(),
{
    if lines.len() == 0 {
        Seq::<u8>::empty()
    } else {
        each_line(lines.drop_last()) + lines.last().push(10u8)
    }
}

/// `parts`, one after the other.
pub open spec fn concat(parts: Seq<Seq<u8>>) -> Seq<u8>
    decreases parts.len(),
{
    if parts.len() == 0 {
        Seq::<u8>::empty()
    } else {
        concat(parts.drop_last()) + parts.last()
    }
}

/// An argument of `puts`: a value by its `to_s`, or an array by its
/// elements.
#[derive(Debug, PartialEq, Eq)]
pub enum Printed {
    Text(Vec<u8>),
    List(Vec<Printed>),
}

/// The lines that `item` is written as: its text, or the lines of its
/// elements in their order.
pub open spec fn lines(item: Printed) -> Seq<Seq<u8>>
    decreases item,
{
    match item {
        Printed::Text(bytes) => seq![bytes@],
        Printed::List(items) => all_lines(items@),
    }
}

/// The lines that `items` are written as, in their order.
pub open spec fn all_lines(items: Seq<Printed>) -> Seq<Seq<u8>>
    decreases items,
{
    if items.len() == 0 {
        Seq::<Seq<u8>>::empty()
    } else {
        all_lines(items.drop_last()) + lines(items.last())
    }
}

/// The lines that `item` is written as.
pub fn flatten(item: &Printed) -> (out: Vec<Vec<u8>>)
    ensures
        lines_view(out@) == lines(*item),
    decreases item,
{
    match item {
        Printed::Text(bytes) => {
            let mut out: Vec<Vec<u8>> = Vec::new();
            out.push(copy_bytes(bytes));
            assert(lines_view(out@) =~= seq![bytes@]);
            out
        },
        Printed::List(items) => {
            assert(item->List_0 == *items);
            flatten_all(items)
        },
    }
}

/// The lines that `items` are written as, in their order.
pub fn flatten_all(items: &Vec<Printed>) -> (out: Vec<Vec<u8>>)
    ensures
        lines_view(out@) == all_lines(items@),
    decreases items,
{
    let mut out: Vec<Vec<u8>> = Vec::new();
    let mut i: usize = 0;
    assert(items@.subrange(0, 0) =~= Seq::<Printed>::empty());
    while i < items.len()
        invariant
            i <= items.len(),
            lines_view(out@) == all_lines(items@.subrange(0, i as int)),
        decreases items.len() - i,
    {
        let ghost upto = items@.subrange(0, i + 1);
        assert(upto.drop_last() =~= items@.subrange(0, i as int));
        assert(upto.last() == items[i as int]);
        assert(decreases_to!(*items => items[i as int]));
        let mut sub = flatten(&items[i]);
        let ghost before = lines_view(out@);
        let ghost added = lines_view(sub@);
        out.append(&mut sub);
        assert(lines_view(out@) =~= before + added);
        i += 1;
    }
    assert(items@.subrange(0, items.len() as int) =~= items@);
    out
}

pub struct Kernel;

impl Kernel {
    /// `Kernel#require`: load the source that `file` names unless it was
    /// required before. Relative names are searched below the load path.
    pub fn require(file: Value) -> (next: Loaded)
        ensures
            if file@.tag == Ruby::String {
                &&& next matches Task::Ask(task, query)
                &&& query == Query::ReadString(file)
                &&& task.kind() == Loading::Require
                &&& task.stage() matches LoadStage::Naming(base)
                &&& base@ == load_path()
            } else {
                next == Loaded::Done(Err(LoaderError::NoImplicitConversionToString))
            },
    {
        Load::start_value(Loading::Require, bytes_of("/src/lib"), file)
    }

    /// `Kernel#load`: load the source that `file` names, whatever was
    /// required. Relative names are searched below the load path.
    pub fn load(file: Value) -> (next: Loaded)
        ensures
            if file@.tag == Ruby::String {
                &&& next matches Task::Ask(task, query)
                &&& query == Query::ReadString(file)
                &&& task.kind() == Loading::Load
                &&& task.stage() matches LoadStage::Naming(base)
                &&& base@ == load_path()
            } else {
                next == Loaded::Done(Err(LoaderError::NoImplicitConversionToString))
            },
    {
        Load::start_value(Loading::Load, bytes_of("/src/lib"), file)
    }

    /// `Kernel#require_relative`: as `require`, with relative names searched
    /// in the directory of the source that is evaluated now.
    pub fn require_relative(interp: &Artichoke, file: Value) -> (next: Loaded)
        ensures
            if file@.tag == Ruby::String {
                &&& next matches Task::Ask(task, query)
                &&& query == Query::ReadString(file)
                &&& task.kind() == Loading::Require
                &&& task.stage() matches LoadStage::Naming(base)
                &&& base@ == parent(interp@.active_filename())
            } else {
                next == Loaded::Done(Err(LoaderError::NoImplicitConversionToString))
            },
    {
        let current = interp.parser.active_filename();
        Load::start_value(Loading::Require, parent_of(current.as_slice()), file)
    }

    /// `Kernel#Integer`: the integer that `arg` denotes, in `radix` where one
    /// is given.
    pub fn integer(arg: &str, radix: Option<i64>) -> (r: Result<i64, IntegerError>)
        ensures
            match r {
                Ok(value) => integer(arg@, radix) == Ok::<i64, IntegerFault>(value),
                Err(e) => integer(arg@, radix) == Err::<i64, IntegerFault>(e@),
            },
    {
        parse_integer(arg, radix)
    }

    /// `Kernel#print`: what is written for these arguments, each given by
    /// its `to_s`.
    pub fn print(parts: &Vec<Vec<u8>>) -> (written: Vec<u8>)
        ensures
            written@ == concat(lines_view(parts@)),
    {
        let mut written: Vec<u8> = Vec::new();
        let ghost all = lines_view(parts@);
        let mut i: usize = 0;
        assert(all.subrange(0, 0) =~= Seq::<Seq<u8>>::empty());
        while i < parts.len()
            invariant
                i <= parts.len(),
                all == lines_view(parts@),
                written@ == concat(all.subrange(0, i as int)),
            decreases parts.len() - i,
        {
            let ghost upto = all.subrange(0, i + 1);
            assert(upto.drop_last() =~= all.subrange(0, i as int));
            assert(upto.last() == parts[i as int]@);
            push_all(&mut written, parts[i].as_slice());
            i += 1;
        }
        assert(all.subrange(0, parts.len() as int) =~= all);
        written
    }

    /// `Kernel#puts`: what is written for these arguments: every argument
    /// on a line of its own, the elements of an array like arguments of their
    /// own, and an empty line for no argument.
    pub fn puts(args: &Vec<Printed>) -> (written: Vec<u8>)
        ensures
            written@ == if args@.len() == 0 {
                seq![10u8]
            } else {
                each_line(all_lines(args@))
            },
    {
        let mut written: Vec<u8> = Vec::new();
        if args.len() == 0 {
            written.push(10u8);
            assert(written@ =~= seq![10u8]);
            return written;
        }
        let lines = flatten_all(args);
        let ghost all = lines_view(lines@);
        let mut i: usize = 0;
        assert(all.subrange(0, 0) =~= Seq::<Seq<u8>>::empty());
        while i < lines.len()
            invariant
                i <= lines.len(),
                all == lines_view(lines@),
                written@ == each_line(all.subrange(0, i as int)),
            decreases lines.len() - i,
        {
            let ghost upto = all.subrange(0, i + 1);
            assert(upto.drop_last() =~= all.subrange(0, i as int));
            assert(upto.last() == lines[i as int]@);
            push_all(&mut written, lines[i].as_slice());
            written.push(10u8);
            assert(written@ =~= each_line(all.subrange(0, i as int)) + lines[i as int]@.push(10u8));
            i += 1;
        }
        assert(all.subrange(0, lines.len() as int) =~= all);
        written
    }

    /// `Kernel#warn`: the line that `Warning#warn` is given for an argument
    /// with this `to_s`.
    pub fn warn(line: &Vec<u8>) -> (warning: Vec<u8>)
        ensures
            warning@ == with_newline(line@),
    {
        let mut warning: Vec<u8> = copy_bytes(line);
        let n: usize = warning.len();
        if n == 0 || warning[n - 1] != 10u8 {
            warning.push(10u8);
        }
        warning
    }
}

} // verus!
