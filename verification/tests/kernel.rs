use artichoke_backend::env::EnvArgumentError;
use artichoke_backend::eval::Context;
use artichoke_backend::interpreter::Artichoke;
use artichoke_backend::kernel::{
    flatten, init, mrb_args_opt, mrb_args_req, mrb_args_req_and_opt, mrb_args_rest, Kernel, Method,
    Printed, Scope, Warning,
};
use artichoke_backend::load::{Load, LoaderError, Loading};
use artichoke_backend::regexp::{same_pattern, Config, Encoding, Scan};
use artichoke_backend::task::{Answer, Native, Query, Task};
use artichoke_backend::types::Ruby;
use artichoke_backend::value::Value;
use artichoke_backend::vm::{Request, Step};

#[test]
fn argument_specifications() {
    assert_eq!(mrb_args_req(1), 1 << 18);
    assert_eq!(mrb_args_req(2), 2 << 18);
    assert_eq!(mrb_args_req(33), 1 << 18);
    assert_eq!(mrb_args_opt(2), 2 << 13);
    assert_eq!(mrb_args_rest(), 4096);
    assert_eq!(mrb_args_req_and_opt(1, 2), (1 << 18) | (2 << 13));
}

#[test]
fn init_defines_the_native_methods() {
    let table = init();
    assert_eq!(table.len(), 10);
    let names: Vec<(&[u8], &[u8], Scope)> = table
        .iter()
        .map(|d| (d.module.as_slice(), d.name.as_slice(), d.scope))
        .collect();
    let expected: Vec<(&[u8], &[u8], Scope)> = vec![
        (b"Warning", b"warn", Scope::Instance),
        (b"Warning", b"warn", Scope::Singleton),
        (b"Kernel", b"require", Scope::Instance),
        (b"Kernel", b"require_relative", Scope::Singleton),
        (b"Kernel", b"Integer", Scope::Instance),
        (b"Kernel", b"Integer", Scope::Singleton),
        (b"Kernel", b"load", Scope::Singleton),
        (b"Kernel", b"print", Scope::Instance),
        (b"Kernel", b"puts", Scope::Instance),
        (b"Kernel", b"warn", Scope::Instance),
    ];
    assert_eq!(names, expected);
    assert_eq!(table[0].aspec, 1 << 18);
    assert_eq!(table[0].method, Method::WarningWarn);
    assert_eq!(table[2].aspec, 1 << 12);
    assert_eq!(table[4].aspec, (1 << 18) | (2 << 13));
    assert_eq!(table[4].method, Method::Integer);
    assert_eq!(table[9].method, Method::Warn);
}

#[test]
fn warning_is_printed_to_stderr() {
    let stderr = Value::new(Ruby::Object, 5);
    let line = Value::new(Ruby::String, 6);
    match Warning::warn(stderr, &[line]) {
        Some(Step::Ask(_, Request::SaveArena)) => {}
        other => panic!("{:?}", other),
    }
    assert_eq!(Warning::warn(Value::nil(), &[line]), None);
}

#[test]
fn warn_ends_the_line() {
    assert_eq!(Kernel::warn(&b"careful".to_vec()), b"careful\n");
    assert_eq!(Kernel::warn(&b"careful\n".to_vec()), b"careful\n");
    assert_eq!(Kernel::warn(&Vec::new()), b"\n");
}

#[test]
fn puts_writes_a_line_for_every_argument() {
    let text = |bytes: &[u8]| Printed::Text(bytes.to_vec());
    assert_eq!(Kernel::puts(&Vec::new()), b"\n");
    assert_eq!(Kernel::puts(&vec![text(b"a")]), b"a\n");
    assert_eq!(Kernel::puts(&vec![text(b"a"), text(b""), text(b"bc")]), b"a\n\nbc\n");
}

#[test]
fn puts_writes_the_elements_of_an_array_like_arguments() {
    let text = |bytes: &[u8]| Printed::Text(bytes.to_vec());
    let nested = Printed::List(vec![
        text(b"a"),
        Printed::List(vec![text(b"b"), Printed::List(Vec::new()), text(b"c")]),
        text(b"d"),
    ]);
    assert_eq!(
        flatten(&nested),
        vec![b"a".to_vec(), b"b".to_vec(), b"c".to_vec(), b"d".to_vec()]
    );
    assert_eq!(Kernel::puts(&vec![text(b"x"), nested]), b"x\na\nb\nc\nd\n");
    // An empty array writes nothing.
    assert_eq!(Kernel::puts(&vec![Printed::List(Vec::new())]), b"");
}

#[test]
fn print_writes_the_arguments_one_after_the_other() {
    assert_eq!(Kernel::print(&Vec::new()), b"");
    assert_eq!(Kernel::print(&vec![b"a".to_vec(), b"bc".to_vec()]), b"abc");
}

fn started(task: Task<Load, Result<bool, LoaderError>>, name: Value) -> Load {
    match task {
        Task::Ask(load, query) => {
            assert_eq!(query, Query::ReadString(name));
            load
        }
        other => panic!("{:?}", other),
    }
}

#[test]
fn require_searches_below_the_load_path() {
    let mut interp = Artichoke::new();
    interp.def_rb_source_file(b"a.rb", b"1");
    let name = Value::new(Ruby::String, 1);
    let load = started(Kernel::require(name), name);
    let next = load.resume(&mut interp, Answer::Bytes(Some(b"a".to_vec())));
    match next {
        Task::Ask(_, Query::Eval(code)) => assert_eq!(code, b"1"),
        other => panic!("{:?}", other),
    }
    assert_eq!(interp.peek_context(), Some(Context::new(b"/src/lib/a.rb".to_vec())));
}

#[test]
fn require_relative_searches_beside_the_current_source() {
    let mut interp = Artichoke::new();
    interp.def_rb_source_file(b"/app/lib/b.rb", b"2");
    interp.def_file(b"/app/lib/b.rb", Native(4));
    interp.push_context(Context::new(b"/app/lib/a.rb".to_vec()));
    let name = Value::new(Ruby::String, 1);
    let load = started(Kernel::require_relative(&interp, name), name);
    let load = match load.resume(&mut interp, Answer::Bytes(Some(b"b".to_vec()))) {
        Task::Ask(load, Query::Native(Native(4))) => load,
        other => panic!("{:?}", other),
    };
    assert_eq!(interp.parser.context_depth(), 1);
    let load = match load.resume(&mut interp, Answer::Initialized(true)) {
        Task::Ask(load, Query::Eval(code)) => {
            assert_eq!(code, b"2");
            load
        }
        other => panic!("{:?}", other),
    };
    assert_eq!(interp.peek_context(), Some(Context::new(b"/app/lib/b.rb".to_vec())));
    let done = load.resume(&mut interp, Answer::Returned(Ok(Value::nil())));
    assert_eq!(done, Task::Done(Ok(true)));
    assert_eq!(interp.peek_context(), Some(Context::new(b"/app/lib/a.rb".to_vec())));
    assert!(interp.loader.is_required(b"/app/lib/b.rb"));
    // The second require does nothing.
    let load = started(Kernel::require_relative(&interp, name), name);
    let again = load.resume(&mut interp, Answer::Bytes(Some(b"b.rb".to_vec())));
    assert_eq!(again, Task::Done(Ok(false)));
}

#[test]
fn load_does_not_mark_and_does_not_ask() {
    let mut interp = Artichoke::new();
    interp.def_file(b"/x.rb", Native(0));
    let name = Value::new(Ruby::String, 1);
    for _ in 0..2 {
        let load = started(Kernel::load(name), name);
        let load = match load.resume(&mut interp, Answer::Bytes(Some(b"/x.rb".to_vec()))) {
            Task::Ask(load, Query::Native(Native(0))) => load,
            other => panic!("{:?}", other),
        };
        assert_eq!(load.resume(&mut interp, Answer::Initialized(true)), Task::Done(Ok(true)));
        assert!(!interp.loader.is_required(b"/x.rb"));
    }
    assert_eq!(Kernel::load(Value::nil()), Task::Done(Err(LoaderError::NoImplicitConversionToString)));
}

#[test]
fn loader_errors_are_rendered() {
    let e = LoaderError::CannotLoad(b"/src".to_vec());
    assert_eq!(e.name(), b"LoadError");
    assert_eq!(e.message(), b"cannot load such file -- /src");
    assert_eq!(LoaderError::Fatal(Loading::Require).name(), b"RuntimeError");
    assert_eq!(LoaderError::Fatal(Loading::Require).message(), b"fatal Kernel#require error");
    assert_eq!(LoaderError::Fatal(Loading::Load).message(), b"fatal Kernel#load error");
}

#[test]
fn script_that_ends_without_a_result_is_fatal() {
    let mut interp = Artichoke::new();
    interp.def_rb_source_file(b"a.rb", b"1");
    let load = match Load::start(&mut interp, Loading::Require, b"/src/lib", b"a") {
        Task::Ask(load, Query::Eval(_)) => load,
        other => panic!("{:?}", other),
    };
    let done = load.resume(&mut interp, Answer::Bytes(None));
    assert_eq!(done, Task::Done(Err(LoaderError::Fatal(Loading::Require))));
    assert_eq!(interp.parser.context_depth(), 0);
    assert!(!interp.loader.is_required(b"/src/lib/a.rb"));
}

#[test]
fn latest_definition_provides_the_source() {
    let mut interp = Artichoke::new();
    interp.def_rb_source_file(b"a.rb", b"old");
    interp.def_rb_source_file(b"./a.rb", b"new");
    interp.def_file(b"a.rb", Native(1));
    interp.def_file(b"/src/lib/a.rb", Native(2));
    assert_eq!(interp.loader.script(b"/src/lib/a.rb"), Some(b"new".to_vec()));
    assert_eq!(interp.loader.native(b"/src/lib/a.rb"), Some(Native(2)));
    assert_eq!(interp.loader.native(b"/src/lib/b.rb"), None);
    assert!(!interp.loader.is_file(b"/src/lib"));
    assert_eq!(
        interp.loader.resolve(Loading::Require, b"/src/lib", b"a"),
        Some(b"/src/lib/a.rb".to_vec())
    );
    assert_eq!(interp.loader.resolve(Loading::Load, b"/src/lib", b"a"), None);
    assert_eq!(
        interp.loader.resolve(Loading::Load, b"/src/lib", b"a.rb"),
        Some(b"/src/lib/a.rb".to_vec())
    );
}

#[test]
fn required_sources_are_remembered_once() {
    let mut interp = Artichoke::new();
    assert!(!interp.loader.is_required(b"/a.rb"));
    interp.loader.mark_required(b"/a.rb");
    interp.loader.mark_required(b"/a.rb");
    interp.loader.mark_required(b"/b.rb");
    assert!(interp.loader.is_required(b"/a.rb"));
    assert!(interp.loader.is_required(b"/b.rb"));
    assert!(!interp.loader.is_required(b"/c.rb"));
}

#[test]
fn env_argument_error_keeps_its_message() {
    let e = EnvArgumentError::new(b"bad environment variable name");
    assert_eq!(e.message(), b"bad environment variable name");
    assert_eq!(e.name(), b"ArgumentError");
    assert_eq!(e.vm_backtrace(), None);
    assert_eq!(e.display(), b"Unable to write message into destination");
    let e = EnvArgumentError::from(vec![0, 159, 255]);
    assert_eq!(e.message(), &[0, 159, 255]);
}

#[test]
fn patterns_are_the_same_by_pattern_and_encoding() {
    let a = Config { pattern: b"a+".to_vec(), multiline: false, ignore_case: false, extended: false };
    let b = Config { pattern: b"a+".to_vec(), multiline: true, ignore_case: false, extended: false };
    let c = Config { pattern: b"a*".to_vec(), multiline: false, ignore_case: false, extended: false };
    assert!(same_pattern(&a, &Encoding::No, &b, &Encoding::No));
    assert!(!same_pattern(&a, &Encoding::No, &b, &Encoding::Fixed));
    assert!(!same_pattern(&a, &Encoding::No, &c, &Encoding::No));
    assert_ne!(Scan::Haystack, Scan::Patterns(Vec::new()));
}
