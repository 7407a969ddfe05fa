use artichoke_backend::arena::IndexError;
use artichoke_backend::bytes::{bytes_of, decimal, has_byte, same_bytes};
use artichoke_backend::error::{ArtichokeError, TypeError};
use artichoke_backend::exception::{last_error, ErrorObject, Exception, LastError, Unreadable};
use artichoke_backend::interpreter::InterpreterAllocError;
use artichoke_backend::parser::IncrementLinenoError;
use artichoke_backend::protect::settle;
use artichoke_backend::types::Ruby;
use artichoke_backend::value::{ArgCountError, Value};
use artichoke_backend::vm::Outcome;

fn object(class: Option<&[u8]>, message: Option<&[u8]>, backtrace: Option<Option<Vec<&[u8]>>>) -> ErrorObject {
    ErrorObject {
        class_name: class.map(|c| c.to_vec()),
        message: message.map(|m| m.to_vec()),
        backtrace: backtrace.map(|b| b.map(|frames| frames.into_iter().map(|f| f.to_vec()).collect())),
    }
}

#[test]
fn display_without_backtrace_is_class_and_message() {
    let e = Exception::new(b"SyntaxError".to_vec(), b"syntax error".to_vec(), None);
    assert_eq!(e.display(), b"SyntaxError: syntax error");
    assert!(e.is_syntax_error());
    let e = Exception::new(b"RuntimeError".to_vec(), b"boom".to_vec(), Some(Vec::new()));
    assert_eq!(e.display(), b"RuntimeError: boom");
    assert!(!e.is_syntax_error());
}

#[test]
fn display_with_backtrace_lists_every_frame() {
    let e = Exception::new(
        b"LoadError".to_vec(),
        b"cannot load such file -- /src".to_vec(),
        Some(vec![b"(eval):1".to_vec()]),
    );
    assert_eq!(e.display(), b"(eval):1: cannot load such file -- /src (LoadError)\n(eval):1");
    let e = Exception::new(
        b"RuntimeError".to_vec(),
        b"boom".to_vec(),
        Some(vec![b"a.rb:3".to_vec(), b"b.rb:7".to_vec(), b"(eval):1".to_vec()]),
    );
    assert_eq!(e.display(), b"a.rb:3: boom (RuntimeError)\na.rb:3\nb.rb:7\n(eval):1");
    assert_eq!(e.name(), b"RuntimeError");
    assert_eq!(e.message(), b"boom");
    assert_eq!(e.vm_backtrace().unwrap().len(), 3);
    assert_eq!(e.clone(), e);
}

#[test]
fn no_pending_error_is_nothing() {
    assert_eq!(last_error(None), LastError::Nothing);
}

#[test]
fn pending_error_is_caught() {
    let last = last_error(Some(object(Some(b"TypeError"), Some(b"no"), Some(None))));
    assert_eq!(
        last,
        LastError::Caught(Exception::new(b"TypeError".to_vec(), b"no".to_vec(), None))
    );
    let last = last_error(Some(object(Some(b"E"), Some(b""), Some(Some(vec![b"x:1"])))));
    assert_eq!(
        last,
        LastError::Caught(Exception::new(b"E".to_vec(), Vec::new(), Some(vec![b"x:1".to_vec()])))
    );
}

#[test]
fn failed_reads_are_reported_in_order() {
    assert_eq!(
        last_error(Some(object(None, None, None))),
        LastError::UnableToExtract(Unreadable::ClassName)
    );
    assert_eq!(
        last_error(Some(object(Some(b"E"), None, None))),
        LastError::UnableToExtract(Unreadable::Message)
    );
    assert_eq!(
        last_error(Some(object(Some(b"E"), Some(b"m"), None))),
        LastError::UnableToExtract(Unreadable::Backtrace)
    );
    assert_eq!(
        last_error(Some(object(None, Some(b"m"), Some(None)))),
        LastError::UnableToExtract(Unreadable::ClassName)
    );
}

#[test]
fn settle_decides_the_result() {
    let value = Value::from_int(3);
    assert_eq!(settle(Outcome::Value(value), LastError::Nothing), Ok(value));
    let hidden = Value::new(Ruby::Unreachable, 0);
    assert_eq!(
        settle(Outcome::Value(hidden), LastError::Nothing),
        Err(ArtichokeError::UnreachableValue)
    );
    assert_eq!(
        settle(Outcome::Raised(value), LastError::Nothing),
        Err(ArtichokeError::UnableToExtract(Unreadable::Object))
    );
    assert_eq!(settle(Outcome::Failure, LastError::Nothing), Err(ArtichokeError::ExecutorFailure));
    let syntax = Exception::new(b"SyntaxError".to_vec(), b"syntax error".to_vec(), None);
    assert_eq!(
        settle(Outcome::Raised(value), LastError::Caught(syntax.clone())),
        Err(ArtichokeError::Syntax(syntax))
    );
    let runtime = Exception::new(b"RuntimeError".to_vec(), b"boom".to_vec(), None);
    assert_eq!(
        settle(Outcome::Value(value), LastError::Caught(runtime.clone())),
        Err(ArtichokeError::Exec(runtime))
    );
    assert_eq!(
        settle(Outcome::Value(value), LastError::UnableToExtract(Unreadable::Message)),
        Err(ArtichokeError::UnableToExtract(Unreadable::Message))
    );
}

#[test]
fn every_error_has_a_name_and_a_message() {
    let cases: Vec<(ArtichokeError, &[u8], &[u8])> = vec![
        (ArtichokeError::UnreachableValue, b"fatal", b"Unreachable Ruby value"),
        (
            ArtichokeError::ArenaUnavailable(IndexError::new()),
            b"fatal",
            b"Failed to create internal garbage collection savepoint",
        ),
        (
            ArtichokeError::New(InterpreterAllocError::new()),
            b"fatal",
            b"Failed to allocate Artichoke Ruby interpreter",
        ),
        (ArtichokeError::ExecutorFailure, b"fatal", b"Failed to enter a protected call"),
        (
            ArtichokeError::ArgCount(ArgCountError { given: 20, max: 16 }),
            b"ArgumentError",
            b"Too many arguments",
        ),
        (ArtichokeError::Vfs, b"fatal", b"failed to convert context filename to CString"),
        (
            ArtichokeError::IncrementLineno(IncrementLinenoError::Overflow(65535)),
            b"ScriptError",
            b"parser exceeded maximum line count",
        ),
        (ArtichokeError::Type(TypeError::new(b"no".to_vec())), b"TypeError", b"no"),
        (
            ArtichokeError::UnableToExtract(Unreadable::Object),
            b"fatal",
            b"Unable to read the pending error",
        ),
        (
            ArtichokeError::UnableToExtract(Unreadable::ClassName),
            b"fatal",
            b"Unable to read the class name of the pending error",
        ),
        (
            ArtichokeError::UnableToExtract(Unreadable::Message),
            b"fatal",
            b"Unable to read the message of the pending error",
        ),
        (
            ArtichokeError::UnableToExtract(Unreadable::Backtrace),
            b"fatal",
            b"Unable to read the backtrace of the pending error",
        ),
    ];
    for (error, name, message) in cases {
        assert_eq!(error.name(), name);
        assert_eq!(error.message(), message);
        assert_eq!(error.vm_backtrace(), None);
        let mut report = name.to_vec();
        report.extend_from_slice(b": ");
        report.extend_from_slice(message);
        assert_eq!(error.display(), report);
    }
}

#[test]
fn error_of_an_exception_reports_the_exception() {
    let e = Exception::new(b"E".to_vec(), b"m".to_vec(), Some(vec![b"f:1".to_vec()]));
    let error = ArtichokeError::Exec(e.clone());
    assert_eq!(error.name(), b"E");
    assert_eq!(error.message(), b"m");
    assert_eq!(error.vm_backtrace(), Some(vec![b"f:1".to_vec()]));
    assert_eq!(error.display(), e.display());
}

#[test]
fn small_errors_display_themselves() {
    assert_eq!(IndexError::new().display(), b"Failed to create internal garbage collection savepoint");
    assert_eq!(IndexError::new().name(), b"fatal");
    assert_eq!(IndexError::default(), IndexError::new());
    assert_eq!(InterpreterAllocError::new().display(), b"Failed to allocate Artichoke interpreter");
    assert_eq!(InterpreterAllocError::default(), InterpreterAllocError::new());
    assert_eq!(
        IncrementLinenoError::Overflow(65535).display(),
        b"Parser exceeded maximum line count: 65535"
    );
    let e = ArgCountError::new(&[Value::nil(), Value::nil()]);
    assert_eq!(e.given, 2);
    assert_eq!(e.max, 16);
    assert_eq!(e.vm_backtrace(), None);
}

#[test]
fn decimal_writes_every_digit() {
    assert_eq!(decimal(0), b"0");
    assert_eq!(decimal(9), b"9");
    assert_eq!(decimal(10), b"10");
    assert_eq!(decimal(65535), b"65535");
    assert_eq!(decimal(u64::MAX), b"18446744073709551615");
}

#[test]
fn byte_helpers() {
    assert_eq!(bytes_of("(eval)"), b"(eval)");
    assert!(same_bytes(b"abc", b"abc"));
    assert!(!same_bytes(b"abc", b"abd"));
    assert!(!same_bytes(b"abc", b"ab"));
    assert!(has_byte(b"a\0b", 0));
    assert!(!has_byte(b"ab", 0));
}

#[test]
fn class_names_of_types() {
    assert_eq!(Ruby::Nil.class_name(), b"NilClass");
    assert_eq!(Ruby::Bool.class_name(), b"Boolean");
    assert_eq!(Ruby::Data.class_name(), b"Rust-backed Ruby instance");
    assert_eq!(Ruby::Unreachable.class_name(), b"internal and unreachable");
    assert_eq!(Ruby::SingletonClass.class_name(), b"Singleton (anonymous) class");
}
