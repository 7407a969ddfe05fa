use artichoke_backend::error::{ArtichokeError, TypeError};
use artichoke_backend::implicit::{Conversion, Converted, Implicit, PrettyName, Target};
use artichoke_backend::task::{Answer, Query, Task};
use artichoke_backend::types::Ruby;
use artichoke_backend::value::{Display, Freeze, RespondTo, Value};
use artichoke_backend::vm::Call;

fn call(receiver: Value, method: &[u8], args: Vec<Value>) -> Query {
    Query::Call(Call { receiver, method: method.to_vec(), args, block: None })
}

/// Hands `answers` to the conversion one by one, checks that it asks
/// `queries` in turn, and gives what it ends with.
fn converse(first: Conversion, queries: Vec<Query>, answers: Vec<Answer>) -> Result<Converted, TypeError> {
    let mut task = first;
    let mut answers = answers.into_iter();
    for expected in queries {
        task = match task {
            Task::Ask(machine, query) => {
                assert_eq!(query, expected);
                machine.resume(answers.next().expect("an answer for every query"))
            }
            Task::Done(result) => panic!("ended early with {:?}", result),
        };
    }
    match task {
        Task::Done(result) => result,
        Task::Ask(_, query) => panic!("asks for more: {:?}", query),
    }
}

fn type_error(message: &str) -> Result<Converted, TypeError> {
    Err(TypeError::new(message.as_bytes().to_vec()))
}

#[test]
fn values_are_built_and_read() {
    assert!(Value::nil().is_nil());
    assert!(!Value::from_int(0).is_nil());
    assert_eq!(Value::default(), Value::nil());
    assert_eq!(Value::from_int(-5).inner(), -5);
    assert_eq!(Value::from_int(-5).ruby_type(), Ruby::Fixnum);
    assert_eq!(Value::new(Ruby::String, 12).inner(), 12);
    assert!(Value::new(Ruby::Unreachable, 0).is_unreachable());
    assert!(!Value::nil().is_unreachable());
    assert_eq!(Value::from_bool(true).try_into_bool(), Some(true));
    assert_eq!(Value::from_bool(false).try_into_bool(), Some(false));
    assert_eq!(Value::nil().try_into_bool(), None);
    assert_eq!(Value::nil().try_into_nilable_bool(), Some(None));
    assert_eq!(Value::from_bool(true).try_into_nilable_bool(), Some(Some(true)));
    assert_eq!(Value::from_int(1).try_into_nilable_bool(), None);
    assert_eq!(Value::from_int(7).try_into_int(), Some(7));
    assert_eq!(Value::from_bool(true).try_into_int(), None);
    assert_eq!(Value::nil().try_into_nilable_int(), Some(None));
    assert_eq!(Value::from_int(7).try_into_nilable_int(), Some(Some(7)));
    assert_eq!(Value::new(Ruby::String, 7).try_into_nilable_int(), None);
}

#[test]
fn immediate_values_are_named_at_once() {
    assert_eq!(Value::from_bool(true).pretty_name(), Task::Done(b"true".to_vec()));
    assert_eq!(Value::from_bool(false).pretty_name(), Task::Done(b"false".to_vec()));
    assert_eq!(Value::nil().pretty_name(), Task::Done(b"nil".to_vec()));
    assert_eq!(Value::from_int(3).pretty_name(), Task::Done(b"Fixnum".to_vec()));
    assert_eq!(Value::new(Ruby::String, 1).pretty_name(), Task::Done(b"String".to_vec()));
    assert_eq!(Value::new(Ruby::Hash, 1).pretty_name(), Task::Done(b"Hash".to_vec()));
}

#[test]
fn objects_are_named_by_their_class() {
    let object = Value::new(Ruby::Object, 40);
    let class = Value::new(Ruby::Class, 41);
    let name = Value::new(Ruby::String, 42);
    let task = match object.pretty_name() {
        Task::Ask(task, query) => {
            assert_eq!(query, call(object, b"class", vec![]));
            task
        }
        other => panic!("{:?}", other),
    };
    let task = match task.resume(Answer::Returned(Ok(class))) {
        Task::Ask(task, query) => {
            assert_eq!(query, call(class, b"name", vec![]));
            task
        }
        other => panic!("{:?}", other),
    };
    let task = match task.resume(Answer::Returned(Ok(name))) {
        Task::Ask(task, query) => {
            assert_eq!(query, Query::ReadString(name));
            task
        }
        other => panic!("{:?}", other),
    };
    assert_eq!(task.resume(Answer::Bytes(Some(b"Widget".to_vec()))), Task::Done(b"Widget".to_vec()));
}

#[test]
fn a_name_that_cannot_be_found_is_empty() {
    let failed = Answer::Returned(Err(ArtichokeError::ExecutorFailure));
    assert_eq!(PrettyName::Class.resume(failed), Task::Done(Vec::new()));
    assert_eq!(PrettyName::Name.resume(Answer::Returned(Ok(Value::nil()))), Task::Done(Vec::new()));
    assert_eq!(PrettyName::Reading.resume(Answer::Bytes(None)), Task::Done(Vec::new()));
    let data = Value::new(Ruby::Data, 1);
    assert!(matches!(data.pretty_name(), Task::Ask(PrettyName::Class, _)));
}

#[test]
fn integer_converts_to_itself() {
    assert_eq!(Value::from_int(17).implicitly_convert_to_int(), Task::Done(Ok(Converted::Int(17))));
}

#[test]
fn nil_does_not_convert_to_integer() {
    assert_eq!(
        converse(Value::nil().implicitly_convert_to_int(), vec![], vec![]),
        type_error("no implicit conversion from nil to integer")
    );
}

#[test]
fn to_int_converts_an_object() {
    let object = Value::new(Ruby::Object, 40);
    let name = Value::new(Ruby::String, 50);
    let result = converse(
        object.implicitly_convert_to_int(),
        vec![
            Query::NewString(b"to_int".to_vec()),
            call(object, b"respond_to?", vec![name]),
            call(object, b"to_int", vec![]),
        ],
        vec![
            Answer::Created(name),
            Answer::Returned(Ok(Value::from_bool(true))),
            Answer::Returned(Ok(Value::from_int(99))),
        ],
    );
    assert_eq!(result, Ok(Converted::Int(99)));
}

#[test]
fn value_without_to_int_has_no_conversion() {
    let string = Value::new(Ruby::String, 40);
    let name = Value::new(Ruby::String, 50);
    let result = converse(
        string.implicitly_convert_to_int(),
        vec![Query::NewString(b"to_int".to_vec()), call(string, b"respond_to?", vec![name])],
        vec![Answer::Created(name), Answer::Returned(Ok(Value::from_bool(false)))],
    );
    assert_eq!(result, type_error("no implicit conversion of String into Integer"));
    let boolean = Value::from_bool(true);
    let result = converse(
        boolean.implicitly_convert_to_int(),
        vec![Query::NewString(b"to_int".to_vec()), call(boolean, b"respond_to?", vec![name])],
        vec![Answer::Created(name), Answer::Returned(Err(ArtichokeError::ExecutorFailure))],
    );
    assert_eq!(result, type_error("no implicit conversion of true into Integer"));
}

#[test]
fn failing_to_int_has_no_conversion() {
    let object = Value::new(Ruby::Object, 40);
    let class = Value::new(Ruby::Class, 41);
    let class_name = Value::new(Ruby::String, 42);
    let name = Value::new(Ruby::String, 50);
    let result = converse(
        object.implicitly_convert_to_int(),
        vec![
            Query::NewString(b"to_int".to_vec()),
            call(object, b"respond_to?", vec![name]),
            call(object, b"to_int", vec![]),
            call(object, b"class", vec![]),
            call(class, b"name", vec![]),
            Query::ReadString(class_name),
        ],
        vec![
            Answer::Created(name),
            Answer::Returned(Ok(Value::from_bool(true))),
            Answer::Returned(Err(ArtichokeError::UnreachableValue)),
            Answer::Returned(Ok(class)),
            Answer::Returned(Ok(class_name)),
            Answer::Bytes(Some(b"Widget".to_vec())),
        ],
    );
    assert_eq!(result, type_error("no implicit conversion of Widget into Integer"));
}

#[test]
fn to_int_that_gives_no_integer_is_reported() {
    let object = Value::new(Ruby::Object, 40);
    let class = Value::new(Ruby::Class, 41);
    let class_name = Value::new(Ruby::String, 42);
    let name = Value::new(Ruby::String, 50);
    let given = Value::new(Ruby::String, 60);
    let result = converse(
        object.implicitly_convert_to_int(),
        vec![
            Query::NewString(b"to_int".to_vec()),
            call(object, b"respond_to?", vec![name]),
            call(object, b"to_int", vec![]),
            call(object, b"class", vec![]),
            call(class, b"name", vec![]),
            Query::ReadString(class_name),
        ],
        vec![
            Answer::Created(name),
            Answer::Returned(Ok(Value::from_bool(true))),
            Answer::Returned(Ok(given)),
            Answer::Returned(Ok(class)),
            Answer::Returned(Ok(class_name)),
            Answer::Bytes(Some(b"Widget".to_vec())),
        ],
    );
    assert_eq!(result, type_error("can't convert Widget to Integer (Widget#to_int gives String)"));
}

#[test]
fn to_int_that_gives_an_object_names_both() {
    let object = Value::new(Ruby::Data, 40);
    let given = Value::new(Ruby::Object, 60);
    let name = Value::new(Ruby::String, 50);
    let class = Value::new(Ruby::Class, 41);
    let class_name = Value::new(Ruby::String, 42);
    let other_class = Value::new(Ruby::Class, 61);
    let other_name = Value::new(Ruby::String, 62);
    let result = converse(
        object.implicitly_convert_to_int(),
        vec![
            Query::NewString(b"to_int".to_vec()),
            call(object, b"respond_to?", vec![name]),
            call(object, b"to_int", vec![]),
            call(object, b"class", vec![]),
            call(class, b"name", vec![]),
            Query::ReadString(class_name),
            call(given, b"class", vec![]),
            call(other_class, b"name", vec![]),
            Query::ReadString(other_name),
        ],
        vec![
            Answer::Created(name),
            Answer::Returned(Ok(Value::from_bool(true))),
            Answer::Returned(Ok(given)),
            Answer::Returned(Ok(class)),
            Answer::Returned(Ok(class_name)),
            Answer::Bytes(Some(b"Widget".to_vec())),
            Answer::Returned(Ok(other_class)),
            Answer::Returned(Ok(other_name)),
            Answer::Bytes(Some(b"Gadget".to_vec())),
        ],
    );
    assert_eq!(result, type_error("can't convert Widget to Integer (Widget#to_int gives Gadget)"));
}

#[test]
fn string_converts_to_its_bytes() {
    let string = Value::new(Ruby::String, 40);
    let result = converse(
        string.implicitly_convert_to_string(),
        vec![Query::ReadString(string)],
        vec![Answer::Bytes(Some(b"interstate".to_vec()))],
    );
    assert_eq!(result, Ok(Converted::Bytes(b"interstate".to_vec())));
}

#[test]
fn to_str_converts_an_object() {
    let object = Value::new(Ruby::Object, 40);
    let name = Value::new(Ruby::String, 50);
    let given = Value::new(Ruby::String, 60);
    let result = converse(
        object.implicitly_convert_to_string(),
        vec![
            Query::NewString(b"to_str".to_vec()),
            call(object, b"respond_to?", vec![name]),
            call(object, b"to_str", vec![]),
            Query::ReadString(given),
        ],
        vec![
            Answer::Created(name),
            Answer::Returned(Ok(Value::from_bool(true))),
            Answer::Returned(Ok(given)),
            Answer::Bytes(Some(b"abc".to_vec())),
        ],
    );
    assert_eq!(result, Ok(Converted::Bytes(b"abc".to_vec())));
}

#[test]
fn to_str_that_gives_no_string_is_reported() {
    let number = Value::from_int(3);
    let name = Value::new(Ruby::String, 50);
    let result = converse(
        number.implicitly_convert_to_string(),
        vec![
            Query::NewString(b"to_str".to_vec()),
            call(number, b"respond_to?", vec![name]),
            call(number, b"to_str", vec![]),
        ],
        vec![
            Answer::Created(name),
            Answer::Returned(Ok(Value::from_bool(true))),
            Answer::Returned(Ok(Value::nil())),
        ],
    );
    assert_eq!(result, type_error("can't convert Fixnum to String (Fixnum#to_str gives nil)"));
}

#[test]
fn nil_has_no_conversion_to_string() {
    let name = Value::new(Ruby::String, 50);
    let result = converse(
        Value::nil().implicitly_convert_to_string(),
        vec![Query::NewString(b"to_str".to_vec()), call(Value::nil(), b"respond_to?", vec![name])],
        vec![Answer::Created(name), Answer::Returned(Ok(Value::from_bool(false)))],
    );
    assert_eq!(result, type_error("no implicit conversion of nil into String"));
}

#[test]
fn nil_converts_to_nilable_string() {
    assert_eq!(
        Value::nil().implicitly_convert_to_nilable_string(),
        Task::Done(Ok(Converted::Nil))
    );
    let string = Value::new(Ruby::String, 40);
    let result = converse(
        string.implicitly_convert_to_nilable_string(),
        vec![Query::ReadString(string)],
        vec![Answer::Bytes(Some(b"x".to_vec()))],
    );
    assert_eq!(result, Ok(Converted::Bytes(b"x".to_vec())));
    assert!(matches!(
        Implicit::start(Value::from_int(1), Target::NilableString),
        Task::Ask(_, Query::NewString(_))
    ));
}

#[test]
fn target_names() {
    assert_eq!(Target::Integer.class(), b"Integer");
    assert_eq!(Target::String.class(), b"String");
    assert_eq!(Target::NilableString.class(), b"String");
    assert_eq!(Target::Integer.method(), b"to_int");
    assert_eq!(Target::NilableString.method(), b"to_str");
}

#[test]
fn display_reads_the_string_that_was_returned() {
    let value = Value::from_int(255);
    let string = Value::new(Ruby::String, 9);
    match value.to_s() {
        Task::Ask(Display::Called, query) => assert_eq!(query, call(value, b"to_s", vec![])),
        other => panic!("{:?}", other),
    }
    match value.inspect() {
        Task::Ask(Display::Called, query) => assert_eq!(query, call(value, b"inspect", vec![])),
        other => panic!("{:?}", other),
    }
    assert_eq!(
        Display::Called.resume(Answer::Returned(Ok(string))),
        Task::Ask(Display::Reading, Query::ReadString(string))
    );
    assert_eq!(Display::Reading.resume(Answer::Bytes(Some(b"255".to_vec()))), Task::Done(b"255".to_vec()));
    assert_eq!(Display::Called.resume(Answer::Returned(Ok(Value::nil()))), Task::Done(Vec::new()));
    assert_eq!(
        Display::Called.resume(Answer::Returned(Err(ArtichokeError::ExecutorFailure))),
        Task::Done(Vec::new())
    );
    assert_eq!(Display::Reading.resume(Answer::Bytes(None)), Task::Done(Vec::new()));
}

#[test]
fn respond_to_asks_with_the_name_as_a_string() {
    let value = Value::from_int(1);
    let name = Value::new(Ruby::String, 3);
    assert_eq!(
        value.respond_to("to_int"),
        Task::Ask(RespondTo::Naming(value), Query::NewString(b"to_int".to_vec()))
    );
    assert_eq!(
        RespondTo::Naming(value).resume(Answer::Created(name)),
        Task::Ask(RespondTo::Called, call(value, b"respond_to?", vec![name]))
    );
    assert_eq!(
        RespondTo::Called.resume(Answer::Returned(Ok(Value::from_bool(true)))),
        Task::Done(Ok(true))
    );
    assert_eq!(
        RespondTo::Called.resume(Answer::Returned(Ok(Value::nil()))),
        Task::Done(Err(ArtichokeError::Type(TypeError::new(
            b"failed to convert from ruby NilClass to rust bool".to_vec()
        ))))
    );
    assert_eq!(
        RespondTo::Called.resume(Answer::Returned(Err(ArtichokeError::UnreachableValue))),
        Task::Done(Err(ArtichokeError::UnreachableValue))
    );
    assert_eq!(
        RespondTo::Naming(value).resume(Answer::Bytes(None)),
        Task::Done(Err(ArtichokeError::ExecutorFailure))
    );
}

#[test]
fn freeze_passes_the_error_on() {
    let value = Value::new(Ruby::String, 3);
    match value.freeze() {
        Task::Ask(Freeze, query) => assert_eq!(query, call(value, b"freeze", vec![])),
        other => panic!("{:?}", other),
    }
    assert_eq!(Freeze.resume(Answer::Returned(Ok(value))), Task::Done(Ok(())));
    assert_eq!(
        Freeze.resume(Answer::Returned(Err(ArtichokeError::ExecutorFailure))),
        Task::Done(Err(ArtichokeError::ExecutorFailure))
    );
    assert_eq!(
        Freeze.resume(Answer::Bytes(None)),
        Task::Done(Err(ArtichokeError::ExecutorFailure))
    );
}
