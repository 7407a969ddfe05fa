use artichoke_backend::error::{ArtichokeError, TypeError};
use artichoke_backend::securerandom::{
    alphanumeric, base64, hex, random_bytes, random_number, uuid, RandomNumber, Randomized,
};
use artichoke_backend::stdlib::{patch, Patch};
use artichoke_backend::task::{Answer, Query, Random, Task};
use artichoke_backend::types::Ruby;
use artichoke_backend::value::Value;
use artichoke_backend::vm::{Call, Package, Reply, Request, Step};

fn finish(first: Randomized, kind: Random, len: Option<i64>) {
    let task = match first {
        Task::Ask(task, query) => {
            assert_eq!(query, Query::Random(kind, len));
            task
        }
        other => panic!("{:?}", other),
    };
    let task = match task.resume(Answer::Generated(Ok(b"x9Zk".to_vec()))) {
        Task::Ask(task, query) => {
            assert_eq!(query, Query::NewString(b"x9Zk".to_vec()));
            task
        }
        other => panic!("{:?}", other),
    };
    let string = Value::new(Ruby::String, 77);
    assert_eq!(task.resume(Answer::Created(string)), Task::Done(Ok(string)));
}

#[test]
fn random_text_without_a_length() {
    finish(alphanumeric(None), Random::Alphanumeric, None);
    finish(base64(None), Random::Base64, None);
    finish(hex(None), Random::Hex, None);
    finish(random_bytes(None), Random::Bytes, None);
    finish(uuid(), Random::Uuid, None);
}

#[test]
fn random_text_with_an_integer_length() {
    finish(alphanumeric(Some(Value::from_int(4))), Random::Alphanumeric, Some(4));
    finish(hex(Some(Value::from_int(-1))), Random::Hex, Some(-1));
}

#[test]
fn length_is_converted_by_to_int() {
    let length = Value::new(Ruby::Object, 5);
    let name = Value::new(Ruby::String, 6);
    let task = match base64(Some(length)) {
        Task::Ask(task, query) => {
            assert_eq!(query, Query::NewString(b"to_int".to_vec()));
            task
        }
        other => panic!("{:?}", other),
    };
    let task = match task.resume(Answer::Created(name)) {
        Task::Ask(task, Query::Call(call)) => {
            assert_eq!(
                call,
                Call { receiver: length, method: b"respond_to?".to_vec(), args: vec![name], block: None }
            );
            task
        }
        other => panic!("{:?}", other),
    };
    let task = match task.resume(Answer::Returned(Ok(Value::from_bool(true)))) {
        Task::Ask(task, Query::Call(call)) => {
            assert_eq!(call.method, b"to_int");
            task
        }
        other => panic!("{:?}", other),
    };
    finish(task.resume(Answer::Returned(Ok(Value::from_int(12)))), Random::Base64, Some(12));
}

#[test]
fn length_that_is_no_integer_is_a_type_error() {
    assert_eq!(
        random_bytes(Some(Value::nil())),
        Task::Done(Err(ArtichokeError::Type(TypeError::new(
            b"no implicit conversion from nil to integer".to_vec()
        ))))
    );
}

#[test]
fn error_of_the_generator_is_passed_on() {
    let task = match hex(None) {
        Task::Ask(task, _) => task,
        other => panic!("{:?}", other),
    };
    let refused = ArtichokeError::Type(TypeError::new(b"negative string size".to_vec()));
    assert_eq!(
        task.resume(Answer::Generated(Err(ArtichokeError::Type(TypeError::new(
            b"negative string size".to_vec()
        ))))),
        Task::Done(Err(refused))
    );
}

#[test]
fn random_number_is_the_generators() {
    let max = Value::from_int(10);
    assert_eq!(
        random_number(Some(max)),
        Task::Ask(RandomNumber, Query::RandomNumber(Some(max)))
    );
    assert_eq!(
        RandomNumber.resume(Answer::Returned(Ok(Value::from_int(3)))),
        Task::Done(Ok(Value::from_int(3)))
    );
    assert_eq!(
        RandomNumber.resume(Answer::Bytes(None)),
        Task::Done(Err(ArtichokeError::ExecutorFailure))
    );
}

#[test]
fn packages_are_defined_in_order() {
    let mut step = patch();
    let mut asked = Vec::new();
    loop {
        match step {
            Step::Ask(machine, Request::InitPackage(package)) => {
                asked.push(package);
                step = machine.resume(Reply::Finished);
            }
            Step::Ask(_, other) => panic!("{:?}", other),
            Step::Done(result) => {
                assert_eq!(result, Ok(()));
                break;
            }
        }
    }
    assert_eq!(
        asked,
        vec![
            Package::Delegate,
            Package::Forwardable,
            Package::Monitor,
            Package::Ostruct,
            Package::SetLib
        ]
    );
}

#[test]
fn first_package_that_fails_ends_the_definition() {
    let step = Patch(Package::Forwardable).resume(Reply::Failed(ArtichokeError::UnreachableValue));
    assert_eq!(step, Step::Done(Err(ArtichokeError::UnreachableValue)));
    let step = Patch(Package::Monitor).resume(Reply::Opened(true));
    assert_eq!(step, Step::Done(Err(ArtichokeError::ExecutorFailure)));
}
