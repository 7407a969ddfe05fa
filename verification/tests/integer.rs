use artichoke_backend::integer::{
    chars_of, finish, parse_integer, plan, radix_for, IntegerError, Plan,
};
use artichoke_backend::types::Ruby;
use artichoke_backend::value::Value;
use artichoke_backend::kernel::Kernel;

fn invalid(text: &str) -> Result<i64, IntegerError> {
    Err(IntegerError::InvalidValue(text.chars().collect()))
}

#[test]
fn decimal_text_is_parsed() {
    assert_eq!(Kernel::integer("123", None), Ok(123));
    assert_eq!(Kernel::integer("0", None), Ok(0));
    assert_eq!(Kernel::integer("08", None), Ok(8));
    assert_eq!(Kernel::integer("9223372036854775807", None), Ok(i64::MAX));
    assert_eq!(Kernel::integer("-9223372036854775808", None), Ok(i64::MIN));
}

#[test]
fn text_that_overflows_is_invalid() {
    assert_eq!(Kernel::integer("9223372036854775808", None), invalid("9223372036854775808"));
}

#[test]
fn sign_is_kept() {
    assert_eq!(Kernel::integer("-123", None), Ok(-123));
    assert_eq!(Kernel::integer("+7", None), Ok(7));
    assert_eq!(Kernel::integer("-0x1A", None), Ok(-26));
    // The error shows the text without its sign.
    assert_eq!(Kernel::integer("--5", None), invalid("-5"));
    assert_eq!(Kernel::integer("-", None), invalid(""));
}

#[test]
fn white_space_around_the_text_is_dropped() {
    assert_eq!(Kernel::integer("  42  ", None), Ok(42));
    assert_eq!(Kernel::integer("\t\n42\r\n", None), Ok(42));
    // U+00A0 and U+3000 are white space, U+200B is not.
    assert_eq!(Kernel::integer("\u{a0}12\u{3000}", None), Ok(12));
    assert_eq!(Kernel::integer("\u{200b}12", None), invalid("\u{200b}12"));
    assert_eq!(Kernel::integer("1 2", None), invalid("1 2"));
    assert_eq!(Kernel::integer("   ", None), invalid(""));
}

#[test]
fn single_underscores_between_digits_are_dropped() {
    assert_eq!(Kernel::integer("1_000", None), Ok(1000));
    assert_eq!(Kernel::integer("1_2_3", None), Ok(123));
    assert_eq!(Kernel::integer("0_8", None), Ok(8));
}

#[test]
fn misplaced_underscores_are_invalid() {
    assert_eq!(Kernel::integer("_1", None), invalid("_1"));
    assert_eq!(Kernel::integer("1_", None), invalid("1_"));
    assert_eq!(Kernel::integer("1__0", None), invalid("1__0"));
    assert_eq!(Kernel::integer("1___0", None), invalid("1___0"));
    assert_eq!(Kernel::integer(" 1__0 ", None), invalid(" 1__0 "));
    assert_eq!(Kernel::integer("_", None), invalid("_"));
}

#[test]
fn prefix_names_the_radix() {
    assert_eq!(Kernel::integer("0b101", None), Ok(5));
    assert_eq!(Kernel::integer("0B101", None), Ok(5));
    assert_eq!(Kernel::integer("0o17", None), Ok(15));
    assert_eq!(Kernel::integer("0O17", None), Ok(15));
    assert_eq!(Kernel::integer("0d19", None), Ok(19));
    assert_eq!(Kernel::integer("0D19", None), Ok(19));
    assert_eq!(Kernel::integer("0x1A", None), Ok(26));
    assert_eq!(Kernel::integer("0Xff", None), Ok(255));
    assert_eq!(Kernel::integer("017", None), Ok(15));
    assert_eq!(Kernel::integer("007", None), Ok(7));
    assert_eq!(Kernel::integer("018", None), invalid("018"));
    assert_eq!(Kernel::integer("0b102", None), invalid("0b102"));
}

#[test]
fn prefix_needs_more_than_two_characters() {
    assert_eq!(Kernel::integer("0x", None), invalid("0x"));
    assert_eq!(Kernel::integer("07", None), Ok(7));
    assert_eq!(Kernel::integer("09", None), Ok(9));
}

#[test]
fn radix_is_used() {
    assert_eq!(Kernel::integer("11", Some(2)), Ok(3));
    assert_eq!(Kernel::integer("z", Some(36)), Ok(35));
    assert_eq!(Kernel::integer("Z", Some(36)), Ok(35));
    assert_eq!(Kernel::integer("12", Some(2)), invalid("12"));
    assert_eq!(Kernel::integer("-ff", Some(16)), Ok(-255));
}

#[test]
fn radix_out_of_range_is_refused() {
    assert_eq!(Kernel::integer("10", Some(1)), Err(IntegerError::InvalidRadix(1)));
    assert_eq!(Kernel::integer("10", Some(37)), Err(IntegerError::InvalidRadix(37)));
    assert_eq!(Kernel::integer("10", Some(0)), Err(IntegerError::InvalidRadix(0)));
    assert_eq!(Kernel::integer("10", Some(-2)), Err(IntegerError::InvalidRadix(-2)));
    assert_eq!(Kernel::integer("10", Some(2)), Ok(2));
    assert_eq!(Kernel::integer("10", Some(36)), Ok(36));
}

#[test]
fn radix_must_agree_with_the_prefix() {
    assert_eq!(Kernel::integer("0x1A", Some(16)), Ok(26));
    assert_eq!(Kernel::integer("0x1A", Some(8)), invalid("0x1A"));
    assert_eq!(Kernel::integer("017", Some(8)), Ok(15));
    assert_eq!(Kernel::integer("017", Some(10)), invalid("017"));
    // A prefix is judged before the radix's range.
    assert_eq!(Kernel::integer("0b11", Some(99)), invalid("0b11"));
}

#[test]
fn nul_is_refused() {
    assert_eq!(Kernel::integer("1\u{0}2", None), Err(IntegerError::NullByte));
    assert_eq!(Kernel::integer("\u{0}", None), Err(IntegerError::NullByte));
}

#[test]
fn empty_text_is_invalid() {
    assert_eq!(Kernel::integer("", None), invalid(""));
    assert_eq!(parse_integer("", Some(10)), invalid(""));
}

#[test]
fn chars_of_gives_every_character() {
    assert_eq!(chars_of("a\u{e9}z"), vec!['a', '\u{e9}', 'z']);
    assert_eq!(chars_of(""), Vec::<char>::new());
}

#[test]
fn plan_sets_the_sign_and_the_prefix_apart() {
    let body: Vec<char> = "-0x1A".chars().collect();
    assert_eq!(
        plan(&body, None),
        Ok(Plan { digits: "-1A".chars().collect(), radix: 16, shown: "0x1A".chars().collect() })
    );
    let body: Vec<char> = "017".chars().collect();
    assert_eq!(
        plan(&body, Some(8)),
        Ok(Plan { digits: "17".chars().collect(), radix: 8, shown: "017".chars().collect() })
    );
    let body: Vec<char> = "+12".chars().collect();
    assert_eq!(
        plan(&body, Some(36)),
        Ok(Plan { digits: "+12".chars().collect(), radix: 36, shown: "12".chars().collect() })
    );
    let body: Vec<char> = "12".chars().collect();
    assert_eq!(plan(&body, Some(40)), Err(IntegerError::InvalidRadix(40)));
    assert_eq!(finish(Some(-3), Vec::new()), Ok(-3));
    assert_eq!(finish(None, vec!['x']), Err(IntegerError::InvalidValue(vec!['x'])));
}

#[test]
fn errors_are_rendered() {
    let shown = |e: IntegerError| -> String { e.message().into_iter().collect() };
    assert_eq!(
        shown(IntegerError::InvalidValue("1__0".chars().collect())),
        "invalid value for Integer(): \"1__0\""
    );
    assert_eq!(shown(IntegerError::InvalidValue(Vec::new())), "invalid value for Integer(): \"\"");
    assert_eq!(shown(IntegerError::NullByte), "string contains null byte");
    assert_eq!(shown(IntegerError::InvalidRadix(37)), "invalid radix 37");
    assert_eq!(shown(IntegerError::InvalidRadix(0)), "invalid radix 0");
    assert_eq!(shown(IntegerError::InvalidRadix(-2)), "invalid radix -2");
    assert_eq!(
        shown(IntegerError::InvalidRadix(i64::MIN)),
        "invalid radix -9223372036854775808"
    );
    assert_eq!(IntegerError::NullByte.name(), b"ArgumentError");
}

#[test]
fn base_is_refused_for_an_integer() {
    let text = Value::new(Ruby::String, 1);
    assert_eq!(radix_for(text, None), Ok(None));
    assert_eq!(radix_for(text, Some(Value::from_int(16))), Ok(Some(16)));
    assert_eq!(radix_for(text, Some(Value::nil())), Ok(None));
    assert_eq!(radix_for(text, Some(text)), Ok(None));
    assert_eq!(radix_for(Value::from_int(3), None), Ok(None));
    assert_eq!(radix_for(Value::from_int(3), Some(Value::nil())), Ok(None));
    assert_eq!(
        radix_for(Value::from_int(3), Some(Value::from_int(2))),
        Err(IntegerError::BaseForNonString)
    );
    let message: String = IntegerError::BaseForNonString.message().into_iter().collect();
    assert_eq!(message, "base specified for non string value");
}
