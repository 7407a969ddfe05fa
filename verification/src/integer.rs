//! `Kernel#Integer`: parsing an integer from text.
//!
//! The text may hold single underscores between its digits, white space
//! around them, a sign, and a prefix that names the radix. What remains is
//! parsed by the standard library.

use vstd::prelude::*;
use vstd::string::*;
use crate::bytes::{bytes_of, decimal, digits, text};
use crate::types::Ruby;
use crate::value::Value;

verus! {

/// Whether `text` holds two underscores in a row.
pub open spec fn has_underscore_run(text: Seq<char>) -> bool {
    exists|i: int| 0 <= i && i + 1 < text.len() && text[i] == '_' && #[trigger] text[i + 1] == '_'
}

/// What `i64::from_str_radix` gives for `digits` in `radix`, `None` where it
/// gives an error.
pub uninterp spec fn int_from_str_radix(digits: Seq<char>, radix: u32) -> Option<i64>;

/// Whether Unicode counts `c` as white space, as `char::is_whitespace`
/// tells.
pub uninterp spec fn white_space(c: char) -> bool;

/// Calls `regex::Regex::new` on `pattern` and `Regex::is_match` on `text`.
/// For the pattern `__+` (an underscore followed by one or more underscores),
/// a match anywhere in `text` is a run of two underscores.
#[verifier::external_body]
fn is_match(pattern: &str, text: &str) -> (found: bool)
    requires
        pattern@ == "__+"@,
    ensures
        found == has_underscore_run(text@),
{
    match regex::Regex::new(pattern) {
        Ok(re) => re.is_match(text),
        Err(_) => false,
    }
}

/// Calls `i64::from_str_radix` on the text that `digits` spell, and gives
/// `None` for its error. The call panics for a radix outside `2..=36`, which
/// the precondition rules out. Nothing is claimed of the result but that it
/// depends on the text and the radix alone.
#[verifier::external_body]
fn from_str_radix(digits: &Vec<char>, radix: u32) -> (parsed: Option<i64>)
    requires
        2 <= radix <= 36,
    ensures
        parsed == int_from_str_radix(digits@, radix),
{
    let text: String = digits.iter().collect();
    i64::from_str_radix(text.as_str(), radix).ok()
}

/// Calls `char::is_whitespace`. Nothing is claimed of the result but that it
/// depends on the character alone.
#[verifier::external_body]
fn is_whitespace(c: char) -> (white: bool)
    ensures
        white == white_space(c),
{
    c.is_whitespace()
}

/// `text` without its underscores.
pub open spec fn without_underscores(text: Seq<char>) -> Seq<char>
    decreases text.len(),
{
    if text.len() == 0 {
        Seq::<char>::empty()
    } else if text.last() == '_' {
        without_underscores(text.drop_last())
    } else {
        without_underscores(text.drop_last()).push(text.last())
    }
}

/// The number of white space characters at the start of `text`.
pub open spec fn leading(text: Seq<char>) -> nat
    decreases text.len(),
{
    if text.len() > 0 && white_space(text[0]) {
        1 + leading(text.drop_first())
    } else {
        0
    }
}

/// The number of white space characters at the end of `text`.
pub open spec fn trailing(text: Seq<char>) -> nat
    decreases text.len(),
{
    if text.len() > 0 && white_space(text.last()) {
        1 + trailing(text.drop_last())
    } else {
        0
    }
}

/// `text` without the white space at its start and at its end.
pub open spec fn trimmed(text: Seq<char>) -> Seq<char> {
    let rest = text.subrange(leading(text) as int, text.len() as int);
    rest.subrange(0, rest.len() - trailing(rest))
}

/// Whether `text` begins with a sign.
pub open spec fn is_signed(text: Seq<char>) -> bool {
    text.len() > 0 && (text[0] == '-' || text[0] == '+')
}

/// `text` without its sign.
pub open spec fn unsigned(text: Seq<char>) -> Seq<char> {
    if is_signed(text) {
        text.drop_first()
    } else {
        text
    }
}

/// Whether `text` begins with a prefix that names a radix: a zero, followed
/// by more than one character.
pub open spec fn is_prefixed(text: Seq<char>) -> bool {
    text.len() > 2 && text[0] == '0'
}

/// The radix that a letter after the leading zero names.
pub open spec fn letter_radix(letter: char) -> Option<i64> {
    if letter == 'b' || letter == 'B' {
        Some(2)
    } else if letter == 'o' || letter == 'O' {
        Some(8)
    } else if letter == 'd' || letter == 'D' {
        Some(10)
    } else if letter == 'x' || letter == 'X' {
        Some(16)
    } else {
        None
    }
}

/// The radix that the prefix of `text` names: that of the letter after the
/// leading zero, and eight for a leading zero alone.
pub open spec fn prefix_radix(text: Seq<char>) -> Option<i64> {
    if is_prefixed(text) {
        match letter_radix(text[1]) {
            Some(radix) => Some(radix),
            None => Some(8),
        }
    } else {
        None
    }
}

/// The digits of `text`: what follows its prefix.
pub open spec fn after_prefix(text: Seq<char>) -> Seq<char> {
    if is_prefixed(text) {
        if letter_radix(text[1]) is Some {
            text.subrange(2, text.len() as int)
        } else {
            text.subrange(1, text.len() as int)
        }
    } else {
        text
    }
}

/// Why a text is no integer.
#[derive(Debug, PartialEq, Eq)]
pub enum IntegerError {
    /// Carries the text that was refused.
    InvalidValue(Vec<char>),
    NullByte,
    /// Carries the radix that was refused.
    InvalidRadix(i64),
    /// A radix was given for an argument that is an integer already.
    BaseForNonString,
}

pub enum IntegerFault {
    InvalidValue(Seq<char>),
    NullByte,
    InvalidRadix(i64),
    BaseForNonString,
}

impl View for IntegerError {
    type V = IntegerFault;

    open spec fn view(&self) -> IntegerFault {
        match self {
            IntegerError::InvalidValue(text) => IntegerFault::InvalidValue(text@),
            IntegerError::NullByte => IntegerFault::NullByte,
            IntegerError::InvalidRadix(radix) => IntegerFault::InvalidRadix(*radix),
            IntegerError::BaseForNonString => IntegerFault::BaseForNonString,
        }
    }
}

/// `number` in decimal digits, with a minus sign if it is negative.
pub open spec fn signed_digits(number: int) -> Seq<char> {
    if number < 0 {
        seq!['-'] + Seq::new(digits((-number) as nat).len(), |i: int| digits((-number) as nat)[i] as char)
    } else {
        Seq::new(digits(number as nat).len(), |i: int| digits(number as nat)[i] as char)
    }
}

fn signed_decimal(number: i64) -> (out: Vec<char>)
    ensures
        out@ == signed_digits(number as int),
{
    let mut out: Vec<char> = Vec::new();
    let magnitude: u64 = if number < 0 {
        out.push('-');
        (-(number + 1)) as u64 + 1
    } else {
        number as u64
    };
    let ghost sign = out@;
    let bytes = decimal(magnitude);
    let mut i: usize = 0;
    while i < bytes.len()
        invariant
            i <= bytes.len(),
            out@ == sign + Seq::new(i as nat, |j: int| bytes@[j] as char),
        decreases bytes.len() - i,
    {
        out.push(bytes[i] as char);
        i += 1;
        assert(out@ =~= sign + Seq::new(i as nat, |j: int| bytes@[j] as char));
    }
    assert(out@ =~= signed_digits(number as int));
    out
}

impl IntegerError {
    /// The message of the exception that reports this error to the VM.
    pub open spec fn spec_message(self) -> Seq<char> {
        match self {
            IntegerError::InvalidValue(shown) => "invalid value for Integer(): \""@ + shown@ + "\""@,
            IntegerError::NullByte => "string contains null byte"@,
            IntegerError::InvalidRadix(radix) => "invalid radix "@ + signed_digits(radix as int),
            IntegerError::BaseForNonString => "base specified for non string value"@,
        }
    }

    /// The class of the exception that reports this error to the VM.
    pub fn name(&self) -> (name: Vec<u8>)
        ensures
            name@ == text("ArgumentError"),
    {
        bytes_of("ArgumentError")
    }

    pub fn message(&self) -> (message: Vec<char>)
        ensures
            message@ == self.spec_message(),
    {
        match self {
            IntegerError::InvalidValue(shown) => {
                let mut message: Vec<char> = chars_of("invalid value for Integer(): \"");
                let mut i: usize = 0;
                let ghost head = message@;
                while i < shown.len()
                    invariant
                        i <= shown.len(),
                        message@ == head + shown@.subrange(0, i as int),
                    decreases shown.len() - i,
                {
                    message.push(shown[i]);
                    i += 1;
                    assert(message@ =~= head + shown@.subrange(0, i as int));
                }
                assert(shown@.subrange(0, shown.len() as int) =~= shown@);
                let mut tail: Vec<char> = chars_of("\"");
                message.append(&mut tail);
                message
            },
            IntegerError::NullByte => chars_of("string contains null byte"),
            IntegerError::InvalidRadix(radix) => {
                let mut message: Vec<char> = chars_of("invalid radix ");
                let mut number = signed_decimal(*radix);
                message.append(&mut number);
                message
            },
            IntegerError::BaseForNonString => chars_of("base specified for non string value"),
        }
    }
}

/// Whether the underscores of `arg` rule it out: one at its start or end, or
/// two in a row.
pub open spec fn misplaced_underscores(arg: Seq<char>) -> bool {
    ||| arg.len() > 0 && (arg[0] == '_' || arg.last() == '_')
    ||| has_underscore_run(arg)
}

/// What is handed to the standard library: the digits with their sign, the
/// radix, and the text that an error reports.
#[derive(Debug, PartialEq, Eq)]
pub struct Plan {
    pub digits: Vec<char>,
    pub radix: u32,
    pub shown: Vec<char>,
}

pub struct PlanView {
    pub digits: Seq<char>,
    pub radix: u32,
    pub shown: Seq<char>,
}

impl View for Plan {
    type V = PlanView;

    open spec fn view(&self) -> PlanView {
        PlanView { digits: self.digits@, radix: self.radix, shown: self.shown@ }
    }
}

/// What is to be parsed of `body`, a text without underscores and without
/// white space around it.
///
/// The sign is set aside; what remains must hold no NUL. A prefix names the
/// radix and must agree with a radix that is given; a radix that is given
/// without a prefix must lie between 2 and 36. Without prefix and radix the
/// text is decimal. The sign and the digits after the prefix are to be
/// parsed, and an error reports the text without its sign.
pub open spec fn planned(body: Seq<char>, radix: Option<i64>) -> Result<PlanView, IntegerFault> {
    let text = unsigned(body);
    let sign = body.subrange(0, body.len() - text.len());
    let digits = sign + after_prefix(text);
    if text.contains('\0') {
        Err(IntegerFault::NullByte)
    } else {
        match (radix, prefix_radix(text)) {
            (Some(given), Some(named)) => if given != named {
                Err(IntegerFault::InvalidValue(text))
            } else {
                Ok(PlanView { digits, radix: given as u32, shown: text })
            },
            (Some(given), None) => if given < 2 || given > 36 {
                Err(IntegerFault::InvalidRadix(given))
            } else {
                Ok(PlanView { digits, radix: given as u32, shown: text })
            },
            (None, Some(named)) => Ok(PlanView { digits, radix: named as u32, shown: text }),
            (None, None) => Ok(PlanView { digits, radix: 10, shown: text }),
        }
    }
}

/// The integer that was parsed, or the error for a text that the standard
/// library did not take.
pub open spec fn finished(parsed: Option<i64>, shown: Seq<char>) -> Result<i64, IntegerFault> {
    match parsed {
        Some(value) => Ok(value),
        None => Err(IntegerFault::InvalidValue(shown)),
    }
}

/// The integer that `arg` denotes.
///
/// Misplaced underscores rule the text out as it stands. Else the
/// underscores and the white space around the text are dropped, and what is
/// planned for the rest is parsed by the standard library.
pub open spec fn integer(arg: Seq<char>, radix: Option<i64>) -> Result<i64, IntegerFault> {
    if misplaced_underscores(arg) {
        Err(IntegerFault::InvalidValue(arg))
    } else {
        match planned(trimmed(without_underscores(arg)), radix) {
            Ok(plan) => finished(int_from_str_radix(plan.digits, plan.radix), plan.shown),
            Err(fault) => Err(fault),
        }
    }
}

/// The characters of `text`.
pub fn chars_of(text: &str) -> (chars: Vec<char>)
    ensures
        chars@ == text@,
{
    let n: usize = text.unicode_len();
    let mut chars: Vec<char> = Vec::new();
    let mut i: usize = 0;
    while i < n
        invariant
            i <= n,
            n == text@.len(),
            chars@ == text@.subrange(0, i as int),
        decreases n - i,
    {
        chars.push(text.get_char(i));
        i += 1;
        assert(chars@ =~= text@.subrange(0, i as int));
    }
    assert(text@.subrange(0, n as int) =~= text@);
    chars
}

fn slice_of(text: &Vec<char>, from: usize, to: usize) -> (part: Vec<char>)
    requires
        from <= to <= text@.len(),
    ensures
        part@ == text@.subrange(from as int, to as int),
{
    let mut part: Vec<char> = Vec::new();
    let mut i: usize = from;
    while i < to
        invariant
            from <= i <= to <= text@.len(),
            part@ == text@.subrange(from as int, i as int),
        decreases to - i,
    {
        part.push(text[i]);
        i += 1;
        assert(part@ =~= text@.subrange(from as int, i as int));
    }
    part
}

fn strip_underscores(text: &Vec<char>) -> (kept: Vec<char>)
    ensures
        kept@ == without_underscores(text@),
{
    let mut kept: Vec<char> = Vec::new();
    let mut i: usize = 0;
    assert(text@.subrange(0, 0) =~= Seq::<char>::empty());
    while i < text.len()
        invariant
            i <= text.len(),
            kept@ == without_underscores(text@.subrange(0, i as int)),
        decreases text.len() - i,
    {
        let ghost upto = text@.subrange(0, i + 1);
        assert(upto.drop_last() =~= text@.subrange(0, i as int));
        assert(upto.last() == text[i as int]);
        if text[i] != '_' {
            kept.push(text[i]);
        }
        i += 1;
    }
    assert(text@.subrange(0, text.len() as int) =~= text@);
    kept
}

fn trim(text: &Vec<char>) -> (kept: Vec<char>)
    ensures
        kept@ == trimmed(text@),
{
    let n: usize = text.len();
    let mut start: usize = 0;
    assert(text@.subrange(0, n as int) =~= text@);
    while start < n && is_whitespace(text[start])
        invariant
            start <= n,
            n == text@.len(),
            leading(text@) == start + leading(text@.subrange(start as int, n as int)),
        decreases n - start,
    {
        let ghost here = text@.subrange(start as int, n as int);
        assert(here.drop_first() =~= text@.subrange(start + 1, n as int));
        start += 1;
    }
    assert(leading(text@) == start) by {
        let here = text@.subrange(start as int, n as int);
        if start < n {
            assert(here[0] == text[start as int]);
        }
    }
    let ghost rest = text@.subrange(start as int, n as int);
    let mut end: usize = n;
    assert(rest.subrange(0, n - start) =~= rest);
    while end > start && is_whitespace(text[end - 1])
        invariant
            start <= end <= n,
            n == text@.len(),
            rest == text@.subrange(start as int, n as int),
            trailing(rest) == (n - end) + trailing(rest.subrange(0, end - start)),
        decreases end,
    {
        let ghost here = rest.subrange(0, end - start);
        assert(here.last() == text[end - 1]);
        assert(here.drop_last() =~= rest.subrange(0, end - 1 - start));
        end -= 1;
    }
    assert(trailing(rest) == n - end) by {
        let here = rest.subrange(0, end - start);
        if end > start {
            assert(here.last() == text[end - 1]);
        }
    }
    let kept = slice_of(text, start, end);
    assert(kept@ =~= rest.subrange(0, rest.len() - trailing(rest)));
    kept
}

fn has_nul(text: &Vec<char>) -> (found: bool)
    ensures
        found == text@.contains('\0'),
{
    let mut i: usize = 0;
    while i < text.len()
        invariant
            i <= text.len(),
            forall|j: int| 0 <= j < i ==> text@[j] != '\0',
        decreases text.len() - i,
    {
        if text[i] == '\0' {
            return true;
        }
        i += 1;
    }
    false
}

fn radix_of(letter: char) -> (radix: Option<i64>)
    ensures
        radix == letter_radix(letter),
{
    if letter == 'b' || letter == 'B' {
        Some(2)
    } else if letter == 'o' || letter == 'O' {
        Some(8)
    } else if letter == 'd' || letter == 'D' {
        Some(10)
    } else if letter == 'x' || letter == 'X' {
        Some(16)
    } else {
        None
    }
}

/// The radix that `base` gives: its integer, and none for `nil`, for no
/// value, and for a value that is no integer.
pub open spec fn radix_of_base(base: Option<Value>) -> Option<i64> {
    match base {
        Some(value) => value@.to_int(),
        None => None,
    }
}

/// The radix for parsing `arg`, as `base` gives it. A radix is refused for an
/// argument that is an integer already.
pub fn radix_for(arg: Value, base: Option<Value>) -> (r: Result<Option<i64>, IntegerError>)
    ensures
        r == if arg@.tag == Ruby::Fixnum && radix_of_base(base) is Some {
            Err::<Option<i64>, IntegerError>(IntegerError::BaseForNonString)
        } else {
            Ok::<Option<i64>, IntegerError>(radix_of_base(base))
        },
{
    let radix: Option<i64> = match base {
        Some(value) => value.try_into_int(),
        None => None,
    };
    match (arg.ruby_type(), radix) {
        (Ruby::Fixnum, Some(_)) => Err(IntegerError::BaseForNonString),
        _ => Ok(radix),
    }
}

/// Decide what is to be parsed of `body`, a text without underscores and
/// without white space around it.
pub fn plan(body: &Vec<char>, radix: Option<i64>) -> (r: Result<Plan, IntegerError>)
    ensures
        match r {
            Ok(plan) => planned(body@, radix) == Ok::<PlanView, IntegerFault>(plan@) && 2
                <= plan.radix <= 36,
            Err(e) => planned(body@, radix) == Err::<PlanView, IntegerFault>(e@),
        },
{
    let signed: bool = body.len() > 0 && (body[0] == '-' || body[0] == '+');
    let from: usize = if signed { 1 } else { 0 };
    let text: Vec<char> = slice_of(body, from, body.len());
    assert(text@ =~= unsigned(body@));
    let mut digits: Vec<char> = slice_of(body, 0, from);
    let ghost sign = digits@;
    assert(sign =~= body@.subrange(0, body@.len() - text@.len()));
    if has_nul(&text) {
        return Err(IntegerError::NullByte);
    }
    let mut named: Option<i64> = None;
    let mut skip: usize = 0;
    if text.len() > 2 && text[0] == '0' {
        match radix_of(text[1]) {
            Some(r) => {
                named = Some(r);
                skip = 2;
            },
            None => {
                named = Some(8);
                skip = 1;
            },
        }
    }
    let mut i: usize = skip;
    while i < text.len()
        invariant
            skip <= i <= text.len(),
            digits@ == sign + text@.subrange(skip as int, i as int),
        decreases text.len() - i,
    {
        digits.push(text[i]);
        i += 1;
        assert(digits@ =~= sign + text@.subrange(skip as int, i as int));
    }
    assert(text@.subrange(0, text.len() as int) =~= text@);
    assert(digits@ == sign + after_prefix(text@));
    let chosen: i64 = match (radix, named) {
        (Some(given), Some(named)) => {
            if given != named {
                return Err(IntegerError::InvalidValue(text));
            }
            given
        },
        (Some(given), None) => {
            if given < 2 || given > 36 {
                return Err(IntegerError::InvalidRadix(given));
            }
            given
        },
        (None, Some(named)) => named,
        (None, None) => 10,
    };
    Ok(Plan { digits, radix: chosen as u32, shown: text })
}

/// The integer that the standard library parsed, or the error for a text
/// that it did not take; `shown` is the text that the error reports.
pub fn finish(parsed: Option<i64>, shown: Vec<char>) -> (r: Result<i64, IntegerError>)
    ensures
        match r {
            Ok(value) => finished(parsed, shown@) == Ok::<i64, IntegerFault>(value),
            Err(e) => finished(parsed, shown@) == Err::<i64, IntegerFault>(e@),
        },
{
    match parsed {
        Some(value) => Ok(value),
        None => Err(IntegerError::InvalidValue(shown)),
    }
}

/// Parse the integer that `arg` denotes, in `radix` where one is given.
pub fn parse_integer(arg: &str, radix: Option<i64>) -> (r: Result<i64, IntegerError>)
    ensures
        match r {
            Ok(value) => integer(arg@, radix) == Ok::<i64, IntegerFault>(value),
            Err(e) => integer(arg@, radix) == Err::<i64, IntegerFault>(e@),
        },
{
    let given_text: Vec<char> = chars_of(arg);
    let n: usize = given_text.len();
    if (n > 0 && (given_text[0] == '_' || given_text[n - 1] == '_')) || is_match("__+", arg) {
        return Err(IntegerError::InvalidValue(given_text));
    }
    let body: Vec<char> = trim(&strip_underscores(&given_text));
    match plan(&body, radix) {
        Ok(plan) => {
            let Plan { digits, radix, shown } = plan;
            finish(from_str_radix(&digits, radix), shown)
        },
        Err(e) => Err(e),
    }
}

} // verus!
