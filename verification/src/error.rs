//! Native result codes and the error that carries one.

use vstd::prelude::*;
use vstd::string::*;

verus! {

/// The native code that reports success.
pub const SUCCESS: i32 = 0;

/// The text that the binding crate prints for a native result code.
pub uninterp spec fn result_description(code: i32) -> Seq<char>;

/// Calls `Display` of `ash::vk::Result` on the result that
/// `ash::vk::Result::from_raw` makes from `code`. The text depends on the code
/// alone.
#[verifier::external_body]
fn describe_result(code: i32) -> (text: String)
    ensures
        text@ == result_description(code),
{
    ash::vk::Result::from_raw(code).to_string()
}

/// The ten decimal digits, by value.
pub open spec fn digit(d: int) -> char {
    if d == 0 {
        '0'
    } else if d == 1 {
        '1'
    } else if d == 2 {
        '2'
    } else if d == 3 {
        '3'
    } else if d == 4 {
        '4'
    } else if d == 5 {
        '5'
    } else if d == 6 {
        '6'
    } else if d == 7 {
        '7'
    } else if d == 8 {
        '8'
    } else {
        '9'
    }
}

/// A natural number in decimal, without leading zeros.
pub open spec fn decimal_nat(n: nat) -> Seq<char>
    decreases n,
{
    if n < 10 {
        seq![digit(n as int)]
    } else {
        decimal_nat(n / 10).push(digit((n % 10) as int))
    }
}

/// An integer in decimal, with a minus sign where it is negative.
pub open spec fn decimal(n: int) -> Seq<char> {
    if n < 0 {
        seq!['-'] + decimal_nat((-n) as nat)
    } else {
        decimal_nat(n as nat)
    }
}

/// The message of an error: the description of its code, then the code
/// itself in brackets.
pub open spec fn message_text(description: Seq<char>, code: i32) -> Seq<char> {
    description + seq!['.', ' ', '('] + decimal(code as int) + seq![')']
}

fn digit_text(d: u32) -> (text: &'static str)
    requires
        d < 10,
    ensures
        text@ == seq![digit(d as int)],
{
    proof {
        reveal_strlit("0");
        reveal_strlit("1");
        reveal_strlit("2");
        reveal_strlit("3");
        reveal_strlit("4");
        reveal_strlit("5");
        reveal_strlit("6");
        reveal_strlit("7");
        reveal_strlit("8");
        reveal_strlit("9");
    }
    let text = if d == 0 {
        "0"
    } else if d == 1 {
        "1"
    } else if d == 2 {
        "2"
    } else if d == 3 {
        "3"
    } else if d == 4 {
        "4"
    } else if d == 5 {
        "5"
    } else if d == 6 {
        "6"
    } else if d == 7 {
        "7"
    } else if d == 8 {
        "8"
    } else {
        "9"
    };
    assert(text@ =~= seq![digit(d as int)]);
    text
}

fn append_decimal(out: &mut String, n: u32)
    ensures
        final(out)@ == old(out)@ + decimal_nat(n as nat),
    decreases n,
{
    if n >= 10 {
        append_decimal(out, n / 10);
    }
    let ghost before = out@;
    out.append(digit_text(n % 10));
    proof {
        if n >= 10 {
            assert(out@ =~= old(out)@ + decimal_nat((n / 10) as nat).push(digit((n % 10) as int)));
        } else {
            assert(out@ =~= old(out)@ + seq![digit(n as int)]);
        }
    }
}

/// Writes the message of an error with the given description and code.
pub fn format_message(description: &str, code: i32) -> (text: String)
    ensures
        text@ == message_text(description@, code),
{
    let mut text = String::from_str(description);
    proof {
        reveal_strlit(". (");
        reveal_strlit("-");
        reveal_strlit(")");
    }
    text.append(". (");
    let ghost head = text@;
    assert(head =~= description@ + seq!['.', ' ', '(']);
    if code < 0 {
        text.append("-");
        let magnitude: u32 = (-(code as i64)) as u32;
        append_decimal(&mut text, magnitude);
        assert(text@ =~= head + decimal(code as int));
    } else {
        append_decimal(&mut text, code as u32);
        assert(text@ =~= head + decimal(code as int));
    }
    text.append(")");
    assert(text@ =~= message_text(description@, code));
    text
}

/// A failure that the native API reported, with its result code.
#[derive(Clone, Copy, Debug, PartialEq, Eq, Structural)]
pub struct Error {
    pub code: i32,
}

impl Error {
    /// The error for a native result code.
    pub fn new(code: i32) -> (error: Error)
        ensures
            error.code == code,
    {
        Error { code }
    }

    /// The native result code.
    pub fn code(&self) -> (code: i32)
        ensures
            code == self.code,
    {
        self.code
    }

    /// The message of this error: what the binding crate prints for the code,
    /// a full stop, and the code in brackets.
    pub fn message(&self) -> (text: String)
        ensures
            text@ == message_text(result_description(self.code), self.code),
    {
        let description = describe_result(self.code);
        format_message(description.as_str(), self.code)
    }
}

impl From<i32> for Error {
    fn from(code: i32) -> (error: Error) {
        Error { code }
    }
}

impl vstd::std_specs::convert::FromSpecImpl<i32> for Error {
    open spec fn obeys_from_spec() -> bool {
        true
    }

    open spec fn from_spec(code: i32) -> Error {
        Error { code }
    }
}

/// Turns the outcome of a native call into a result: the value on success,
/// the code as an error otherwise.
pub fn check<T>(code: i32, value: T) -> (outcome: Result<T, Error>)
    ensures
        code == SUCCESS ==> outcome == Ok::<T, Error>(value),
        code != SUCCESS ==> outcome == Err::<T, Error>(Error { code }),
{
    if code == SUCCESS {
        Ok(value)
    } else {
        Err(Error { code })
    }
}

} // verus!
