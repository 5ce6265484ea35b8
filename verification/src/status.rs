//! HTTP status codes.

use vstd::prelude::*;
use vstd::string::StringExecFns;

verus! {

/// An HTTP status code: a number of three digits.
#[derive(Clone, Copy, Debug, PartialEq, Eq)]
pub struct HttpStatus {
    code: u16,
}

/// The text that `http::StatusCode` prints for a code: the number, a space
/// and the standard reason phrase of the code, or a placeholder where the
/// code has none.
pub uninterp spec fn status_line(code: u16) -> Seq<char>;

/// The character of a decimal digit.
pub open spec fn digit_char(digit: int) -> char {
    if digit == 0 {
        '0'
    } else if digit == 1 {
        '1'
    } else if digit == 2 {
        '2'
    } else if digit == 3 {
        '3'
    } else if digit == 4 {
        '4'
    } else if digit == 5 {
        '5'
    } else if digit == 6 {
        '6'
    } else if digit == 7 {
        '7'
    } else if digit == 8 {
        '8'
    } else {
        '9'
    }
}

/// A three-digit number in decimal.
pub open spec fn three_digits(code: u16) -> Seq<char> {
    seq![digit_char(code as int / 100), digit_char(code as int / 10 % 10), digit_char(code as int % 10)]
}

/// Prints a status code the way `http::StatusCode` displays it.
///
/// Trusted: `http::StatusCode::from_u16` accepts exactly the codes from 100
/// to 999, and the `Display` of the status is a function of the code alone:
/// it writes the code in decimal, which has three digits, then a space and
/// the reason. The contract gives that text a name and says how it begins.
#[verifier::external_body]
fn display_status(code: u16) -> (text: Option<String>)
    ensures
        match text {
            Some(text) => 100 <= code <= 999 && text@ == status_line(code) && three_digits(
                code,
            ).is_prefix_of(text@),
            None => !(100 <= code <= 999),
        },
{
    match http::StatusCode::from_u16(code) {
        Ok(status) => Some(status.to_string()),
        Err(_) => None,
    }
}

/// One decimal digit as text.
fn digit_text(digit: u16) -> (text: &'static str)
    requires
        digit < 10,
    ensures
        text@ == seq![digit_char(digit as int)],
{
    proof {
        reveal_strlit("0");
        reveal_strlit("1");
        reveal_strlit("2");
        reveal_strlit("3");
        reveal_strlit("4");
        reveal_strlit("5");
        reveal_strlit("6");
        reveal_strlit("7");
        reveal_strlit("8");
        reveal_strlit("9");
    }
    let text = if digit == 0 {
        "0"
    } else if digit == 1 {
        "1"
    } else if digit == 2 {
        "2"
    } else if digit == 3 {
        "3"
    } else if digit == 4 {
        "4"
    } else if digit == 5 {
        "5"
    } else if digit == 6 {
        "6"
    } else if digit == 7 {
        "7"
    } else if digit == 8 {
        "8"
    } else {
        "9"
    };
    assert(text@ =~= seq![digit_char(digit as int)]);
    text
}

impl HttpStatus {
    #[verifier::type_invariant]
    spec fn in_range(self) -> bool {
        100 <= self.code <= 999
    }

    /// The number of the status.
    pub closed spec fn code(self) -> u16 {
        self.code
    }

    /// The status with the given number, if the number has three digits.
    pub fn new(code: u16) -> (status: Option<HttpStatus>)
        ensures
            match status {
                Some(status) => 100 <= code <= 999 && status.code() == code,
                None => !(100 <= code <= 999),
            },
    {
        if 100 <= code && code <= 999 {
            Some(HttpStatus { code })
        } else {
            None
        }
    }

    /// The number of the status, which has three digits.
    pub fn as_u16(&self) -> (code: u16)
        ensures
            code == self.code(),
            100 <= code <= 999,
    {
        proof {
            use_type_invariant(self);
        }
        self.code
    }

    /// Whether the status reports success: a code from 200 to 299.
    pub fn is_success(&self) -> (success: bool)
        ensures
            success == (200 <= self.code() <= 299),
    {
        200 <= self.code && self.code <= 299
    }

    /// The status as a person reads it: the number and its reason phrase.
    pub fn display(&self) -> (text: String)
        ensures
            text@ == status_line(self.code()),
            three_digits(self.code()).is_prefix_of(text@),
    {
        proof {
            use_type_invariant(self);
        }
        display_status(self.code).unwrap()
    }

    /// The number of the status in decimal.
    pub fn digits(&self) -> (text: String)
        ensures
            text@ == three_digits(self.code()),
    {
        proof {
            use_type_invariant(self);
        }
        let mut text = String::from_str(digit_text(self.code / 100));
        text.append(digit_text(self.code / 10 % 10));
        text.append(digit_text(self.code % 10));
        assert(text@ =~= three_digits(self.code()));
        text
    }
}

} // verus!
