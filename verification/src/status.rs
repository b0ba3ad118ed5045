//! HTTP status codes, as far as reading a reply needs them.

use vstd::prelude::*;

verus! {

/// The text that `reqwest::StatusCode` displays for the status `code`: the
/// number, a space, and the reason phrase that the `http` crate's table
/// gives for it, or `<unknown status code>` where the table has none.
pub uninterp spec fn status_display(code: u16) -> Seq<char>;

/// The numbers that are HTTP status codes: those of three digits.
pub open spec fn is_status_code(code: u16) -> bool {
    100 <= code <= 999
}

/// The status codes that report success: 200 to 299.
pub open spec fn is_success_code(code: u16) -> bool {
    200 <= code <= 299
}

/// An HTTP status code. Every value holds a number of three digits.
#[derive(Clone, Copy, Debug, PartialEq, Eq)]
pub struct HttpStatus {
    code: u16,
}

impl View for HttpStatus {
    type V = u16;

    closed spec fn view(&self) -> u16 {
        self.code
    }
}

/// Calls `reqwest::StatusCode::from_u16` and displays the status. The
/// contract claims that the call accepts exactly the numbers from 100 to 999,
/// and names the text that is displayed for one of them.
#[verifier::external_body]
fn display_status(code: u16) -> (line: Option<String>)
    ensures
        line is Some <==> is_status_code(code),
        line matches Some(text) ==> text@ == status_display(code),
{
    match reqwest::StatusCode::from_u16(code) {
        Ok(status) => Some(status.to_string()),
        Err(_) => None,
    }
}

impl HttpStatus {
    #[verifier::type_invariant]
    spec fn has_three_digits(self) -> bool {
        is_status_code(self.code)
    }

    /// The status with the number `code`; `None` where `code` is no status
    /// code.
    pub fn new(code: u16) -> (status: Option<HttpStatus>)
        ensures
            status is Some <==> is_status_code(code),
            status matches Some(s) ==> s@ == code,
    {
        if 100 <= code && code <= 999 {
            Some(HttpStatus { code })
        } else {
            None
        }
    }

    /// The number of the status.
    pub fn code(&self) -> (code: u16)
        ensures
            code == self@,
            is_status_code(code),
    {
        proof {
            use_type_invariant(self);
        }
        self.code
    }

    /// Whether the status reports success.
    pub fn is_success(&self) -> (success: bool)
        ensures
            success == is_success_code(self@),
    {
        200 <= self.code && self.code <= 299
    }

    /// The status as it is shown in messages: number and reason phrase.
    pub fn describe(&self) -> (line: String)
        ensures
            line@ == status_display(self@),
    {
        proof {
            use_type_invariant(self);
        }
        match display_status(self.code) {
            Some(line) => line,
            None => String::new(),
        }
    }
}

} // verus!
