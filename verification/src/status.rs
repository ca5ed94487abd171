//! HTTP status codes as the library reads them: a number from 100 to 999.
use vstd::prelude::*;

verus! {

/// The reason phrase that `http::StatusCode`'s `Display` writes after the
/// number: the canonical reason of the code, or `<unknown status code>`.
pub uninterp spec fn reason_phrase(code: u16) -> Seq<char>;

/// The decimal digit `d` as a character.
pub open spec fn digit_char(d: nat) -> char {
    ((48 + d) as u32) as char
}

/// The decimal representation of `n`, without sign or leading zeros.
pub open spec fn decimal_text(n: nat) -> Seq<char>
    decreases n,
{
    if n < 10 {
        seq![digit_char(n)]
    } else {
        decimal_text(n / 10) + seq![digit_char(n % 10)]
    }
}

/// The text of a status code: the number, a space and the reason phrase,
/// such as `404 Not Found`.
pub open spec fn status_code_display(code: u16) -> Seq<char> {
    decimal_text(code as nat) + " "@ + reason_phrase(code)
}

/// An HTTP status code, between 100 and 999 inclusive.
#[derive(Clone, Copy, Debug, PartialEq, Eq, Structural)]
pub struct StatusCode {
    code: u16,
}

/// The error of [`StatusCode::from_u16`] for a number outside 100..=999.
#[derive(Clone, Copy, Debug, PartialEq, Eq, Structural)]
pub struct InvalidStatusCode;

impl View for StatusCode {
    type V = u16;

    closed spec fn view(&self) -> u16 {
        self.code
    }
}

/// `code` is a number that a status code may have.
pub open spec fn valid_status_number(code: int) -> bool {
    100 <= code <= 999
}

impl StatusCode {
    #[verifier::type_invariant]
    closed spec fn in_range(self) -> bool {
        valid_status_number(self.code as int)
    }

    /// The status code with number `code`.
    pub fn new(code: u16) -> (s: StatusCode)
        requires
            valid_status_number(code as int),
        ensures
            s@ == code,
    {
        StatusCode { code }
    }

    /// The status code with number `code`, or an error when `code` is not
    /// between 100 and 999.
    pub fn from_u16(code: u16) -> (r: Result<StatusCode, InvalidStatusCode>)
        ensures
            r is Ok <==> valid_status_number(code as int),
            r matches Ok(s) ==> s@ == code,
    {
        if 100 <= code && code <= 999 {
            Ok(StatusCode { code })
        } else {
            Err(InvalidStatusCode)
        }
    }

    /// The number of the status code.
    pub fn as_u16(&self) -> (n: u16)
        ensures
            n == self@,
            valid_status_number(n as int),
    {
        proof {
            use_type_invariant(self);
        }
        self.code
    }

    /// The code is within 200-299.
    pub fn is_success(&self) -> (b: bool)
        ensures
            b == (200 <= self@ < 300),
    {
        200 <= self.code && self.code < 300
    }

    /// The code is within 400-499.
    pub fn is_client_error(&self) -> (b: bool)
        ensures
            b == (400 <= self@ < 500),
    {
        400 <= self.code && self.code < 500
    }

    /// The code is within 500-599.
    pub fn is_server_error(&self) -> (b: bool)
        ensures
            b == (500 <= self@ < 600),
    {
        500 <= self.code && self.code < 600
    }

    /// The number followed by the canonical reason phrase, as `http` writes
    /// it, such as `404 Not Found`.
    pub fn to_string(&self) -> (s: String)
        ensures
            s@ == status_code_display(self@),
    {
        proof {
            use_type_invariant(self);
        }
        http_status_display(self.code)
    }
}

/// Calls `http::StatusCode::from_u16` and the `Display` of `http::StatusCode`;
/// claims that the text is the number in decimal, a space and
/// `reason_phrase` of the number. `from_u16` succeeds on every number from
/// 100 to 999.
#[verifier::external_body]
fn http_status_display(code: u16) -> (s: String)
    requires
        valid_status_number(code as int),
    ensures
        s@ == decimal_text(code as nat) + " "@ + reason_phrase(code),
{
    http::StatusCode::from_u16(code).unwrap().to_string()
}

} // verus!
