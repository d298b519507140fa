//! Error bodies returned by the gateway and the router error built from them.
use vstd::prelude::*;
use crate::connector::Uprimerpay;
use crate::errors::ConnectorError;
use crate::router_data::opt_view;
use crate::text::{hex_digit, hex_digit_char};

verus! {

/// The error code UprimerPay uses for success; it also stands in when an
/// error body carries no code.
pub const UPRIMERPAY_SUCCESS_CODE: &'static str = "00000000";
/// The fallback error message when an error body carries none.
pub const UPRIMERPAY_DEFAULT_ERROR_MESSAGE: &'static str = "UprimerPay request failed";
/// The error code reported when an error body cannot be read.
pub const NO_ERROR_CODE: &'static str = "No error code";
/// The error message reported when an error body cannot be read.
pub const NO_ERROR_MESSAGE: &'static str = "No error message";

#[verifier::external_type_specification]
#[verifier::external_body]
pub struct ExJsonValue(serde_json::Value);

/// An error body from the gateway.
#[derive(Clone, Debug)]
pub struct UprimerpayErrorResponse {
    pub code: Option<String>,
    pub msg: Option<String>,
    pub message: Option<String>,
    pub success: Option<bool>,
    pub data: Option<serde_json::Value>,
}

/// The error the router records for a failed call.
#[derive(Clone, Debug)]
pub struct ErrorResponse {
    pub status_code: u16,
    pub code: String,
    pub message: String,
    pub reason: Option<String>,
}

/// The error code of an error body: its `code`, or the success code.
pub open spec fn spec_error_code(r: UprimerpayErrorResponse) -> Seq<char> {
    match r.code {
        Some(c) => c@,
        None => UPRIMERPAY_SUCCESS_CODE@,
    }
}

/// The reason an error body gives: `msg`, else `message`.
pub open spec fn spec_error_reason(r: UprimerpayErrorResponse) -> Option<Seq<char>> {
    match r.msg {
        Some(m) => Some(m@),
        None => opt_view(r.message),
    }
}

/// The error message of an error body: its reason, or the fallback message.
pub open spec fn spec_error_message(r: UprimerpayErrorResponse) -> Seq<char> {
    match spec_error_reason(r) {
        Some(m) => m,
        None => UPRIMERPAY_DEFAULT_ERROR_MESSAGE@,
    }
}

impl UprimerpayErrorResponse {
    /// The body's code, or `00000000` when it has none.
    pub fn error_code(&self) -> (r: String)
        ensures
            r@ == spec_error_code(*self),
    {
        match &self.code {
            Some(c) => c.clone(),
            None => String::from_str(UPRIMERPAY_SUCCESS_CODE),
        }
    }

    /// The body's `msg`, else its `message`, else `UprimerPay request failed`.
    pub fn error_message(&self) -> (r: String)
        ensures
            r@ == spec_error_message(*self),
    {
        match &self.msg {
            Some(m) => m.clone(),
            None => match &self.message {
                Some(m) => m.clone(),
                None => String::from_str(UPRIMERPAY_DEFAULT_ERROR_MESSAGE),
            },
        }
    }
}

/// The ASCII escape of one byte: `\t`, `\r`, `\n`, `\\`, `\'` and `\"` for
/// those bytes, printable ASCII as itself, every other byte as `\x` and two
/// lower-case hex digits.
pub open spec fn escape_byte(b: u8) -> Seq<char> {
    if b == 9 {
        seq!['\\', 't']
    } else if b == 13 {
        seq!['\\', 'r']
    } else if b == 10 {
        seq!['\\', 'n']
    } else if b == 92 {
        seq!['\\', '\\']
    } else if b == 39 {
        seq!['\\', '\'']
    } else if b == 34 {
        seq!['\\', '"']
    } else if 0x20 <= b && b <= 0x7e {
        seq![b as char]
    } else {
        seq!['\\', 'x', hex_digit_char((b / 16) as nat), hex_digit_char((b % 16) as nat)]
    }
}

/// The ASCII escape of a byte string, byte by byte.
pub open spec fn escape_ascii(data: Seq<u8>) -> Seq<char>
    decreases data.len(),
{
    if data.len() == 0 {
        Seq::empty()
    } else {
        escape_ascii(data.drop_last()) + escape_byte(data.last())
    }
}

/// Appends the ASCII escape of one byte.
fn push_escaped(s: &mut String, b: u8)
    ensures
        final(s)@ == old(s)@ + escape_byte(b),
{
    if b == 9 {
        s.push('\\');
        s.push('t');
    } else if b == 13 {
        s.push('\\');
        s.push('r');
    } else if b == 10 {
        s.push('\\');
        s.push('n');
    } else if b == 92 {
        s.push('\\');
        s.push('\\');
    } else if b == 39 {
        s.push('\\');
        s.push('\'');
    } else if b == 34 {
        s.push('\\');
        s.push('"');
    } else if 0x20 <= b && b <= 0x7e {
        s.push(b as char);
    } else {
        s.push('\\');
        s.push('x');
        s.push(hex_digit(b / 16));
        s.push(hex_digit(b % 16));
    }
    proof {
        assert(final(s)@ =~= old(s)@ + escape_byte(b));
    }
}

/// The ASCII escape of a byte string, as `<[u8]>::escape_ascii` renders it.
pub fn escape_ascii_to_string(data: &[u8]) -> (s: String)
    ensures
        s@ == escape_ascii(data@),
{
    let mut s = String::new();
    let n = data.len();
    let mut i: usize = 0;
    while i < n
        invariant
            n == data@.len(),
            i <= n,
            s@ == escape_ascii(data@.take(i as int)),
        decreases n - i,
    {
        proof {
            assert(data@.take(i + 1).drop_last() =~= data@.take(i as int));
        }
        push_escaped(&mut s, data[i]);
        i = i + 1;
    }
    proof {
        assert(data@.take(n as int) =~= data@);
    }
    s
}

impl Uprimerpay {
    /// Builds the router error for a failed call. `response` is the error
    /// body when the raw bytes could be read as one; otherwise the raw bytes,
    /// ASCII-escaped, become the reason.
    pub fn build_error_response(
        &self,
        status_code: u16,
        response: Option<UprimerpayErrorResponse>,
        raw: &[u8],
    ) -> (res: Result<ErrorResponse, ConnectorError>)
        ensures
            res matches Ok(e) && e.status_code == status_code && match response {
                Some(r) => e.code@ == spec_error_code(r) && e.message@ == spec_error_message(r)
                    && opt_view(e.reason) == spec_error_reason(r),
                None => e.code@ == NO_ERROR_CODE@ && e.message@ == NO_ERROR_MESSAGE@
                    && opt_view(e.reason) == Some(escape_ascii(raw@)),
            },
    {
        match response {
            Some(r) => {
                let code = r.error_code();
                let message = r.error_message();
                let reason = match r.msg {
                    Some(m) => Some(m),
                    None => r.message,
                };
                Ok(ErrorResponse { status_code, code, message, reason })
            },
            None => Ok(ErrorResponse {
                status_code,
                code: String::from_str(NO_ERROR_CODE),
                message: String::from_str(NO_ERROR_MESSAGE),
                reason: Some(escape_ascii_to_string(raw)),
            }),
        }
    }
}

} // verus!
