//! Answers of the 88code usage service, as the status line reads them.

use vstd::prelude::*;
use vstd::string::StringExecFns;
use crate::text::dec;
use crate::text::push_char;
use crate::text::push_decimal;

verus! {

/// Why usage could not be fetched.
#[derive(Debug)]
pub enum Code88Error {
    /// Network or connection error.
    Network(String),
    /// The service answered with a non-success HTTP status.
    HttpStatus(u16),
    /// The answer could not be read.
    Parse(String),
    /// The service returned no data.
    NoData,
    /// The service returned an error code.
    ApiError(i32),
}

/// Decimal text of a signed number.
pub open spec fn signed_dec(n: int) -> Seq<char> {
    if n < 0 { seq!['-'] + dec((-n) as nat) } else { dec(n as nat) }
}

/// The message shown for an error.
pub open spec fn message(e: Code88Error) -> Seq<char> {
    match e {
        Code88Error::Network(m) => "Network error: "@ + m@,
        Code88Error::HttpStatus(c) => "HTTP status error: "@ + dec(c as nat),
        Code88Error::Parse(m) => "Parse error: "@ + m@,
        Code88Error::NoData => "No data returned"@,
        Code88Error::ApiError(c) => "API error code: "@ + signed_dec(c as int),
    }
}

impl Code88Error {
    /// The message shown for this error.
    pub fn to_string(&self) -> (r: String)
        ensures
            r@ == message(*self),
    {
        match self {
            Code88Error::Network(m) => {
                let mut r = String::from_str("Network error: ");
                r.append(m.as_str());
                r
            },
            Code88Error::HttpStatus(c) => {
                let mut r = String::from_str("HTTP status error: ");
                push_decimal(&mut r, *c as u64);
                r
            },
            Code88Error::Parse(m) => {
                let mut r = String::from_str("Parse error: ");
                r.append(m.as_str());
                r
            },
            Code88Error::NoData => String::from_str("No data returned"),
            Code88Error::ApiError(c) => {
                let mut r = String::from_str("API error code: ");
                if *c < 0 {
                    push_char(&mut r, '-');
                    push_decimal(&mut r, (-(*c as i64)) as u64);
                } else {
                    push_decimal(&mut r, *c as u64);
                }
                assert(r@ =~= message(*self));
                r
            },
        }
    }
}

/// The data of an answer: present only when the service says `ok` with code
/// zero; `NoData` when such an answer holds none, else the service's code.
pub fn check_usage_response<T>(ok: bool, code: i32, data: Option<T>) -> (r: Result<T, Code88Error>)
    ensures
        ok && code == 0 && data is Some ==> r == Ok::<T, Code88Error>(data->0),
        ok && code == 0 && data is None ==> r matches Err(Code88Error::NoData),
        !(ok && code == 0) ==> (r matches Err(Code88Error::ApiError(c)) && c == code),
{
    if ok && code == 0 {
        match data {
            Some(d) => Ok(d),
            None => Err(Code88Error::NoData),
        }
    } else {
        Err(Code88Error::ApiError(code))
    }
}

} // verus!
