//! Logical outcomes of a request and their transport envelopes.

use vstd::prelude::*;
use vstd::string::*;
use crate::text::pairs_text;
use crate::text::opt_text;

verus! {

/// An HTTP status code: always within `100..=999`.
#[derive(Clone, Copy, Debug)]
pub struct StatusCode {
    code: u16,
}

impl StatusCode {
    #[verifier::type_invariant]
    spec fn in_range(self) -> bool {
        100 <= self.code <= 999
    }

    /// The numeric value of the code.
    pub closed spec fn value(self) -> u16 {
        self.code
    }

    /// A status code from its number; `None` outside `100..=999`.
    pub fn from_u16(code: u16) -> (r: Option<StatusCode>)
        ensures
            r.is_some() <==> 100 <= code <= 999,
            r matches Some(s) ==> s.value() == code,
    {
        if code < 100 || code > 999 {
            None
        } else {
            Some(StatusCode { code })
        }
    }

    /// 200 OK.
    pub fn ok() -> (r: StatusCode)
        ensures
            r.value() == 200,
    {
        StatusCode { code: 200 }
    }

    /// 307 Temporary Redirect.
    pub fn temporary_redirect() -> (r: StatusCode)
        ensures
            r.value() == 307,
    {
        StatusCode { code: 307 }
    }

    /// 501 Not Implemented.
    pub fn not_implemented() -> (r: StatusCode)
        ensures
            r.value() == 501,
    {
        StatusCode { code: 501 }
    }

    /// The numeric value of the code.
    pub fn as_u16(&self) -> (r: u16)
        ensures
            r == self.value(),
            100 <= r <= 999,
    {
        proof {
            use_type_invariant(self);
        }
        self.code
    }
}

/// The character of one decimal digit.
pub open spec fn digit_char(d: int) -> char {
    if d == 0 {
        '0'
    } else if d == 1 {
        '1'
    } else if d == 2 {
        '2'
    } else if d == 3 {
        '3'
    } else if d == 4 {
        '4'
    } else if d == 5 {
        '5'
    } else if d == 6 {
        '6'
    } else if d == 7 {
        '7'
    } else if d == 8 {
        '8'
    } else {
        '9'
    }
}

/// The three decimal digits of a status code.
pub open spec fn code_digits(code: u16) -> Seq<char> {
    seq![
        digit_char(code as int / 100),
        digit_char((code as int / 10) % 10),
        digit_char(code as int % 10),
    ]
}

/// The standard reason phrase that the `http` crate knows for a status code,
/// if it knows one.
pub uninterp spec fn canonical_reason(code: u16) -> Option<Seq<char>>;

/// Calls `http::StatusCode::as_str`, which yields the code's three decimal
/// digits for every code within `100..=999`.
#[verifier::external_body]
fn status_digits(code: u16) -> (r: String)
    requires
        100 <= code <= 999,
    ensures
        r@ == code_digits(code),
{
    match oauth2::http::StatusCode::from_u16(code) {
        Ok(status) => status.as_str().to_string(),
        Err(_) => String::new(),
    }
}

/// Calls `http::StatusCode::canonical_reason`: the result is a fixed function
/// of the code alone, named by [`canonical_reason`].
#[verifier::external_body]
fn status_reason(code: u16) -> (r: Option<String>)
    requires
        100 <= code <= 999,
    ensures
        opt_text(r) == canonical_reason(code),
{
    match oauth2::http::StatusCode::from_u16(code) {
        Ok(status) => status.canonical_reason().map(|reason| reason.to_string()),
        Err(_) => None,
    }
}

/// The logical outcome of one request.
#[derive(Debug)]
pub enum Response {
    /// An HTML body, served with status 200.
    Content(String),
    /// A bare status.
    StatusCode(StatusCode),
    /// A temporary redirect to the given target.
    Redirect(String),
}

/// What a [`Response`] holds.
pub enum ResponseView {
    Content(Seq<char>),
    StatusCode(u16),
    Redirect(Seq<char>),
}

impl View for Response {
    type V = ResponseView;

    open spec fn view(&self) -> ResponseView {
        match *self {
            Response::Content(body) => ResponseView::Content(body@),
            Response::StatusCode(code) => ResponseView::StatusCode(code.value()),
            Response::Redirect(to) => ResponseView::Redirect(to@),
        }
    }
}

/// A transport-level response: status, headers in order, optional body.
#[derive(Debug)]
pub struct Envelope {
    pub status: u16,
    pub headers: Vec<(String, String)>,
    pub body: Option<String>,
}

/// What an [`Envelope`] holds.
pub struct EnvelopeView {
    pub status: u16,
    pub headers: Seq<(Seq<char>, Seq<char>)>,
    pub body: Option<Seq<char>>,
}

impl View for Envelope {
    type V = EnvelopeView;

    open spec fn view(&self) -> EnvelopeView {
        EnvelopeView {
            status: self.status,
            headers: pairs_text(self.headers@),
            body: opt_text(self.body),
        }
    }
}

/// The body of a bare status: the digits, a colon and a space, and the reason
/// phrase, or `Unknown Status` where the code has none.
pub open spec fn status_line(code: u16) -> Seq<char> {
    code_digits(code) + ": "@ + match canonical_reason(code) {
        Some(reason) => reason,
        None => "Unknown Status"@,
    }
}

/// The envelope of each outcome.
pub open spec fn envelope_of(r: ResponseView) -> EnvelopeView {
    match r {
        ResponseView::Content(body) => EnvelopeView {
            status: 200,
            headers: seq![("Content-Type"@, "text/html;charset=UTF-8"@)],
            body: Some(body),
        },
        ResponseView::StatusCode(code) => EnvelopeView {
            status: code,
            headers: Seq::empty(),
            body: Some(status_line(code)),
        },
        ResponseView::Redirect(to) => EnvelopeView {
            status: 307,
            headers: seq![("Location"@, to)],
            body: None,
        },
    }
}

impl From<StatusCode> for Response {
    fn from(code: StatusCode) -> (r: Response) {
        Response::StatusCode(code)
    }
}

impl vstd::std_specs::convert::FromSpecImpl<StatusCode> for Response {
    open spec fn obeys_from_spec() -> bool {
        true
    }

    open spec fn from_spec(code: StatusCode) -> Response {
        Response::StatusCode(code)
    }
}

impl Response {
    /// Renders the outcome to its transport envelope.
    pub fn into_envelope(self) -> (out: Envelope)
        ensures
            out@ == envelope_of(self@),
    {
        match self {
            Response::Content(body) => {
                let mut headers: Vec<(String, String)> = Vec::new();
                headers.push(("Content-Type".to_owned(), "text/html;charset=UTF-8".to_owned()));
                let out = Envelope { status: 200, headers, body: Some(body) };
                assert(out@.headers =~= envelope_of(self@).headers);
                out
            },
            Response::StatusCode(code) => {
                let n: u16 = code.as_u16();
                let mut line: String = status_digits(n);
                line.append(": ");
                match status_reason(n) {
                    Some(reason) => line.append(reason.as_str()),
                    None => line.append("Unknown Status"),
                }
                let out = Envelope { status: n, headers: Vec::new(), body: Some(line) };
                assert(out@.headers =~= envelope_of(self@).headers);
                out
            },
            Response::Redirect(to) => {
                let mut headers: Vec<(String, String)> = Vec::new();
                headers.push(("Location".to_owned(), to));
                let out = Envelope { status: 307, headers, body: None };
                assert(out@.headers =~= envelope_of(self@).headers);
                out
            },
        }
    }
}

} // verus!
