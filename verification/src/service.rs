//! What the answers of a service come to as errors: a request that failed, an
//! error that the service reported in its answer, and a status that needs no
//! look at the answer.

use crate::error::{Error, ErrorKind, SpecError};
use crate::platform::{spec_utf8_lossy, utf8_lossy};
use crate::text::{
    contains, decimal, join, spec_contains, spec_decimal, spec_join, spec_starts_with,
    starts_with, texts_view,
};
use vstd::prelude::*;
use vstd::string::StringExecFns;

verus! {

/// What a request that failed says of itself.
pub struct RequestFailure {
    /// The request could not be sent.
    pub request: bool,
    /// A redirect went wrong.
    pub redirect: bool,
    /// The request timed out.
    pub timeout: bool,
    /// No connection was made.
    pub connect: bool,
    /// The body of the request or the answer failed.
    pub body: bool,
    /// The answer had an error status.
    pub status_error: bool,
    /// The answer could not be decoded.
    pub decode: bool,
    /// The request could not be built.
    pub builder: bool,
    pub message: String,
    pub status: Option<u16>,
    pub url: Option<String>,
}

/// The address, or `n/a` where none is known.
pub open spec fn spec_url_or_unknown(url: Option<String>) -> Seq<char> {
    match url {
        Some(url) => url@,
        None => "n/a"@,
    }
}

/// The error that a failed request comes to: a `Request` error where it
/// failed on the way, a `Decode` error where the answer did not decode, and an
/// `Internal` error else.
pub open spec fn spec_request_failure(failure: RequestFailure) -> SpecError {
    if failure.request || failure.redirect || failure.timeout || failure.connect || failure.body
        || failure.status_error {
        SpecError {
            kind: ErrorKind::Request,
            message: failure.message@,
            status: failure.status,
            url: spec_url_or_unknown(failure.url),
            content: Seq::empty(),
            body: Seq::empty(),
        }
    } else if failure.decode {
        SpecError {
            kind: ErrorKind::Decode,
            message: failure.message@,
            status: None,
            url: spec_url_or_unknown(failure.url),
            content: Seq::empty(),
            body: Seq::empty(),
        }
    } else if failure.builder {
        SpecError {
            kind: ErrorKind::Internal,
            message: failure.message@,
            status: None,
            url: Seq::empty(),
            content: Seq::empty(),
            body: Seq::empty(),
        }
    } else {
        SpecError {
            kind: ErrorKind::Internal,
            message: "Could not determine request error type - {err}"@,
            status: None,
            url: Seq::empty(),
            content: Seq::empty(),
            body: Seq::empty(),
        }
    }
}

/// The address, or `n/a` where none is known.
fn url_or_unknown(url: Option<String>) -> (text: String)
    ensures
        text@ == spec_url_or_unknown(url),
{
    match url {
        Some(url) => url,
        None => "n/a".to_owned(),
    }
}

/// The error that a failed request comes to.
pub fn request_failure(failure: RequestFailure) -> (e: Error)
    ensures
        e@ == spec_request_failure(failure),
{
    if failure.request || failure.redirect || failure.timeout || failure.connect || failure.body
        || failure.status_error {
        Error::Request {
            message: failure.message,
            status: failure.status,
            url: url_or_unknown(failure.url),
        }
    } else if failure.decode {
        Error::Decode {
            message: failure.message,
            content: Vec::new(),
            url: url_or_unknown(failure.url),
        }
    } else if failure.builder {
        Error::Internal { message: failure.message }
    } else {
        Error::Internal { message: "Could not determine request error type - {err}".to_owned() }
    }
}

/// The error that an answer comes to that is no JSON: a `Decode` error
/// without content, for an address that is not known.
pub fn decode_failure(message: String) -> (e: Error)
    ensures
        e@ == (SpecError {
            kind: ErrorKind::Decode,
            message: message@,
            status: None,
            url: "n/a"@,
            content: Seq::empty(),
            body: Seq::empty(),
        }),
{
    Error::Decode { message, content: Vec::new(), url: "n/a".to_owned() }
}

/// A field of a request and the code of what is wrong with it.
pub struct FieldCode {
    pub code: String,
    pub field: String,
}

/// A code and the constraints that were violated, each by its name and value.
pub struct Violation {
    pub code: String,
    pub violated_constraints: Vec<(String, String)>,
}

/// An error that a service reports in its answer, in one of the three shapes
/// that services use.
pub enum ServiceError {
    /// A type and a message.
    Typed { error_type: String, message: String },
    /// A code, the fields it is about and, sometimes, a message.
    Coded { code: String, context: Vec<FieldCode>, message: Option<String> },
    /// A code and the constraints that were violated.
    Constrained { code: String, context: Vec<Violation> },
}

/// What is said of one field: its name, a colon and the code.
pub open spec fn spec_field_detail(item: FieldCode) -> Seq<char> {
    item.field@ + ": "@ + item.code@
}

/// What is said of each field, in their order.
pub open spec fn spec_field_details(context: Seq<FieldCode>) -> Seq<Seq<char>> {
    Seq::new(context.len(), |i: int| spec_field_detail(context[i]))
}

/// What is said of one constraint: its name, a colon and its value.
pub open spec fn spec_constraint_detail(constraint: (String, String)) -> Seq<char> {
    constraint.0@ + ": "@ + constraint.1@
}

/// What is said of each constraint, in their order.
pub open spec fn spec_constraint_details(constraints: Seq<(String, String)>) -> Seq<Seq<char>> {
    Seq::new(constraints.len(), |i: int| spec_constraint_detail(constraints[i]))
}

/// What is said of one violation: its code, a colon and, in brackets, its
/// constraints with commas between them.
pub open spec fn spec_violation_detail(item: Violation) -> Seq<char> {
    item.code@ + ": ("@ + spec_join(
        spec_constraint_details(item.violated_constraints@),
        ", "@,
    ) + ")"@
}

/// What is said of each violation, in their order.
pub open spec fn spec_violation_details(context: Seq<Violation>) -> Seq<Seq<char>> {
    Seq::new(context.len(), |i: int| spec_violation_detail(context[i]))
}

/// The message for an error that a service reported.
pub open spec fn spec_service_message(error: ServiceError) -> Seq<char> {
    match error {
        ServiceError::Typed { error_type, message } => error_type@ + " - "@ + message@,
        ServiceError::Coded { code, context, message } => {
            let details = spec_join(spec_field_details(context@), ", "@);
            match message {
                Some(message) => message@ + " ("@ + code@ + ") - "@ + details,
                None => "("@ + code@ + ") - "@ + details,
            }
        },
        ServiceError::Constrained { code, context } => code@ + ": "@ + spec_join(
            spec_violation_details(context@),
            ", "@,
        ),
    }
}

/// What is said of each field, joined with commas.
fn field_details(context: &Vec<FieldCode>) -> (text: String)
    ensures
        text@ == spec_join(spec_field_details(context@), ", "@),
{
    let mut details: Vec<String> = Vec::new();
    let mut i: usize = 0;
    while i < context.len()
        invariant
            i <= context.len(),
            details@.len() == i,
            forall|k: int|
                0 <= k < i ==> (#[trigger] details@[k])@ == spec_field_detail(context@[k]),
        decreases context.len() - i,
    {
        let mut detail = context[i].field.clone();
        detail.append(": ");
        detail.append(context[i].code.as_str());
        details.push(detail);
        i = i + 1;
    }
    assert(texts_view(details@) =~= spec_field_details(context@));
    join(&details, ", ")
}

/// What is said of each constraint, joined with commas.
fn constraint_details(constraints: &Vec<(String, String)>) -> (text: String)
    ensures
        text@ == spec_join(spec_constraint_details(constraints@), ", "@),
{
    let mut details: Vec<String> = Vec::new();
    let mut i: usize = 0;
    while i < constraints.len()
        invariant
            i <= constraints.len(),
            details@.len() == i,
            forall|k: int|
                0 <= k < i ==> (#[trigger] details@[k])@ == spec_constraint_detail(constraints@[k]),
        decreases constraints.len() - i,
    {
        let mut detail = constraints[i].0.clone();
        detail.append(": ");
        detail.append(constraints[i].1.as_str());
        details.push(detail);
        i = i + 1;
    }
    assert(texts_view(details@) =~= spec_constraint_details(constraints@));
    join(&details, ", ")
}

/// What is said of each violation, joined with commas.
fn violation_details(context: &Vec<Violation>) -> (text: String)
    ensures
        text@ == spec_join(spec_violation_details(context@), ", "@),
{
    let mut details: Vec<String> = Vec::new();
    let mut i: usize = 0;
    while i < context.len()
        invariant
            i <= context.len(),
            details@.len() == i,
            forall|k: int|
                0 <= k < i ==> (#[trigger] details@[k])@ == spec_violation_detail(context@[k]),
        decreases context.len() - i,
    {
        let mut detail = context[i].code.clone();
        detail.append(": (");
        detail.append(constraint_details(&context[i].violated_constraints).as_str());
        detail.append(")");
        details.push(detail);
        i = i + 1;
    }
    assert(texts_view(details@) =~= spec_violation_details(context@));
    join(&details, ", ")
}

/// The message for an error that a service reported.
pub fn service_message(error: &ServiceError) -> (text: String)
    ensures
        text@ == spec_service_message(*error),
{
    match error {
        ServiceError::Typed { error_type, message } => {
            let mut text = error_type.clone();
            text.append(" - ");
            text.append(message.as_str());
            text
        },
        ServiceError::Coded { code, context, message } => {
            let mut text = match message {
                Some(message) => {
                    let mut text = message.clone();
                    text.append(" (");
                    text
                },
                None => "(".to_owned(),
            };
            text.append(code.as_str());
            text.append(") - ");
            text.append(field_details(context).as_str());
            text
        },
        ServiceError::Constrained { code, context } => {
            let mut text = code.clone();
            text.append(": ");
            text.append(violation_details(context).as_str());
            text
        },
    }
}

/// Whether the answer of a service reports an error: a `Request` error with
/// the message for it, the status and the address where it does, and nothing
/// where it reports none.
pub fn is_request_error(error: &Option<ServiceError>, url: &String, status: u16) -> (r: Result<
    (),
    Error,
>)
    ensures
        match *error {
            None => r is Ok,
            Some(reported) => r matches Err(e) && e@ == (SpecError {
                kind: ErrorKind::Request,
                message: spec_service_message(reported),
                status: Some(status),
                url: url@,
                content: Seq::empty(),
                body: Seq::empty(),
            }),
        },
{
    match error {
        None => Ok(()),
        Some(reported) => Err(
            Error::Request {
                message: service_message(reported),
                status: Some(status),
                url: url.clone(),
            },
        ),
    }
}

/// How a page begins that stands in the way of automated traffic.
pub open spec fn spec_doctype() -> Seq<u8> {
    seq![
        0x3cu8,
        0x21,
        0x44,
        0x4f,
        0x43,
        0x54,
        0x59,
        0x50,
        0x45,
        0x20,
        0x68,
        0x74,
        0x6d,
        0x6c,
        0x3e,
    ]
}

/// The title of a page that stands in the way of automated traffic.
pub open spec fn spec_challenge_title() -> Seq<u8> {
    seq![
        0x3cu8,
        0x74,
        0x69,
        0x74,
        0x6c,
        0x65,
        0x3e,
        0x4a,
        0x75,
        0x73,
        0x74,
        0x20,
        0x61,
        0x20,
        0x6d,
        0x6f,
        0x6d,
        0x65,
        0x6e,
        0x74,
        0x2e,
        0x2e,
        0x2e,
        0x3c,
        0x2f,
        0x74,
        0x69,
        0x74,
        0x6c,
        0x65,
        0x3e,
    ]
}

/// Whether an answer is a page that stands in the way of automated traffic: it
/// begins with the HTML doctype and holds the title `Just a moment...`.
pub open spec fn spec_is_challenge_page(body: Seq<u8>) -> bool {
    spec_starts_with(body, spec_doctype()) && spec_contains(body, spec_challenge_title())
}

/// Whether an answer is a page that stands in the way of automated traffic.
pub fn is_challenge_page(body: &[u8]) -> (found: bool)
    ensures
        found == spec_is_challenge_page(body@),
{
    let doctype: [u8; 15] = [
        0x3c,
        0x21,
        0x44,
        0x4f,
        0x43,
        0x54,
        0x59,
        0x50,
        0x45,
        0x20,
        0x68,
        0x74,
        0x6d,
        0x6c,
        0x3e,
    ];
    let title: [u8; 31] = [
        0x3c,
        0x74,
        0x69,
        0x74,
        0x6c,
        0x65,
        0x3e,
        0x4a,
        0x75,
        0x73,
        0x74,
        0x20,
        0x61,
        0x20,
        0x6d,
        0x6f,
        0x6d,
        0x65,
        0x6e,
        0x74,
        0x2e,
        0x2e,
        0x2e,
        0x3c,
        0x2f,
        0x74,
        0x69,
        0x74,
        0x6c,
        0x65,
        0x3e,
    ];
    assert(doctype@ =~= spec_doctype());
    assert(title@ =~= spec_challenge_title());
    starts_with(body, doctype.as_slice()) && contains(body, title.as_slice())
}

/// The message for a service that limits the rate of requests.
pub open spec fn spec_rate_limit_message(retry_after: Option<u32>) -> Seq<char> {
    match retry_after {
        Some(seconds) => "Rate limit detected. Try again in "@ + spec_decimal(seconds as nat)
            + " seconds"@,
        None => "Rate limit detected. Try again later"@,
    }
}

/// The message for a service that limits the rate of requests.
pub fn rate_limit_message(retry_after: Option<u32>) -> (text: String)
    ensures
        text@ == spec_rate_limit_message(retry_after),
{
    match retry_after {
        Some(seconds) => {
            let mut text = "Rate limit detected. Try again in ".to_owned();
            text.append(decimal(seconds as u64).as_str());
            text.append(" seconds");
            text
        },
        None => "Rate limit detected. Try again later".to_owned(),
    }
}

/// The error that the status of an answer comes to without a look at what
/// the answer says: a `Block` error for status 403 with a challenge page, a
/// `Request` error for status 404 and for status 429, and none else.
pub open spec fn spec_status_refusal(
    status: u16,
    body: Seq<u8>,
    retry_after: Option<u32>,
    url: Seq<char>,
) -> Option<SpecError> {
    if status == 403 && spec_is_challenge_page(body) {
        Some(
            SpecError {
                kind: ErrorKind::Block,
                message: "Triggered Cloudflare bot protection"@,
                status: None,
                url,
                content: Seq::empty(),
                body: spec_utf8_lossy(body),
            },
        )
    } else if status == 404 {
        Some(
            SpecError {
                kind: ErrorKind::Request,
                message: "The requested resource is not present"@,
                status: Some(status),
                url,
                content: Seq::empty(),
                body: Seq::empty(),
            },
        )
    } else if status == 429 {
        Some(
            SpecError {
                kind: ErrorKind::Request,
                message: spec_rate_limit_message(retry_after),
                status: Some(status),
                url,
                content: Seq::empty(),
                body: Seq::empty(),
            },
        )
    } else {
        None
    }
}

/// The error that the status of an answer comes to without a look at what
/// the answer says.
pub fn status_refusal(status: u16, body: &[u8], retry_after: Option<u32>, url: &String) -> (r:
    Option<Error>)
    ensures
        match r {
            Some(e) => spec_status_refusal(status, body@, retry_after, url@) == Some(e@),
            None => spec_status_refusal(status, body@, retry_after, url@) is None,
        },
{
    if status == 403 && is_challenge_page(body) {
        Some(
            Error::Block {
                message: "Triggered Cloudflare bot protection".to_owned(),
                body: utf8_lossy(body),
                url: url.clone(),
            },
        )
    } else if status == 404 {
        Some(
            Error::Request {
                message: "The requested resource is not present".to_owned(),
                status: Some(status),
                url: url.clone(),
            },
        )
    } else if status == 429 {
        Some(
            Error::Request {
                message: rate_limit_message(retry_after),
                status: Some(status),
                url: url.clone(),
            },
        )
    } else {
        None
    }
}

/// The JSON that an answer is read as: an empty answer that announced no
/// length counts as the empty object `{}`.
pub open spec fn spec_json_of(body: Seq<u8>, content_length: u64) -> Seq<u8> {
    if body.len() == 0 && content_length == 0 {
        seq![0x7bu8, 0x7d]
    } else {
        body
    }
}

/// The JSON that an answer is read as.
pub fn json_of(body: Vec<u8>, content_length: u64) -> (json: Vec<u8>)
    ensures
        json@ == spec_json_of(body@, content_length),
{
    if body.len() == 0 && content_length == 0 {
        let mut json: Vec<u8> = Vec::new();
        json.push(0x7b);
        json.push(0x7d);
        assert(json@ =~= seq![0x7bu8, 0x7d]);
        json
    } else {
        body
    }
}

/// The error for JSON that does not read: a `Decode` error with the reason,
/// followed by the line and the column where reading stopped, the content and
/// the address.
pub fn unreadable_json(
    reason: &String,
    line: u64,
    column: u64,
    content: Vec<u8>,
    url: String,
) -> (e: Error)
    ensures
        e@ == (SpecError {
            kind: ErrorKind::Decode,
            message: reason@ + " at "@ + spec_decimal(line as nat) + ":"@ + spec_decimal(
                column as nat,
            ),
            status: None,
            url: url@,
            content: content@,
            body: Seq::empty(),
        }),
{
    let mut message = reason.clone();
    message.append(" at ");
    message.append(decimal(line).as_str());
    message.append(":");
    message.append(decimal(column).as_str());
    Error::Decode { message, content, url }
}

} // verus!
