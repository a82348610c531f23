//! The error type of the library and the kinds it distinguishes.

use crate::platform::{error_stack_text, spec_utf8_lossy, utf8_lossy};
use openssl::error::ErrorStack;
use vstd::prelude::*;
use vstd::string::StringExecFns;

verus! {

/// The error stack of the crypto provider. Nothing is known of its contents.
#[verifier::external_type_specification]
#[verifier::external_body]
pub struct ExErrorStack(ErrorStack);

/// `ErrorStack::clone` copies the provider's error stack. Nothing is claimed of
/// the copy.
pub assume_specification[ <ErrorStack as Clone>::clone ](stack: &ErrorStack) -> (copy: ErrorStack);

/// Why an operation failed. Every failure ends the session it occurred in.
#[derive(Clone, Debug)]
pub enum Error {
    /// An invariant of the library itself did not hold.
    Internal { message: String },
    /// The crypto provider reported an error.
    OpenSSL { message: String, stack: ErrorStack },
    /// The caller's data is malformed, or a signature over it does not verify.
    Input { message: String },
    /// The operation does not fit the phase the session is in.
    State { message: String },
    /// A request to a service failed.
    Request { message: String, status: Option<u16>, url: String },
    /// An answer of a service could not be decoded.
    Decode { message: String, content: Vec<u8>, url: String },
    /// A service refused the request as automated traffic.
    Block { message: String, body: String, url: String },
}

/// The variant of an [`Error`], without what it carries.
#[derive(Clone, Copy, Debug, PartialEq, Eq, Structural)]
pub enum ErrorKind {
    Internal,
    OpenSSL,
    Input,
    State,
    Request,
    Decode,
    Block,
}

/// What an error holds, as plain values. What a variant does not carry is
/// empty here.
pub struct SpecError {
    pub kind: ErrorKind,
    pub message: Seq<char>,
    pub status: Option<u16>,
    pub url: Seq<char>,
    pub content: Seq<u8>,
    pub body: Seq<char>,
}

impl View for Error {
    type V = SpecError;

    open spec fn view(&self) -> SpecError {
        SpecError {
            kind: self.spec_kind(),
            message: self.spec_message(),
            status: match self {
                Error::Request { status, .. } => *status,
                _ => None,
            },
            url: match self {
                Error::Request { url, .. } => url@,
                Error::Decode { url, .. } => url@,
                Error::Block { url, .. } => url@,
                _ => Seq::empty(),
            },
            content: match self {
                Error::Decode { content, .. } => content@,
                _ => Seq::empty(),
            },
            body: match self {
                Error::Block { body, .. } => body@,
                _ => Seq::empty(),
            },
        }
    }
}

/// A message, followed by the address it is about in brackets unless that is
/// not known (`n/a`).
pub open spec fn spec_with_url(message: Seq<char>, url: Seq<char>) -> Seq<char> {
    if url == "n/a"@ {
        message
    } else {
        message + " ("@ + url + ")"@
    }
}

impl SpecError {
    /// The text that shows the error, given the text of the provider's error
    /// stack.
    pub open spec fn text(self, stack_text: Seq<char>) -> Seq<char> {
        match self.kind {
            ErrorKind::Internal => self.message,
            ErrorKind::Input => self.message,
            ErrorKind::State => self.message,
            ErrorKind::OpenSSL => self.message + " "@ + stack_text,
            ErrorKind::Request => spec_with_url(self.message, self.url),
            ErrorKind::Decode => if self.content.len() == 0 {
                spec_with_url(self.message, self.url)
            } else {
                spec_with_url(self.message, self.url) + ": "@ + spec_utf8_lossy(self.content)
            },
            ErrorKind::Block => self.message + " ("@ + self.url + "): "@ + self.body,
        }
    }
}

/// A message, followed by the address it is about in brackets unless that is
/// not known.
pub fn with_url(message: &String, url: &String) -> (text: String)
    ensures
        text@ == spec_with_url(message@, url@),
{
    let unknown = "n/a".to_owned();
    let mut text = message.clone();
    if *url != unknown {
        text.append(" (");
        text.append(url.as_str());
        text.append(")");
    }
    text
}

impl Error {
    /// Which variant this is.
    pub open spec fn spec_kind(&self) -> ErrorKind {
        match self {
            Error::Internal { .. } => ErrorKind::Internal,
            Error::OpenSSL { .. } => ErrorKind::OpenSSL,
            Error::Input { .. } => ErrorKind::Input,
            Error::State { .. } => ErrorKind::State,
            Error::Request { .. } => ErrorKind::Request,
            Error::Decode { .. } => ErrorKind::Decode,
            Error::Block { .. } => ErrorKind::Block,
        }
    }

    /// The message that the error carries.
    pub open spec fn spec_message(&self) -> Seq<char> {
        match self {
            Error::Internal { message } => message@,
            Error::OpenSSL { message, .. } => message@,
            Error::Input { message } => message@,
            Error::State { message } => message@,
            Error::Request { message, .. } => message@,
            Error::Decode { message, .. } => message@,
            Error::Block { message, .. } => message@,
        }
    }

    /// Which variant this is.
    #[verifier::when_used_as_spec(spec_kind)]
    pub fn kind(&self) -> (k: ErrorKind)
        ensures
            k == self.spec_kind(),
    {
        match self {
            Error::Internal { .. } => ErrorKind::Internal,
            Error::OpenSSL { .. } => ErrorKind::OpenSSL,
            Error::Input { .. } => ErrorKind::Input,
            Error::State { .. } => ErrorKind::State,
            Error::Request { .. } => ErrorKind::Request,
            Error::Decode { .. } => ErrorKind::Decode,
            Error::Block { .. } => ErrorKind::Block,
        }
    }

    /// The text that shows the error, given the text of the provider's error
    /// stack: the message, with the address, the content or the body it is
    /// about where the error carries one, and, for an error of the provider,
    /// the text of its error stack after the message.
    pub fn text_with(&self, stack_text: &str) -> (text: String)
        ensures
            text@ == self@.text(stack_text@),
    {
        match self {
            Error::Internal { message } => message.clone(),
            Error::Input { message } => message.clone(),
            Error::State { message } => message.clone(),
            Error::OpenSSL { message, .. } => {
                let mut text = message.clone();
                text.append(" ");
                text.append(stack_text);
                text
            },
            Error::Request { message, url, .. } => with_url(message, url),
            Error::Decode { message, content, url } => {
                let mut text = with_url(message, url);
                if content.len() > 0 {
                    text.append(": ");
                    text.append(utf8_lossy(content.as_slice()).as_str());
                }
                text
            },
            Error::Block { message, body, url } => {
                let mut text = message.clone();
                text.append(" (");
                text.append(url.as_str());
                text.append("): ");
                text.append(body.as_str());
                text
            },
        }
    }

    /// The text that shows the error. For an error of the provider the text of
    /// its error stack, as the provider gives it, follows the message.
    pub fn to_text(&self) -> (text: String)
        ensures
            self.spec_kind() != ErrorKind::OpenSSL ==> text@ == self@.text(Seq::empty()),
            self.spec_kind() == ErrorKind::OpenSSL ==> exists|stack_text: Seq<char>|
                text@ == #[trigger] self@.text(stack_text),
    {
        match self {
            Error::OpenSSL { stack, .. } => {
                let stack_text = error_stack_text(stack);
                let text = self.text_with(stack_text.as_str());
                assert(text@ == self@.text(stack_text@));
                text
            },
            _ => self.text_with(""),
        }
    }

    /// An `Input` error with the given message.
    pub fn input(message: &str) -> (e: Error)
        ensures
            e.spec_kind() == ErrorKind::Input,
            e.spec_message() == message@,
    {
        Error::Input { message: message.to_owned() }
    }

    /// A `State` error with the given message.
    pub fn state(message: &str) -> (e: Error)
        ensures
            e.spec_kind() == ErrorKind::State,
            e.spec_message() == message@,
    {
        Error::State { message: message.to_owned() }
    }

    /// An `Internal` error with the given message.
    pub fn internal(message: &str) -> (e: Error)
        ensures
            e.spec_kind() == ErrorKind::Internal,
            e.spec_message() == message@,
    {
        Error::Internal { message: message.to_owned() }
    }

    /// An `OpenSSL` error that carries the provider's error stack.
    pub fn provider(message: &str, stack: ErrorStack) -> (e: Error)
        ensures
            e.spec_kind() == ErrorKind::OpenSSL,
            e.spec_message() == message@,
    {
        Error::OpenSSL { message: message.to_owned(), stack }
    }
}

} // verus!
