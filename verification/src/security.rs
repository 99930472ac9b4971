//! Transport-security failures.
//!
//! An `openssl::ssl::Error` can be taken apart but not put together again: it
//! has no constructor for a failure that carries an I/O failure, or none at
//! all. So the error type keeps a failure of the security layer as an
//! [`SslFault`]: the code of the failure, the text that OpenSSL gave for it,
//! and what lay underneath. That value can be copied part by part.

use openssl::ssl::Error as SslError;
use vstd::prelude::*;

use crate::local::clone_ioe;
use crate::local::io_copied;
use crate::text::decimal;

verus! {

#[verifier::external_type_specification]
#[verifier::external_body]
pub struct ExSslError(SslError);

#[verifier::external_type_specification]
#[verifier::external_body]
pub struct ExErrorStack(openssl::error::ErrorStack);

#[verifier::external_type_specification]
#[verifier::external_body]
#[verifier::reject_recursive_types(S)]
pub struct ExMidHandshakeSslStream<S>(openssl::ssl::MidHandshakeSslStream<S>);

#[verifier::external_type_specification]
#[verifier::reject_recursive_types(S)]
pub struct ExHandshakeError<S>(openssl::ssl::HandshakeError<S>);

/// What lies underneath a failure of the security layer.
#[derive(Debug)]
pub enum SslCause {
    /// Nothing: the code of the failure says it all.
    Marker,
    /// A local I/O failure.
    Local(std::io::Error),
    /// The errors that the OpenSSL library had recorded.
    Stack(openssl::error::ErrorStack),
}

/// A failure of the security layer.
#[derive(Debug)]
pub struct SslFault {
    /// The code that OpenSSL gave the failure.
    pub code: i32,
    /// The text that OpenSSL gave for the failure when it was taken in.
    pub message: String,
    /// What lay underneath.
    pub cause: SslCause,
}

/// The code of a failure, as a number.
pub uninterp spec fn ssl_code(e: SslError) -> i32;

/// The I/O failure underneath a failure, if there is one.
pub uninterp spec fn ssl_io_cause(e: SslError) -> Option<std::io::Error>;

/// The recorded library errors underneath a failure, if there are any.
pub uninterp spec fn ssl_stack_cause(e: SslError) -> Option<openssl::error::ErrorStack>;

/// `openssl::ssl::Error::code`, as the number that `ErrorCode::as_raw` gives.
#[verifier::external_body]
fn raw_code(e: &SslError) -> (code: i32)
    ensures
        code == ssl_code(*e),
{
    e.code().as_raw()
}

/// The text that OpenSSL gives for a failure with nothing underneath it: a
/// fixed one for each code that it knows, and one that holds the code for any
/// other.
pub open spec fn marker_text(code: i32) -> Seq<char> {
    if code == 6 {
        "the SSL session has been shut down"@
    } else if code == 2 || code == 3 {
        "the operation should be retried"@
    } else if code == 5 {
        "unexpected EOF"@
    } else if code == 1 {
        "OpenSSL error"@
    } else {
        "unknown error code "@ + decimal(code as int)
    }
}

/// The `Display` form of an `openssl::ssl::Error`. Where nothing lies
/// underneath the failure, the code alone decides the text. Otherwise the
/// text may be that of an I/O failure, which the platform makes up, or that of
/// the recorded library errors: nothing is claimed of it then.
#[verifier::external_body]
fn ssl_text(e: &SslError) -> (s: String)
    ensures
        ssl_io_cause(*e) is None && ssl_stack_cause(*e) is None ==> s@ == marker_text(
            ssl_code(*e),
        ),
{
    e.to_string()
}

/// `openssl::ssl::Error::into_io_error`: the I/O failure underneath, or, where
/// there is none, the failure itself, unchanged.
pub assume_specification[ SslError::into_io_error ](e: SslError) -> (r: std::result::Result<
    std::io::Error,
    SslError,
>)
    ensures
        match r {
            Ok(io) => ssl_io_cause(e) == Some(io),
            Err(rest) => ssl_io_cause(e) is None && rest == e,
        },
;

/// `openssl::ssl::Error::ssl_error`: the recorded library errors underneath,
/// if there are any.
pub assume_specification<'a>[ SslError::ssl_error ](e: &'a SslError) -> (r:
    Option<&'a openssl::error::ErrorStack>)
    ensures
        match r {
            Some(stack) => ssl_stack_cause(*e) == Some(*stack),
            None => ssl_stack_cause(*e) is None,
        },
;

/// `Clone` of `openssl::error::ErrorStack`, which is derived: the copy equals
/// the original.
pub assume_specification[ <openssl::error::ErrorStack as Clone>::clone ](
    stack: &openssl::error::ErrorStack,
) -> (copy: openssl::error::ErrorStack)
    ensures
        copy == *stack,
;

/// `From<ErrorStack>` of `openssl::ssl::Error`: a failure with the given
/// library errors underneath, and no I/O failure.
pub assume_specification[ <SslError as From<openssl::error::ErrorStack>>::from ](
    stack: openssl::error::ErrorStack,
) -> (e: SslError)
    ensures
        ssl_stack_cause(e) == Some(stack),
        ssl_io_cause(e) is None,
;

/// `openssl::ssl::MidHandshakeSslStream::into_error`: the failure that stopped
/// the handshake. Nothing is claimed of it.
pub assume_specification<S>[ openssl::ssl::MidHandshakeSslStream::<S>::into_error ](
    stream: openssl::ssl::MidHandshakeSslStream<S>,
) -> SslError
;

impl SslCause {
    /// What lies underneath `e`.
    pub open spec fn of(e: SslError) -> SslCause {
        match ssl_io_cause(e) {
            Some(io) => SslCause::Local(io),
            None => match ssl_stack_cause(e) {
                Some(stack) => SslCause::Stack(stack),
                None => SslCause::Marker,
            },
        }
    }

    /// Whether `copy` is what copying `self` yields: the same kind of cause,
    /// with an I/O failure copied as I/O failures are, and library errors
    /// copied as they are.
    pub open spec fn copied(self, copy: SslCause) -> bool {
        match self {
            SslCause::Marker => copy is Marker,
            SslCause::Local(e) => copy matches SslCause::Local(c) && io_copied(e, c),
            SslCause::Stack(stack) => copy == SslCause::Stack(stack),
        }
    }

    /// Copies what lies underneath a failure.
    pub fn duplicate(&self) -> (copy: SslCause)
        ensures
            self.copied(copy),
    {
        match self {
            SslCause::Marker => SslCause::Marker,
            SslCause::Local(e) => SslCause::Local(clone_ioe(e)),
            SslCause::Stack(stack) => SslCause::Stack(stack.clone()),
        }
    }
}

impl SslFault {
    /// Whether `self` is what taking in `e` yields: the code of `e`, what lies
    /// underneath `e`, and, where that is nothing, the text that the code
    /// stands for.
    pub open spec fn taken_from(self, e: SslError) -> bool {
        &&& self.code == ssl_code(e)
        &&& self.cause == SslCause::of(e)
        &&& self.cause is Marker ==> self.message@ == marker_text(self.code)
    }

    /// Whether `copy` is what copying `self` yields: the same code and text,
    /// and a copy of what lay underneath.
    pub open spec fn copied(self, copy: SslFault) -> bool {
        &&& copy.code == self.code
        &&& copy.message == self.message
        &&& self.cause.copied(copy.cause)
    }

    /// Takes a failure of OpenSSL apart: its code, its text, and what lies
    /// underneath it.
    pub fn observe(e: SslError) -> (fault: SslFault)
        ensures
            fault.taken_from(e),
    {
        let code: i32 = raw_code(&e);
        let message = ssl_text(&e);
        match e.into_io_error() {
            Ok(io) => SslFault { code, message, cause: SslCause::Local(io) },
            Err(rest) => {
                let cause = match rest.ssl_error() {
                    Some(stack) => SslCause::Stack(stack.clone()),
                    None => SslCause::Marker,
                };
                SslFault { code, message, cause }
            },
        }
    }

    /// Copies a failure of the security layer.
    pub fn duplicate(&self) -> (copy: SslFault)
        ensures
            self.copied(copy),
    {
        SslFault { code: self.code, message: self.message.clone(), cause: self.cause.duplicate() }
    }
}

} // verus!
