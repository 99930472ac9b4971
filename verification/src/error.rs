//! Error struct and methods

use vstd::prelude::*;
use vstd::string::*;
use vstd::std_specs::convert::FromSpecImpl;

use crate::code::KafkaCode;
use crate::codec::fault_view;
use crate::codec::snap_message;
use crate::codec::snap_text;
use crate::local::clone_ioe;
use crate::local::io_copied;
use crate::local::io_kind;
use crate::local::io_message;
use crate::local::io_os_code;
use crate::local::io_text;
use crate::security::SslCause;
use crate::security::SslFault;
use crate::text::append_decimal;
use crate::text::decimal;

verus! {

/// A type for results generated by this crate's functions where the `Err` type
/// is hard-wired to `Error`.
pub type Result<T> = std::result::Result<T, Error>;

/// The various errors this library can produce.
#[derive(Debug)]
pub enum Error {
    /// Input/Output error while communicating with Kafka
    Io(std::io::Error),
    /// An error as reported by a remote Kafka server
    Kafka(KafkaCode),
    /// An error when transmitting a request for a particular topic and partition.
    /// Contains the topic and partition of the request that failed, and the
    /// error code as reported by the Kafka server, respectively.
    TopicPartitionError(String, i32, KafkaCode),
    /// An error as reported by OpenSsl
    Ssl(SslFault),
    /// Failure to correctly parse the server response due to the
    /// server speaking a newer protocol version (than the one this
    /// library supports)
    UnsupportedProtocol,
    /// Failure to correctly parse the server response by this library
    /// due to an unsupported compression format of the data
    UnsupportedCompression,
    /// Failure to encode/decode a snappy compressed response from Kafka
    InvalidSnappy(snap::Error),
    /// Failure to decode a response due to an insufficient number of bytes available
    UnexpectedEOF,
    /// Failure to decode or encode a response or request respectively
    CodecError,
    /// Failure to decode a string into a valid utf8 byte sequence
    StringDecodeError,
    /// Unable to reach any host
    NoHostReachable,
    /// Unable to set up `Consumer` due to missing topic assignments
    NoTopicsAssigned,
    /// An invalid user-provided duration
    InvalidDuration,
}

/// The failure that an error wraps.
pub enum Cause<'a> {
    /// A local I/O failure.
    Local(&'a std::io::Error),
    /// A failure of the security layer.
    Security(&'a SslFault),
}

impl Error {
    /// What an I/O failure becomes: the end of the input where more was
    /// expected is an error of its own, every other failure is wrapped as it is.
    pub open spec fn of_io(err: std::io::Error) -> Error {
        if io_kind(err) == std::io::ErrorKind::UnexpectedEof {
            Error::UnexpectedEOF
        } else {
            Error::Io(err)
        }
    }

    /// Whether `copy` is what copying `self` yields. An error that is plain
    /// data is copied as it is. A wrapped I/O failure is copied as I/O failures
    /// are, a failure of the security layer part by part, and a failure of the
    /// codec field by field.
    pub open spec fn copied(self, copy: Error) -> bool {
        match self {
            Error::Io(e) => copy matches Error::Io(c) && io_copied(e, c),
            Error::Ssl(fault) => copy matches Error::Ssl(c) && fault.copied(c),
            Error::InvalidSnappy(e) => copy matches Error::InvalidSnappy(c) && fault_view(c)
                == fault_view(e),
            _ => copy == self,
        }
    }

    /// The short label of the error: one fixed text for each variant, whatever
    /// the error wraps.
    pub open spec fn spec_description(self) -> Seq<char> {
        match self {
            Error::Io(_) => "I/O error"@,
            Error::Kafka(_) => "Kafka Error"@,
            Error::TopicPartitionError(_, _, _) => "Error in request for topic and partition"@,
            Error::Ssl(_) => "SSL error"@,
            Error::UnsupportedProtocol => "Unsupported protocol version"@,
            Error::UnsupportedCompression => "Unsupported compression format"@,
            Error::InvalidSnappy(_) => "Snappy error"@,
            Error::UnexpectedEOF => "Unexpected EOF"@,
            Error::CodecError => "Encoding/Decoding error"@,
            Error::StringDecodeError => "String decoding error"@,
            Error::NoHostReachable => "No host reachable"@,
            Error::NoTopicsAssigned => "No topic assigned"@,
            Error::InvalidDuration => "Invalid duration"@,
        }
    }

    /// Whether the full message of the error is known beforehand. That of a
    /// wrapped I/O failure with a platform code is not: the platform words it.
    pub open spec fn message_known(self) -> bool {
        !(self matches Error::Io(e) && io_os_code(e) is Some)
    }

    /// The full message of an error whose message is known beforehand.
    pub open spec fn spec_fmt(self) -> Seq<char> {
        match self {
            Error::Io(e) => io_message(e),
            Error::Kafka(code) => "Kafka Error ("@ + code.spec_name() + ")"@,
            Error::TopicPartitionError(topic, partition, code) => "Topic Partition Error (\""@
                + topic@ + "\", "@ + decimal(partition as int) + ", "@ + code.spec_name() + ")"@,
            Error::Ssl(fault) => fault.message@,
            Error::UnsupportedProtocol => "Unsupported protocol version"@,
            Error::UnsupportedCompression => "Unsupported compression format"@,
            Error::InvalidSnappy(e) => "Snappy error, "@ + snap_message(fault_view(e)),
            Error::UnexpectedEOF => "Unexpected EOF"@,
            Error::CodecError => "Encoding/Decoding Error"@,
            Error::StringDecodeError => "String decoding error"@,
            Error::NoHostReachable => "No host reachable"@,
            Error::NoTopicsAssigned => "No topic assigned"@,
            Error::InvalidDuration => "Invalid duration"@,
        }
    }

    /// The failure that the error wraps, if it wraps one.
    pub open spec fn spec_cause(self) -> Option<Cause<'static>> {
        match self {
            Error::Io(e) => Some(Cause::Local(&e)),
            Error::Ssl(fault) => Some(Cause::Security(&fault)),
            _ => None,
        }
    }

    /// Returns the short label of the error, by which errors can be grouped.
    pub fn description(&self) -> (label: &'static str)
        ensures
            label@ == self.spec_description(),
    {
        match self {
            Error::Io(_) => "I/O error",
            Error::Kafka(_) => "Kafka Error",
            Error::TopicPartitionError(_, _, _) => "Error in request for topic and partition",
            Error::Ssl(_) => "SSL error",
            Error::UnsupportedProtocol => "Unsupported protocol version",
            Error::UnsupportedCompression => "Unsupported compression format",
            Error::InvalidSnappy(_) => "Snappy error",
            Error::UnexpectedEOF => "Unexpected EOF",
            Error::CodecError => "Encoding/Decoding error",
            Error::StringDecodeError => "String decoding error",
            Error::NoHostReachable => "No host reachable",
            Error::NoTopicsAssigned => "No topic assigned",
            Error::InvalidDuration => "Invalid duration",
        }
    }

    /// Returns the failure that the error wraps. Only an error that wraps an
    /// I/O failure or a failure of the security layer has one.
    pub fn cause(&self) -> (cause: Option<Cause<'_>>)
        ensures
            cause == self.spec_cause(),
    {
        match self {
            Error::Io(e) => Some(Cause::Local(e)),
            Error::Ssl(fault) => Some(Cause::Security(fault)),
            _ => None,
        }
    }

    /// Returns the full message of the error.
    pub fn fmt(&self) -> (message: String)
        ensures
            self.message_known() ==> message@ == self.spec_fmt(),
    {
        match self {
            Error::Io(e) => io_text(e),
            Error::Kafka(code) => {
                let mut s = String::from_str("Kafka Error (");
                s.append(code.name());
                s.append(")");
                s
            },
            Error::TopicPartitionError(topic, partition, code) => {
                let mut s = String::from_str("Topic Partition Error (\"");
                s.append(topic.as_str());
                s.append("\", ");
                append_decimal(*partition, &mut s);
                s.append(", ");
                s.append(code.name());
                s.append(")");
                s
            },
            Error::Ssl(fault) => fault.message.clone(),
            Error::UnsupportedProtocol => String::from_str("Unsupported protocol version"),
            Error::UnsupportedCompression => String::from_str("Unsupported compression format"),
            Error::InvalidSnappy(e) => {
                let mut s = String::from_str("Snappy error, ");
                let text = snap_text(e);
                s.append(text.as_str());
                s
            },
            Error::UnexpectedEOF => String::from_str("Unexpected EOF"),
            Error::CodecError => String::from_str("Encoding/Decoding Error"),
            Error::StringDecodeError => String::from_str("String decoding error"),
            Error::NoHostReachable => String::from_str("No host reachable"),
            Error::NoTopicsAssigned => String::from_str("No topic assigned"),
            Error::InvalidDuration => String::from_str("Invalid duration"),
        }
    }
}

impl From<std::io::Error> for Error {
    fn from(err: std::io::Error) -> (error: Error)
        ensures
            error == Error::of_io(err),
    {
        match err.kind() {
            std::io::ErrorKind::UnexpectedEof => Error::UnexpectedEOF,
            _ => Error::Io(err),
        }
    }
}

impl FromSpecImpl<std::io::Error> for Error {
    open spec fn obeys_from_spec() -> bool {
        true
    }

    open spec fn from_spec(err: std::io::Error) -> Error {
        Error::of_io(err)
    }
}

impl From<snap::Error> for Error {
    fn from(err: snap::Error) -> (error: Error)
        ensures
            error == Error::InvalidSnappy(err),
    {
        Error::InvalidSnappy(err)
    }
}

impl FromSpecImpl<snap::Error> for Error {
    open spec fn obeys_from_spec() -> bool {
        true
    }

    open spec fn from_spec(err: snap::Error) -> Error {
        Error::InvalidSnappy(err)
    }
}

/// Wraps a copy of a failure of the security layer.
pub fn from_sslerror_ref(err: &SslFault) -> (error: Error)
    ensures
        error matches Error::Ssl(copy) && err.copied(copy),
{
    Error::Ssl(err.duplicate())
}

/// Wraps a copy of a failure of the codec. Such a failure is plain data: the
/// copy is made field by field and says what the original says.
pub fn from_snap_error_ref(err: &snap::Error) -> (error: Error)
    ensures
        error matches Error::InvalidSnappy(copy) && fault_view(copy) == fault_view(*err),
{
    match err {
        snap::Error::TooBig { given, max } => Error::InvalidSnappy(
            snap::Error::TooBig { given: *given, max: *max },
        ),
        snap::Error::BufferTooSmall { given, min } => Error::InvalidSnappy(
            snap::Error::BufferTooSmall { given: *given, min: *min },
        ),
        snap::Error::Empty => Error::InvalidSnappy(snap::Error::Empty),
        snap::Error::Header => Error::InvalidSnappy(snap::Error::Header),
        snap::Error::HeaderMismatch { expected_len, got_len } => Error::InvalidSnappy(
            snap::Error::HeaderMismatch { expected_len: *expected_len, got_len: *got_len },
        ),
        snap::Error::Literal { len, src_len, dst_len } => Error::InvalidSnappy(
            snap::Error::Literal { len: *len, src_len: *src_len, dst_len: *dst_len },
        ),
        snap::Error::CopyRead { len, src_len } => Error::InvalidSnappy(
            snap::Error::CopyRead { len: *len, src_len: *src_len },
        ),
        snap::Error::CopyWrite { len, dst_len } => Error::InvalidSnappy(
            snap::Error::CopyWrite { len: *len, dst_len: *dst_len },
        ),
        snap::Error::Offset { offset, dst_pos } => Error::InvalidSnappy(
            snap::Error::Offset { offset: *offset, dst_pos: *dst_pos },
        ),
        snap::Error::StreamHeader { byte } => Error::InvalidSnappy(
            snap::Error::StreamHeader { byte: *byte },
        ),
        snap::Error::StreamHeaderMismatch { bytes } => {
            let copy = bytes.clone();
            assert(copy@ =~= bytes@);
            Error::InvalidSnappy(snap::Error::StreamHeaderMismatch { bytes: copy })
        },
        snap::Error::UnsupportedChunkType { byte } => Error::InvalidSnappy(
            snap::Error::UnsupportedChunkType { byte: *byte },
        ),
        snap::Error::UnsupportedChunkLength { len, header } => Error::InvalidSnappy(
            snap::Error::UnsupportedChunkLength { len: *len, header: *header },
        ),
        snap::Error::Checksum { expected, got } => Error::InvalidSnappy(
            snap::Error::Checksum { expected: *expected, got: *got },
        ),
    }
}

impl Clone for Error {
    /// Copies the error. A wrapped failure that cannot be cloned is rebuilt
    /// from what can be read off it.
    fn clone(&self) -> (copy: Error)
        ensures
            self.copied(copy),
    {
        match self {
            Error::Io(err) => Error::Io(clone_ioe(err)),
            Error::Kafka(x) => Error::Kafka(*x),
            Error::TopicPartitionError(topic, partition, error_code) => {
                Error::TopicPartitionError(topic.clone(), *partition, *error_code)
            },
            Error::Ssl(x) => from_sslerror_ref(x),
            Error::UnsupportedProtocol => Error::UnsupportedProtocol,
            Error::UnsupportedCompression => Error::UnsupportedCompression,
            Error::InvalidSnappy(err) => from_snap_error_ref(err),
            Error::UnexpectedEOF => Error::UnexpectedEOF,
            Error::CodecError => Error::CodecError,
            Error::StringDecodeError => Error::StringDecodeError,
            Error::NoHostReachable => Error::NoHostReachable,
            Error::NoTopicsAssigned => Error::NoTopicsAssigned,
            Error::InvalidDuration => Error::InvalidDuration,
        }
    }
}

impl From<openssl::ssl::Error> for Error {
    fn from(err: openssl::ssl::Error) -> (error: Error)
        ensures
            error matches Error::Ssl(fault) && fault.taken_from(err),
    {
        Error::Ssl(SslFault::observe(err))
    }
}

impl FromSpecImpl<openssl::ssl::Error> for Error {
    open spec fn obeys_from_spec() -> bool {
        false
    }

    open spec fn from_spec(err: openssl::ssl::Error) -> Error {
        arbitrary()
    }
}

impl<S> From<openssl::ssl::HandshakeError<S>> for Error {
    fn from(err: openssl::ssl::HandshakeError<S>) -> (error: Error)
        ensures
            error matches Error::Ssl(fault) && exists|inner: openssl::ssl::Error| #[trigger]
                fault.taken_from(inner),
            err matches openssl::ssl::HandshakeError::SetupFailure(stack) ==> error matches Error::Ssl(
                fault,
            ) && fault.cause == SslCause::Stack(stack),
    {
        let inner = match err {
            openssl::ssl::HandshakeError::SetupFailure(stack) => openssl::ssl::Error::from(stack),
            openssl::ssl::HandshakeError::Failure(stream) => stream.into_error(),
            openssl::ssl::HandshakeError::WouldBlock(stream) => stream.into_error(),
        };
        Error::Ssl(SslFault::observe(inner))
    }
}

impl<S> FromSpecImpl<openssl::ssl::HandshakeError<S>> for Error {
    open spec fn obeys_from_spec() -> bool {
        false
    }

    open spec fn from_spec(err: openssl::ssl::HandshakeError<S>) -> Error {
        arbitrary()
    }
}

} // verus!
