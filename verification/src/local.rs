//! Local I/O failures, and how to copy one.
//!
//! `std::io::Error` cannot be cloned: it may wrap a payload that is not
//! clonable. A failure is described here by three things that can be read off
//! it: the platform code it carries, if any, its kind, and its message. A copy
//! is rebuilt from these.

use vstd::prelude::*;
use vstd::string::*;

verus! {

#[verifier::external_type_specification]
#[verifier::external_body]
pub struct ExIoError(std::io::Error);

#[verifier::external_type_specification]
pub struct ExIoErrorKind(std::io::ErrorKind);

/// The platform code that a failure carries, if it came from the platform.
pub uninterp spec fn io_os_code(e: std::io::Error) -> Option<i32>;

/// The kind of a failure.
pub uninterp spec fn io_kind(e: std::io::Error) -> std::io::ErrorKind;

/// The message of a failure that carries no platform code. (The message of
/// one that carries a code is made up by the platform when it is asked for,
/// and nothing is said of it.)
pub uninterp spec fn io_message(e: std::io::Error) -> Seq<char>;

/// `std::io::Error::raw_os_error`: the platform code of the failure, if it
/// has one.
pub assume_specification[ std::io::Error::raw_os_error ](e: &std::io::Error) -> (code: Option<i32>)
    ensures
        code == io_os_code(*e),
;

/// `std::io::Error::kind`: the kind of the failure.
pub assume_specification[ std::io::Error::kind ](e: &std::io::Error) -> (kind: std::io::ErrorKind)
    ensures
        kind == io_kind(*e),
;

/// `std::io::Error::from_raw_os_error`: a failure that carries the given
/// platform code. Its kind is the one that the platform's code stands for, so
/// it has the kind of every failure that carries this code. Which kind that is,
/// and which message the platform gives the code, is left open.
pub assume_specification[ std::io::Error::from_raw_os_error ](code: i32) -> (e: std::io::Error)
    ensures
        io_os_code(e) == Some(code),
        forall|other: std::io::Error| #[trigger]
            io_os_code(other) == Some(code) ==> io_kind(other) == io_kind(e),
;

/// `std::io::Error::new` with a `String` as payload: a failure of the given
/// kind that carries no platform code and has the payload as its message.
#[verifier::external_body]
fn described(kind: std::io::ErrorKind, message: String) -> (e: std::io::Error)
    ensures
        io_os_code(e) is None,
        io_kind(e) == kind,
        io_message(e) == message@,
{
    std::io::Error::new(kind, message)
}

/// The `Display` form of a `std::io::Error`. For a failure without a platform
/// code it is the failure's message; of the text that stands for a platform
/// code nothing is claimed.
#[verifier::external_body]
pub(crate) fn io_text(e: &std::io::Error) -> (s: String)
    ensures
        io_os_code(*e) is None ==> s@ == io_message(*e),
{
    e.to_string()
}

/// What comes before the original message in the message of a copy that had
/// to be described anew.
pub open spec fn restated_prefix() -> Seq<char> {
    "I/O error: "@
}

/// Whether `copy` is what copying `e` yields: a failure of the same kind. A
/// failure that carries a platform code is copied by its code. One that
/// carries none is described anew: the copy has no code either, and a message
/// that restates the original's.
pub open spec fn io_copied(e: std::io::Error, copy: std::io::Error) -> bool {
    &&& io_kind(copy) == io_kind(e)
    &&& match io_os_code(e) {
        Some(code) => io_os_code(copy) == Some(code),
        None => {
            &&& io_os_code(copy) is None
            &&& io_message(copy) == restated_prefix() + io_message(e)
        },
    }
}

/// Copies an I/O failure.
pub fn clone_ioe(e: &std::io::Error) -> (copy: std::io::Error)
    ensures
        io_copied(*e, copy),
{
    match e.raw_os_error() {
        Some(code) => std::io::Error::from_raw_os_error(code),
        None => {
            let mut message = String::from_str("I/O error: ");
            let original = io_text(e);
            message.append(original.as_str());
            described(e.kind(), message)
        },
    }
}

} // verus!
