//! What holds of every error: how the error for an I/O failure is chosen, what
//! a copy has in common with its original, and what the message of an error
//! for a topic and partition holds.

use vstd::prelude::*;

use crate::code::KafkaCode;
use crate::error::Error;
use crate::local::io_copied;
use crate::local::io_kind;
use crate::local::io_os_code;
use crate::local::restated_prefix;
use crate::text::decimal;
use crate::text::lemma_occurs_between;
use crate::text::occurs_in;

verus! {

/// An I/O failure that says that the input ended too early becomes the error
/// for the end of the input, and never a wrapped I/O failure. Every other I/O
/// failure is wrapped as it is.
pub proof fn end_of_input_is_never_wrapped(err: std::io::Error)
    ensures
        io_kind(err) == std::io::ErrorKind::UnexpectedEof ==> Error::of_io(err)
            == Error::UnexpectedEOF,
        io_kind(err) != std::io::ErrorKind::UnexpectedEof ==> Error::of_io(err) == Error::Io(err),
        Error::of_io(err) matches Error::Io(e) ==> io_kind(e) != std::io::ErrorKind::UnexpectedEof,
{
}

/// A copy is an error of the same variant as its original, with the same
/// short label.
///
/// Unless the original wraps an I/O failure, the copy has the same message.
///
/// The copy of a wrapped I/O failure wraps a failure of the same kind, with
/// the same platform code or with none either. Without a platform code, the
/// copy says in its message that it restates the original's, and gives that
/// after it. With one, the platform words the message whenever it is asked to.
pub proof fn copy_tells_the_same(original: Error, copy: Error)
    requires
        original.copied(copy),
    ensures
        copy.spec_description() == original.spec_description(),
        copy.message_known() == original.message_known(),
        !(original is Io) ==> !(copy is Io) && copy.spec_fmt() == original.spec_fmt(),
        original matches Error::Io(e) ==> {
            &&& copy matches Error::Io(c)
            &&& io_os_code(c) == io_os_code(e)
            &&& io_kind(c) == io_kind(e)
            &&& io_os_code(e) is None ==> copy.spec_fmt() == restated_prefix()
                + original.spec_fmt()
        },
{
}

/// Copying the copy of an I/O failure that carries a platform code changes
/// nothing: the second copy has the code and the kind of the first.
pub proof fn platform_copy_is_stable(e: std::io::Error, first: std::io::Error, second: std::io::Error)
    requires
        io_os_code(e) is Some,
        io_copied(e, first),
        io_copied(first, second),
    ensures
        io_os_code(second) == io_os_code(first),
        io_os_code(first) == io_os_code(e),
        io_kind(second) == io_kind(first),
        io_kind(first) == io_kind(e),
{
}

/// An error for a topic and partition has the label of its variant, and its
/// message holds the topic, the partition in decimal and the symbolic name of
/// the status code.
pub proof fn scoped_error_names_its_target(topic: String, partition: i32, code: KafkaCode)
    ensures
        ({
            let error = Error::TopicPartitionError(topic, partition, code);
            &&& error.spec_description() == "Error in request for topic and partition"@
            &&& error.message_known()
            &&& occurs_in(topic@, error.spec_fmt())
            &&& occurs_in(decimal(partition as int), error.spec_fmt())
            &&& occurs_in(code.spec_name(), error.spec_fmt())
        }),
{
    let error = Error::TopicPartitionError(topic, partition, code);
    let open = "Topic Partition Error (\""@;
    let number = decimal(partition as int);
    let name = code.spec_name();
    let message = error.spec_fmt();
    lemma_occurs_between(open, topic@, "\", "@ + number + ", "@ + name + ")"@);
    assert(message =~= open + topic@ + ("\", "@ + number + ", "@ + name + ")"@));
    lemma_occurs_between(open + topic@ + "\", "@, number, ", "@ + name + ")"@);
    assert(message =~= (open + topic@ + "\", "@) + number + (", "@ + name + ")"@));
    lemma_occurs_between(open + topic@ + "\", "@ + number + ", "@, name, ")"@);
    assert(message =~= (open + topic@ + "\", "@ + number + ", "@) + name + ")"@);
}

} // verus!
