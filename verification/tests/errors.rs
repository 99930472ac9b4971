use kafka_error::clone_ioe;
use kafka_error::error::Cause;
use kafka_error::error::from_snap_error_ref;
use kafka_error::error::from_sslerror_ref;
use kafka_error::security::SslCause;
use kafka_error::security::SslFault;
use kafka_error::Error;
use kafka_error::KafkaCode;
use std::io;

fn plain_errors() -> Vec<(Error, &'static str, &'static str)> {
    vec![
        (Error::Kafka(KafkaCode::CorruptMessage), "Kafka Error", "Kafka Error (CorruptMessage)"),
        (
            Error::UnsupportedProtocol,
            "Unsupported protocol version",
            "Unsupported protocol version",
        ),
        (
            Error::UnsupportedCompression,
            "Unsupported compression format",
            "Unsupported compression format",
        ),
        (Error::UnexpectedEOF, "Unexpected EOF", "Unexpected EOF"),
        (Error::CodecError, "Encoding/Decoding error", "Encoding/Decoding Error"),
        (Error::StringDecodeError, "String decoding error", "String decoding error"),
        (Error::NoHostReachable, "No host reachable", "No host reachable"),
        (Error::NoTopicsAssigned, "No topic assigned", "No topic assigned"),
        (Error::InvalidDuration, "Invalid duration", "Invalid duration"),
    ]
}

#[test]
fn scoped_fault_renders_topic_partition_and_code() {
    let error =
        Error::TopicPartitionError("orders".to_string(), 3, KafkaCode::NotLeaderForPartition);
    let message = error.fmt();
    assert!(message.contains("orders"));
    assert!(message.contains("3"));
    assert!(message.contains("NotLeaderForPartition"));
    assert_eq!(message, "Topic Partition Error (\"orders\", 3, NotLeaderForPartition)");
    assert_eq!(error.description(), "Error in request for topic and partition");
}

#[test]
fn scoped_fault_renders_a_negative_partition() {
    let error = Error::TopicPartitionError("t".to_string(), -17, KafkaCode::Unknown);
    assert_eq!(error.fmt(), "Topic Partition Error (\"t\", -17, Unknown)");
}

#[test]
fn scoped_fault_renders_the_extreme_partitions() {
    let low = Error::TopicPartitionError("a".to_string(), i32::MIN, KafkaCode::InvalidTopic);
    assert_eq!(low.fmt(), "Topic Partition Error (\"a\", -2147483648, InvalidTopic)");
    let high = Error::TopicPartitionError("a".to_string(), i32::MAX, KafkaCode::InvalidTopic);
    assert_eq!(high.fmt(), "Topic Partition Error (\"a\", 2147483647, InvalidTopic)");
    let zero = Error::TopicPartitionError("a".to_string(), 0, KafkaCode::InvalidTopic);
    assert_eq!(zero.fmt(), "Topic Partition Error (\"a\", 0, InvalidTopic)");
    let round = Error::TopicPartitionError("a".to_string(), 1000, KafkaCode::InvalidTopic);
    assert_eq!(round.fmt(), "Topic Partition Error (\"a\", 1000, InvalidTopic)");
}

#[test]
fn scoped_fault_takes_an_empty_topic() {
    let error = Error::TopicPartitionError(String::new(), 1, KafkaCode::LeaderNotAvailable);
    assert_eq!(error.fmt(), "Topic Partition Error (\"\", 1, LeaderNotAvailable)");
}

#[test]
fn scoped_fault_holds_its_topic_as_it_is() {
    let topic = "a\"b\\c";
    let error = Error::TopicPartitionError(topic.to_string(), 2, KafkaCode::InvalidTopic);
    assert!(error.fmt().contains(topic));
}

#[test]
fn plain_errors_have_their_labels_and_messages() {
    for (error, label, message) in plain_errors() {
        assert_eq!(error.description(), label);
        assert_eq!(error.fmt(), message);
    }
}

#[test]
fn plain_errors_are_copied_as_they_are() {
    for (error, label, message) in plain_errors() {
        let copy = error.clone();
        assert_eq!(format!("{:?}", copy), format!("{:?}", error));
        assert_eq!(copy.description(), label);
        assert_eq!(copy.fmt(), message);
    }
}

#[test]
fn a_scoped_fault_is_copied_as_it_is() {
    let error = Error::TopicPartitionError("orders".to_string(), 3, KafkaCode::RequestTimedOut);
    let copy = error.clone();
    assert!(matches!(
        &copy,
        Error::TopicPartitionError(topic, 3, KafkaCode::RequestTimedOut) if topic == "orders"
    ));
    assert_eq!(copy.fmt(), error.fmt());
    assert_eq!(copy.description(), error.description());
}

#[test]
fn end_of_input_becomes_the_error_of_its_own() {
    let failure = io::Error::new(io::ErrorKind::UnexpectedEof, "early end");
    assert!(matches!(Error::from(failure), Error::UnexpectedEOF));
    let bare = io::Error::from(io::ErrorKind::UnexpectedEof);
    assert!(matches!(Error::from(bare), Error::UnexpectedEOF));
}

#[test]
fn other_io_failures_are_wrapped() {
    let failure = io::Error::new(io::ErrorKind::BrokenPipe, "pipe gone");
    let error = Error::from(failure);
    match &error {
        Error::Io(inner) => {
            assert_eq!(inner.kind(), io::ErrorKind::BrokenPipe);
            assert_eq!(inner.to_string(), "pipe gone");
        }
        _ => panic!("an I/O failure was expected"),
    }
    assert_eq!(error.fmt(), "pipe gone");
}

#[test]
fn connection_reset_keeps_its_platform_code_when_copied() {
    let error = Error::from(io::Error::from_raw_os_error(104));
    let copy = error.clone();
    match (&error, &copy) {
        (Error::Io(a), Error::Io(b)) => {
            assert_eq!(a.raw_os_error(), Some(104));
            assert_eq!(b.raw_os_error(), Some(104));
            assert_eq!(a.kind(), b.kind());
        }
        _ => panic!("two I/O failures were expected"),
    }
    assert!(error.fmt().contains("104"));
    assert!(copy.fmt().contains("104"));
    assert_eq!(error.fmt(), copy.fmt());
    assert_eq!(error.description(), copy.description());
}

#[test]
fn clone_ioe_copies_a_platform_failure_by_its_code() {
    let copy = clone_ioe(&io::Error::from_raw_os_error(2));
    assert_eq!(copy.raw_os_error(), Some(2));
    assert_eq!(copy.kind(), io::ErrorKind::NotFound);
}

#[test]
fn clone_ioe_describes_a_failure_without_code_anew() {
    let original = io::Error::new(io::ErrorKind::TimedOut, "no answer");
    let copy = clone_ioe(&original);
    assert_eq!(copy.raw_os_error(), None);
    assert_eq!(copy.kind(), io::ErrorKind::TimedOut);
    assert_eq!(copy.to_string(), "I/O error: no answer");
    assert_eq!(original.to_string(), "no answer");
}

#[test]
fn clone_ioe_describes_a_bare_kind_anew() {
    let original = io::Error::from(io::ErrorKind::InvalidData);
    let copy = clone_ioe(&original);
    assert_eq!(copy.raw_os_error(), None);
    assert_eq!(copy.kind(), io::ErrorKind::InvalidData);
    assert_eq!(copy.to_string(), format!("I/O error: {}", original));
}

#[test]
fn a_wrapped_io_failure_without_code_is_restated_in_the_copy() {
    let error = Error::from(io::Error::new(io::ErrorKind::Other, "boom"));
    let copy = error.clone();
    assert_eq!(error.fmt(), "boom");
    assert_eq!(copy.fmt(), "I/O error: boom");
    assert!(matches!(&copy, Error::Io(inner) if inner.kind() == io::ErrorKind::Other));
}

#[test]
fn header_mismatch_keeps_both_sizes() {
    let error = Error::from(snap::Error::HeaderMismatch { expected_len: 12, got_len: 9 });
    assert!(matches!(
        &error,
        Error::InvalidSnappy(snap::Error::HeaderMismatch { expected_len: 12, got_len: 9 })
    ));
    let message = error.fmt();
    assert!(message.contains("12"));
    assert!(message.contains("9"));
    assert_eq!(
        message,
        "Snappy error, snappy: corrupt input (header mismatch; expected 12 decompressed bytes \
         but got 9)"
    );
    assert_eq!(error.description(), "Snappy error");
}

fn codec_failures() -> Vec<snap::Error> {
    vec![
        snap::Error::TooBig { given: 10, max: 4 },
        snap::Error::BufferTooSmall { given: 1, min: 8 },
        snap::Error::Empty,
        snap::Error::Header,
        snap::Error::HeaderMismatch { expected_len: 12, got_len: 9 },
        snap::Error::Literal { len: 5, src_len: 3, dst_len: 7 },
        snap::Error::CopyRead { len: 4, src_len: 2 },
        snap::Error::CopyWrite { len: 6, dst_len: 1 },
        snap::Error::Offset { offset: 0, dst_pos: 11 },
        snap::Error::StreamHeader { byte: 0x7f },
        snap::Error::StreamHeaderMismatch { bytes: vec![1, 2, 3, b'a'] },
        snap::Error::UnsupportedChunkType { byte: 0x02 },
        snap::Error::UnsupportedChunkLength { len: 99, header: false },
        snap::Error::UnsupportedChunkLength { len: 98, header: true },
        snap::Error::Checksum { expected: 0xdead, got: 0xbeef },
    ]
}

#[test]
fn codec_failures_are_copied_field_by_field() {
    for failure in codec_failures() {
        let error = from_snap_error_ref(&failure);
        match &error {
            Error::InvalidSnappy(copy) => assert_eq!(copy, &failure),
            _ => panic!("a codec failure was expected"),
        }
        let again = error.clone();
        match &again {
            Error::InvalidSnappy(copy) => assert_eq!(copy, &failure),
            _ => panic!("a codec failure was expected"),
        }
    }
}

#[test]
fn codec_failures_render_alike_when_copied() {
    for failure in codec_failures() {
        let text = failure.to_string();
        let error = Error::from(failure);
        let copy = error.clone();
        assert_eq!(error.fmt(), format!("Snappy error, {}", text));
        assert_eq!(copy.fmt(), error.fmt());
        assert_eq!(copy.description(), error.description());
        assert_eq!(error.description(), "Snappy error");
    }
}

#[test]
fn only_wrapped_failures_have_a_cause() {
    for (error, _, _) in plain_errors() {
        assert!(error.cause().is_none());
    }
    let scoped = Error::TopicPartitionError("t".to_string(), 0, KafkaCode::Unknown);
    assert!(scoped.cause().is_none());
    let codec = Error::from(snap::Error::Empty);
    assert!(codec.cause().is_none());
    let local = Error::from(io::Error::from_raw_os_error(104));
    assert!(matches!(local.cause(), Some(Cause::Local(e)) if e.raw_os_error() == Some(104)));
    let fault =
        SslFault { code: 6, message: "shut down".to_string(), cause: SslCause::Marker };
    let security = Error::Ssl(fault);
    assert!(matches!(security.cause(), Some(Cause::Security(f)) if f.code == 6));
}

#[test]
fn a_marker_failure_of_the_security_layer_is_copied_as_it_is() {
    let fault = SslFault {
        code: 6,
        message: "the SSL session has been shut down".to_string(),
        cause: SslCause::Marker,
    };
    let error = from_sslerror_ref(&fault);
    match &error {
        Error::Ssl(copy) => {
            assert_eq!(copy.code, 6);
            assert_eq!(copy.message, "the SSL session has been shut down");
            assert!(matches!(copy.cause, SslCause::Marker));
        }
        _ => panic!("a failure of the security layer was expected"),
    }
    assert_eq!(error.fmt(), "the SSL session has been shut down");
    assert_eq!(error.description(), "SSL error");
    assert_eq!(error.clone().fmt(), error.fmt());
}

#[test]
fn a_security_failure_over_io_copies_the_io_failure() {
    let fault = SslFault {
        code: 5,
        message: "broken".to_string(),
        cause: SslCause::Local(io::Error::from_raw_os_error(104)),
    };
    let copy = fault.duplicate();
    assert_eq!(copy.code, 5);
    assert_eq!(copy.message, "broken");
    assert!(matches!(&copy.cause, SslCause::Local(e) if e.raw_os_error() == Some(104)));

    let described = SslFault {
        code: 5,
        message: "broken".to_string(),
        cause: SslCause::Local(io::Error::new(io::ErrorKind::WouldBlock, "later")),
    };
    let copy = Error::Ssl(described).clone();
    match &copy {
        Error::Ssl(fault) => match &fault.cause {
            SslCause::Local(e) => {
                assert_eq!(e.kind(), io::ErrorKind::WouldBlock);
                assert_eq!(e.to_string(), "I/O error: later");
            }
            _ => panic!("an I/O failure was expected underneath"),
        },
        _ => panic!("a failure of the security layer was expected"),
    }
    assert_eq!(copy.fmt(), "broken");
}

#[test]
fn the_label_of_a_wrapped_failure_does_not_depend_on_the_failure() {
    let reset = Error::from(io::Error::from_raw_os_error(104));
    let described = Error::from(io::Error::new(io::ErrorKind::Other, "boom"));
    assert_eq!(reset.description(), "I/O error");
    assert_eq!(described.description(), "I/O error");
    assert_eq!(described.clone().description(), "I/O error");

    let first = Error::Ssl(SslFault {
        code: 5,
        message: "one".to_string(),
        cause: SslCause::Local(io::Error::from_raw_os_error(104)),
    });
    let second = Error::Ssl(SslFault {
        code: 5,
        message: "another".to_string(),
        cause: SslCause::Local(io::Error::new(io::ErrorKind::Other, "boom")),
    });
    assert_eq!(first.description(), "SSL error");
    assert_eq!(second.description(), "SSL error");
    assert_ne!(first.fmt(), second.fmt());

    for failure in codec_failures() {
        assert_eq!(Error::from(failure).description(), "Snappy error");
    }
}

#[test]
fn copying_the_copy_of_a_platform_failure_changes_nothing() {
    let original = io::Error::from_raw_os_error(104);
    let first = clone_ioe(&original);
    let second = clone_ioe(&first);
    assert_eq!(first.raw_os_error(), Some(104));
    assert_eq!(second.raw_os_error(), Some(104));
    assert_eq!(first.kind(), original.kind());
    assert_eq!(second.kind(), first.kind());
    assert_eq!(second.to_string(), first.to_string());
}
