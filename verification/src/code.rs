//! The catalog of status codes that a broker reports.
//!
//! Every entry has a symbolic name and a numeric code. The numeric codes are
//! those of the wire protocol: an entry never changes its code, and new
//! entries are only ever appended.

use vstd::prelude::*;

verus! {

/// Various errors reported by a remote Kafka server.
/// See also [Kafka Errors](http://kafka.apache.org/protocol.html)
#[derive(Debug, Copy, Clone, PartialEq, Eq, Structural)]
pub enum KafkaCode {
    /// An unexpected server error
    Unknown,
    /// The requested offset is outside the range of offsets maintained by the
    /// server for the given topic/partition
    OffsetOutOfRange,
    /// This indicates that a message contents does not match its CRC
    CorruptMessage,
    /// This request is for a topic or partition that does not exist on this
    /// broker.
    UnknownTopicOrPartition,
    /// The message has a negative size
    InvalidMessageSize,
    /// This error is thrown if we are in the middle of a leadership election
    /// and there is currently no leader for this partition and hence it is
    /// unavailable for writes.
    LeaderNotAvailable,
    /// This error is thrown if the client attempts to send messages to a
    /// replica that is not the leader for some partition. It indicates that
    /// the clients metadata is out of date.
    NotLeaderForPartition,
    /// This error is thrown if the request exceeds the user-specified time
    /// limit in the request.
    RequestTimedOut,
    /// This is not a client facing error and is used mostly by tools when a
    /// broker is not alive.
    BrokerNotAvailable,
    /// If replica is expected on a broker, but is not (this can be safely
    /// ignored).
    ReplicaNotAvailable,
    /// The server has a configurable maximum message size to avoid unbounded
    /// memory allocation. This error is thrown if the client attempt to
    /// produce a message larger than this maximum.
    MessageSizeTooLarge,
    /// Internal error code for broker-to-broker communication.
    StaleControllerEpoch,
    /// If you specify a string larger than configured maximum for offset
    /// metadata
    OffsetMetadataTooLarge,
    /// The server disconnected before a response was received.
    NetworkException,
    /// The broker returns this error code for an offset fetch request if it
    /// is still loading offsets (after a leader change for that offsets topic
    /// partition), or in response to group membership requests (such as
    /// heartbeats) when group metadata is being loaded by the coordinator.
    GroupLoadInProgress,
    /// The broker returns this error code for group coordinator requests,
    /// offset commits, and most group management requests if the offsets
    /// topic has not yet been created, or if the group coordinator is not
    /// active.
    GroupCoordinatorNotAvailable,
    /// The broker returns this error code if it receives an offset fetch or
    /// commit request for a group that it is not a coordinator for.
    NotCoordinatorForGroup,
    /// For a request which attempts to access an invalid topic (e.g. one
    /// which has an illegal name), or if an attempt is made to write to an
    /// internal topic (such as the consumer offsets topic).
    InvalidTopic,
    /// If a message batch in a produce request exceeds the maximum configured
    /// segment size.
    RecordListTooLarge,
    /// Returned from a produce request when the number of in-sync replicas is
    /// lower than the configured minimum and requiredAcks is -1.
    NotEnoughReplicas,
    /// Returned from a produce request when the message was written to the
    /// log, but with fewer in-sync replicas than required.
    NotEnoughReplicasAfterAppend,
    /// Returned from a produce request if the requested requiredAcks is
    /// invalid (anything other than -1, 1, or 0).
    InvalidRequiredAcks,
    /// Returned from group membership requests (such as heartbeats) when the
    /// generation id provided in the request is not the current generation.
    IllegalGeneration,
    /// Returned in join group when the member provides a protocol type or set
    /// of protocols which is not compatible with the current group.
    InconsistentGroupProtocol,
    /// Returned in join group when the groupId is empty or null.
    InvalidGroupId,
    /// Returned from group requests (offset commits/fetches, heartbeats, etc)
    /// when the memberId is not in the current generation.
    UnknownMemberId,
    /// Return in join group when the requested session timeout is outside of
    /// the allowed range on the broker
    InvalidSessionTimeout,
    /// Returned in heartbeat requests when the coordinator has begun
    /// rebalancing the group. This indicates to the client that it should
    /// rejoin the group.
    RebalanceInProgress,
    /// This error indicates that an offset commit was rejected because of
    /// oversize metadata.
    InvalidCommitOffsetSize,
    /// Returned by the broker when the client is not authorized to access the
    /// requested topic.
    TopicAuthorizationFailed,
    /// Returned by the broker when the client is not authorized to access a
    /// particular groupId.
    GroupAuthorizationFailed,
    /// Returned by the broker when the client is not authorized to use an
    /// inter-broker or administrative API.
    ClusterAuthorizationFailed,
    /// The timestamp of the message is out of acceptable range.
    InvalidTimestamp,
    /// The broker does not support the requested SASL mechanism.
    UnsupportedSaslMechanism,
    /// Request is not valid given the current SASL state.
    IllegalSaslState,
    /// The version of API is not supported.
    UnsupportedVersion,
}

impl KafkaCode {
    /// The numeric code of the entry on the wire.
    pub open spec fn spec_code(self) -> int {
        match self {
            KafkaCode::Unknown => -1,
            KafkaCode::OffsetOutOfRange => 1,
            KafkaCode::CorruptMessage => 2,
            KafkaCode::UnknownTopicOrPartition => 3,
            KafkaCode::InvalidMessageSize => 4,
            KafkaCode::LeaderNotAvailable => 5,
            KafkaCode::NotLeaderForPartition => 6,
            KafkaCode::RequestTimedOut => 7,
            KafkaCode::BrokerNotAvailable => 8,
            KafkaCode::ReplicaNotAvailable => 9,
            KafkaCode::MessageSizeTooLarge => 10,
            KafkaCode::StaleControllerEpoch => 11,
            KafkaCode::OffsetMetadataTooLarge => 12,
            KafkaCode::NetworkException => 13,
            KafkaCode::GroupLoadInProgress => 14,
            KafkaCode::GroupCoordinatorNotAvailable => 15,
            KafkaCode::NotCoordinatorForGroup => 16,
            KafkaCode::InvalidTopic => 17,
            KafkaCode::RecordListTooLarge => 18,
            KafkaCode::NotEnoughReplicas => 19,
            KafkaCode::NotEnoughReplicasAfterAppend => 20,
            KafkaCode::InvalidRequiredAcks => 21,
            KafkaCode::IllegalGeneration => 22,
            KafkaCode::InconsistentGroupProtocol => 23,
            KafkaCode::InvalidGroupId => 24,
            KafkaCode::UnknownMemberId => 25,
            KafkaCode::InvalidSessionTimeout => 26,
            KafkaCode::RebalanceInProgress => 27,
            KafkaCode::InvalidCommitOffsetSize => 28,
            KafkaCode::TopicAuthorizationFailed => 29,
            KafkaCode::GroupAuthorizationFailed => 30,
            KafkaCode::ClusterAuthorizationFailed => 31,
            KafkaCode::InvalidTimestamp => 32,
            KafkaCode::UnsupportedSaslMechanism => 33,
            KafkaCode::IllegalSaslState => 34,
            KafkaCode::UnsupportedVersion => 35,
        }
    }

    /// The symbolic name of the entry.
    pub open spec fn spec_name(self) -> Seq<char> {
        match self {
            KafkaCode::Unknown => "Unknown"@,
            KafkaCode::OffsetOutOfRange => "OffsetOutOfRange"@,
            KafkaCode::CorruptMessage => "CorruptMessage"@,
            KafkaCode::UnknownTopicOrPartition => "UnknownTopicOrPartition"@,
            KafkaCode::InvalidMessageSize => "InvalidMessageSize"@,
            KafkaCode::LeaderNotAvailable => "LeaderNotAvailable"@,
            KafkaCode::NotLeaderForPartition => "NotLeaderForPartition"@,
            KafkaCode::RequestTimedOut => "RequestTimedOut"@,
            KafkaCode::BrokerNotAvailable => "BrokerNotAvailable"@,
            KafkaCode::ReplicaNotAvailable => "ReplicaNotAvailable"@,
            KafkaCode::MessageSizeTooLarge => "MessageSizeTooLarge"@,
            KafkaCode::StaleControllerEpoch => "StaleControllerEpoch"@,
            KafkaCode::OffsetMetadataTooLarge => "OffsetMetadataTooLarge"@,
            KafkaCode::NetworkException => "NetworkException"@,
            KafkaCode::GroupLoadInProgress => "GroupLoadInProgress"@,
            KafkaCode::GroupCoordinatorNotAvailable => "GroupCoordinatorNotAvailable"@,
            KafkaCode::NotCoordinatorForGroup => "NotCoordinatorForGroup"@,
            KafkaCode::InvalidTopic => "InvalidTopic"@,
            KafkaCode::RecordListTooLarge => "RecordListTooLarge"@,
            KafkaCode::NotEnoughReplicas => "NotEnoughReplicas"@,
            KafkaCode::NotEnoughReplicasAfterAppend => "NotEnoughReplicasAfterAppend"@,
            KafkaCode::InvalidRequiredAcks => "InvalidRequiredAcks"@,
            KafkaCode::IllegalGeneration => "IllegalGeneration"@,
            KafkaCode::InconsistentGroupProtocol => "InconsistentGroupProtocol"@,
            KafkaCode::InvalidGroupId => "InvalidGroupId"@,
            KafkaCode::UnknownMemberId => "UnknownMemberId"@,
            KafkaCode::InvalidSessionTimeout => "InvalidSessionTimeout"@,
            KafkaCode::RebalanceInProgress => "RebalanceInProgress"@,
            KafkaCode::InvalidCommitOffsetSize => "InvalidCommitOffsetSize"@,
            KafkaCode::TopicAuthorizationFailed => "TopicAuthorizationFailed"@,
            KafkaCode::GroupAuthorizationFailed => "GroupAuthorizationFailed"@,
            KafkaCode::ClusterAuthorizationFailed => "ClusterAuthorizationFailed"@,
            KafkaCode::InvalidTimestamp => "InvalidTimestamp"@,
            KafkaCode::UnsupportedSaslMechanism => "UnsupportedSaslMechanism"@,
            KafkaCode::IllegalSaslState => "IllegalSaslState"@,
            KafkaCode::UnsupportedVersion => "UnsupportedVersion"@,
        }
    }

    /// What the entry means.
    pub open spec fn spec_meaning(self) -> Seq<char> {
        match self {
            KafkaCode::Unknown => "An unexpected server error"@,
            KafkaCode::OffsetOutOfRange => "The requested offset is outside the range of offsets maintained by the server for the given topic/partition"@,
            KafkaCode::CorruptMessage => "This indicates that a message contents does not match its CRC"@,
            KafkaCode::UnknownTopicOrPartition => "This request is for a topic or partition that does not exist on this broker."@,
            KafkaCode::InvalidMessageSize => "The message has a negative size"@,
            KafkaCode::LeaderNotAvailable => "This error is thrown if we are in the middle of a leadership election and there is currently no leader for this partition and hence it is unavailable for writes."@,
            KafkaCode::NotLeaderForPartition => "This error is thrown if the client attempts to send messages to a replica that is not the leader for some partition. It indicates that the clients metadata is out of date."@,
            KafkaCode::RequestTimedOut => "This error is thrown if the request exceeds the user-specified time limit in the request."@,
            KafkaCode::BrokerNotAvailable => "This is not a client facing error and is used mostly by tools when a broker is not alive."@,
            KafkaCode::ReplicaNotAvailable => "If replica is expected on a broker, but is not (this can be safely ignored)."@,
            KafkaCode::MessageSizeTooLarge => "The server has a configurable maximum message size to avoid unbounded memory allocation. This error is thrown if the client attempt to produce a message larger than this maximum."@,
            KafkaCode::StaleControllerEpoch => "Internal error code for broker-to-broker communication."@,
            KafkaCode::OffsetMetadataTooLarge => "If you specify a string larger than configured maximum for offset metadata"@,
            KafkaCode::NetworkException => "The server disconnected before a response was received."@,
            KafkaCode::GroupLoadInProgress => "The broker returns this error code for an offset fetch request if it is still loading offsets (after a leader change for that offsets topic partition), or in response to group membership requests (such as heartbeats) when group metadata is being loaded by the coordinator."@,
            KafkaCode::GroupCoordinatorNotAvailable => "The broker returns this error code for group coordinator requests, offset commits, and most group management requests if the offsets topic has not yet been created, or if the group coordinator is not active."@,
            KafkaCode::NotCoordinatorForGroup => "The broker returns this error code if it receives an offset fetch or commit request for a group that it is not a coordinator for."@,
            KafkaCode::InvalidTopic => "For a request which attempts to access an invalid topic (e.g. one which has an illegal name), or if an attempt is made to write to an internal topic (such as the consumer offsets topic)."@,
            KafkaCode::RecordListTooLarge => "If a message batch in a produce request exceeds the maximum configured segment size."@,
            KafkaCode::NotEnoughReplicas => "Returned from a produce request when the number of in-sync replicas is lower than the configured minimum and requiredAcks is -1."@,
            KafkaCode::NotEnoughReplicasAfterAppend => "Returned from a produce request when the message was written to the log, but with fewer in-sync replicas than required."@,
            KafkaCode::InvalidRequiredAcks => "Returned from a produce request if the requested requiredAcks is invalid (anything other than -1, 1, or 0)."@,
            KafkaCode::IllegalGeneration => "Returned from group membership requests (such as heartbeats) when the generation id provided in the request is not the current generation."@,
            KafkaCode::InconsistentGroupProtocol => "Returned in join group when the member provides a protocol type or set of protocols which is not compatible with the current group."@,
            KafkaCode::InvalidGroupId => "Returned in join group when the groupId is empty or null."@,
            KafkaCode::UnknownMemberId => "Returned from group requests (offset commits/fetches, heartbeats, etc) when the memberId is not in the current generation."@,
            KafkaCode::InvalidSessionTimeout => "Return in join group when the requested session timeout is outside of the allowed range on the broker"@,
            KafkaCode::RebalanceInProgress => "Returned in heartbeat requests when the coordinator has begun rebalancing the group. This indicates to the client that it should rejoin the group."@,
            KafkaCode::InvalidCommitOffsetSize => "This error indicates that an offset commit was rejected because of oversize metadata."@,
            KafkaCode::TopicAuthorizationFailed => "Returned by the broker when the client is not authorized to access the requested topic."@,
            KafkaCode::GroupAuthorizationFailed => "Returned by the broker when the client is not authorized to access a particular groupId."@,
            KafkaCode::ClusterAuthorizationFailed => "Returned by the broker when the client is not authorized to use an inter-broker or administrative API."@,
            KafkaCode::InvalidTimestamp => "The timestamp of the message is out of acceptable range."@,
            KafkaCode::UnsupportedSaslMechanism => "The broker does not support the requested SASL mechanism."@,
            KafkaCode::IllegalSaslState => "Request is not valid given the current SASL state."@,
            KafkaCode::UnsupportedVersion => "The version of API is not supported."@,
        }
    }

    /// Whether some entry of the catalog has the numeric code `n`.
    pub open spec fn in_catalog(n: int) -> bool {
        n == -1 || 1 <= n <= 35
    }

    /// The entry that a numeric code stands for: the entry with that code,
    /// and `Unknown` for a number that no entry has.
    pub open spec fn spec_from_code(n: int) -> KafkaCode {
        if n == 1 {
            KafkaCode::OffsetOutOfRange
        } else if n == 2 {
            KafkaCode::CorruptMessage
        } else if n == 3 {
            KafkaCode::UnknownTopicOrPartition
        } else if n == 4 {
            KafkaCode::InvalidMessageSize
        } else if n == 5 {
            KafkaCode::LeaderNotAvailable
        } else if n == 6 {
            KafkaCode::NotLeaderForPartition
        } else if n == 7 {
            KafkaCode::RequestTimedOut
        } else if n == 8 {
            KafkaCode::BrokerNotAvailable
        } else if n == 9 {
            KafkaCode::ReplicaNotAvailable
        } else if n == 10 {
            KafkaCode::MessageSizeTooLarge
        } else if n == 11 {
            KafkaCode::StaleControllerEpoch
        } else if n == 12 {
            KafkaCode::OffsetMetadataTooLarge
        } else if n == 13 {
            KafkaCode::NetworkException
        } else if n == 14 {
            KafkaCode::GroupLoadInProgress
        } else if n == 15 {
            KafkaCode::GroupCoordinatorNotAvailable
        } else if n == 16 {
            KafkaCode::NotCoordinatorForGroup
        } else if n == 17 {
            KafkaCode::InvalidTopic
        } else if n == 18 {
            KafkaCode::RecordListTooLarge
        } else if n == 19 {
            KafkaCode::NotEnoughReplicas
        } else if n == 20 {
            KafkaCode::NotEnoughReplicasAfterAppend
        } else if n == 21 {
            KafkaCode::InvalidRequiredAcks
        } else if n == 22 {
            KafkaCode::IllegalGeneration
        } else if n == 23 {
            KafkaCode::InconsistentGroupProtocol
        } else if n == 24 {
            KafkaCode::InvalidGroupId
        } else if n == 25 {
            KafkaCode::UnknownMemberId
        } else if n == 26 {
            KafkaCode::InvalidSessionTimeout
        } else if n == 27 {
            KafkaCode::RebalanceInProgress
        } else if n == 28 {
            KafkaCode::InvalidCommitOffsetSize
        } else if n == 29 {
            KafkaCode::TopicAuthorizationFailed
        } else if n == 30 {
            KafkaCode::GroupAuthorizationFailed
        } else if n == 31 {
            KafkaCode::ClusterAuthorizationFailed
        } else if n == 32 {
            KafkaCode::InvalidTimestamp
        } else if n == 33 {
            KafkaCode::UnsupportedSaslMechanism
        } else if n == 34 {
            KafkaCode::IllegalSaslState
        } else if n == 35 {
            KafkaCode::UnsupportedVersion
        } else {
            KafkaCode::Unknown
        }
    }

    /// Returns the numeric code of the entry on the wire.
    pub fn code(self) -> (n: i16)
        ensures
            n == self.spec_code(),
    {
        match self {
            KafkaCode::Unknown => -1,
            KafkaCode::OffsetOutOfRange => 1,
            KafkaCode::CorruptMessage => 2,
            KafkaCode::UnknownTopicOrPartition => 3,
            KafkaCode::InvalidMessageSize => 4,
            KafkaCode::LeaderNotAvailable => 5,
            KafkaCode::NotLeaderForPartition => 6,
            KafkaCode::RequestTimedOut => 7,
            KafkaCode::BrokerNotAvailable => 8,
            KafkaCode::ReplicaNotAvailable => 9,
            KafkaCode::MessageSizeTooLarge => 10,
            KafkaCode::StaleControllerEpoch => 11,
            KafkaCode::OffsetMetadataTooLarge => 12,
            KafkaCode::NetworkException => 13,
            KafkaCode::GroupLoadInProgress => 14,
            KafkaCode::GroupCoordinatorNotAvailable => 15,
            KafkaCode::NotCoordinatorForGroup => 16,
            KafkaCode::InvalidTopic => 17,
            KafkaCode::RecordListTooLarge => 18,
            KafkaCode::NotEnoughReplicas => 19,
            KafkaCode::NotEnoughReplicasAfterAppend => 20,
            KafkaCode::InvalidRequiredAcks => 21,
            KafkaCode::IllegalGeneration => 22,
            KafkaCode::InconsistentGroupProtocol => 23,
            KafkaCode::InvalidGroupId => 24,
            KafkaCode::UnknownMemberId => 25,
            KafkaCode::InvalidSessionTimeout => 26,
            KafkaCode::RebalanceInProgress => 27,
            KafkaCode::InvalidCommitOffsetSize => 28,
            KafkaCode::TopicAuthorizationFailed => 29,
            KafkaCode::GroupAuthorizationFailed => 30,
            KafkaCode::ClusterAuthorizationFailed => 31,
            KafkaCode::InvalidTimestamp => 32,
            KafkaCode::UnsupportedSaslMechanism => 33,
            KafkaCode::IllegalSaslState => 34,
            KafkaCode::UnsupportedVersion => 35,
        }
    }

    /// Looks a numeric code up in the catalog. A number that no entry has
    /// resolves to `Unknown`.
    pub fn from_code(n: i16) -> (entry: KafkaCode)
        ensures
            entry == Self::spec_from_code(n as int),
    {
        match n {
            1 => KafkaCode::OffsetOutOfRange,
            2 => KafkaCode::CorruptMessage,
            3 => KafkaCode::UnknownTopicOrPartition,
            4 => KafkaCode::InvalidMessageSize,
            5 => KafkaCode::LeaderNotAvailable,
            6 => KafkaCode::NotLeaderForPartition,
            7 => KafkaCode::RequestTimedOut,
            8 => KafkaCode::BrokerNotAvailable,
            9 => KafkaCode::ReplicaNotAvailable,
            10 => KafkaCode::MessageSizeTooLarge,
            11 => KafkaCode::StaleControllerEpoch,
            12 => KafkaCode::OffsetMetadataTooLarge,
            13 => KafkaCode::NetworkException,
            14 => KafkaCode::GroupLoadInProgress,
            15 => KafkaCode::GroupCoordinatorNotAvailable,
            16 => KafkaCode::NotCoordinatorForGroup,
            17 => KafkaCode::InvalidTopic,
            18 => KafkaCode::RecordListTooLarge,
            19 => KafkaCode::NotEnoughReplicas,
            20 => KafkaCode::NotEnoughReplicasAfterAppend,
            21 => KafkaCode::InvalidRequiredAcks,
            22 => KafkaCode::IllegalGeneration,
            23 => KafkaCode::InconsistentGroupProtocol,
            24 => KafkaCode::InvalidGroupId,
            25 => KafkaCode::UnknownMemberId,
            26 => KafkaCode::InvalidSessionTimeout,
            27 => KafkaCode::RebalanceInProgress,
            28 => KafkaCode::InvalidCommitOffsetSize,
            29 => KafkaCode::TopicAuthorizationFailed,
            30 => KafkaCode::GroupAuthorizationFailed,
            31 => KafkaCode::ClusterAuthorizationFailed,
            32 => KafkaCode::InvalidTimestamp,
            33 => KafkaCode::UnsupportedSaslMechanism,
            34 => KafkaCode::IllegalSaslState,
            35 => KafkaCode::UnsupportedVersion,
            _ => KafkaCode::Unknown,
        }
    }

    /// Returns the symbolic name of the entry.
    pub fn name(self) -> (s: &'static str)
        ensures
            s@ == self.spec_name(),
    {
        match self {
            KafkaCode::Unknown => "Unknown",
            KafkaCode::OffsetOutOfRange => "OffsetOutOfRange",
            KafkaCode::CorruptMessage => "CorruptMessage",
            KafkaCode::UnknownTopicOrPartition => "UnknownTopicOrPartition",
            KafkaCode::InvalidMessageSize => "InvalidMessageSize",
            KafkaCode::LeaderNotAvailable => "LeaderNotAvailable",
            KafkaCode::NotLeaderForPartition => "NotLeaderForPartition",
            KafkaCode::RequestTimedOut => "RequestTimedOut",
            KafkaCode::BrokerNotAvailable => "BrokerNotAvailable",
            KafkaCode::ReplicaNotAvailable => "ReplicaNotAvailable",
            KafkaCode::MessageSizeTooLarge => "MessageSizeTooLarge",
            KafkaCode::StaleControllerEpoch => "StaleControllerEpoch",
            KafkaCode::OffsetMetadataTooLarge => "OffsetMetadataTooLarge",
            KafkaCode::NetworkException => "NetworkException",
            KafkaCode::GroupLoadInProgress => "GroupLoadInProgress",
            KafkaCode::GroupCoordinatorNotAvailable => "GroupCoordinatorNotAvailable",
            KafkaCode::NotCoordinatorForGroup => "NotCoordinatorForGroup",
            KafkaCode::InvalidTopic => "InvalidTopic",
            KafkaCode::RecordListTooLarge => "RecordListTooLarge",
            KafkaCode::NotEnoughReplicas => "NotEnoughReplicas",
            KafkaCode::NotEnoughReplicasAfterAppend => "NotEnoughReplicasAfterAppend",
            KafkaCode::InvalidRequiredAcks => "InvalidRequiredAcks",
            KafkaCode::IllegalGeneration => "IllegalGeneration",
            KafkaCode::InconsistentGroupProtocol => "InconsistentGroupProtocol",
            KafkaCode::InvalidGroupId => "InvalidGroupId",
            KafkaCode::UnknownMemberId => "UnknownMemberId",
            KafkaCode::InvalidSessionTimeout => "InvalidSessionTimeout",
            KafkaCode::RebalanceInProgress => "RebalanceInProgress",
            KafkaCode::InvalidCommitOffsetSize => "InvalidCommitOffsetSize",
            KafkaCode::TopicAuthorizationFailed => "TopicAuthorizationFailed",
            KafkaCode::GroupAuthorizationFailed => "GroupAuthorizationFailed",
            KafkaCode::ClusterAuthorizationFailed => "ClusterAuthorizationFailed",
            KafkaCode::InvalidTimestamp => "InvalidTimestamp",
            KafkaCode::UnsupportedSaslMechanism => "UnsupportedSaslMechanism",
            KafkaCode::IllegalSaslState => "IllegalSaslState",
            KafkaCode::UnsupportedVersion => "UnsupportedVersion",
        }
    }

    /// Returns what the entry means, in words.
    pub fn meaning(self) -> (s: &'static str)
        ensures
            s@ == self.spec_meaning(),
    {
        match self {
            KafkaCode::Unknown => "An unexpected server error",
            KafkaCode::OffsetOutOfRange => "The requested offset is outside the range of offsets maintained by the server for the given topic/partition",
            KafkaCode::CorruptMessage => "This indicates that a message contents does not match its CRC",
            KafkaCode::UnknownTopicOrPartition => "This request is for a topic or partition that does not exist on this broker.",
            KafkaCode::InvalidMessageSize => "The message has a negative size",
            KafkaCode::LeaderNotAvailable => "This error is thrown if we are in the middle of a leadership election and there is currently no leader for this partition and hence it is unavailable for writes.",
            KafkaCode::NotLeaderForPartition => "This error is thrown if the client attempts to send messages to a replica that is not the leader for some partition. It indicates that the clients metadata is out of date.",
            KafkaCode::RequestTimedOut => "This error is thrown if the request exceeds the user-specified time limit in the request.",
            KafkaCode::BrokerNotAvailable => "This is not a client facing error and is used mostly by tools when a broker is not alive.",
            KafkaCode::ReplicaNotAvailable => "If replica is expected on a broker, but is not (this can be safely ignored).",
            KafkaCode::MessageSizeTooLarge => "The server has a configurable maximum message size to avoid unbounded memory allocation. This error is thrown if the client attempt to produce a message larger than this maximum.",
            KafkaCode::StaleControllerEpoch => "Internal error code for broker-to-broker communication.",
            KafkaCode::OffsetMetadataTooLarge => "If you specify a string larger than configured maximum for offset metadata",
            KafkaCode::NetworkException => "The server disconnected before a response was received.",
            KafkaCode::GroupLoadInProgress => "The broker returns this error code for an offset fetch request if it is still loading offsets (after a leader change for that offsets topic partition), or in response to group membership requests (such as heartbeats) when group metadata is being loaded by the coordinator.",
            KafkaCode::GroupCoordinatorNotAvailable => "The broker returns this error code for group coordinator requests, offset commits, and most group management requests if the offsets topic has not yet been created, or if the group coordinator is not active.",
            KafkaCode::NotCoordinatorForGroup => "The broker returns this error code if it receives an offset fetch or commit request for a group that it is not a coordinator for.",
            KafkaCode::InvalidTopic => "For a request which attempts to access an invalid topic (e.g. one which has an illegal name), or if an attempt is made to write to an internal topic (such as the consumer offsets topic).",
            KafkaCode::RecordListTooLarge => "If a message batch in a produce request exceeds the maximum configured segment size.",
            KafkaCode::NotEnoughReplicas => "Returned from a produce request when the number of in-sync replicas is lower than the configured minimum and requiredAcks is -1.",
            KafkaCode::NotEnoughReplicasAfterAppend => "Returned from a produce request when the message was written to the log, but with fewer in-sync replicas than required.",
            KafkaCode::InvalidRequiredAcks => "Returned from a produce request if the requested requiredAcks is invalid (anything other than -1, 1, or 0).",
            KafkaCode::IllegalGeneration => "Returned from group membership requests (such as heartbeats) when the generation id provided in the request is not the current generation.",
            KafkaCode::InconsistentGroupProtocol => "Returned in join group when the member provides a protocol type or set of protocols which is not compatible with the current group.",
            KafkaCode::InvalidGroupId => "Returned in join group when the groupId is empty or null.",
            KafkaCode::UnknownMemberId => "Returned from group requests (offset commits/fetches, heartbeats, etc) when the memberId is not in the current generation.",
            KafkaCode::InvalidSessionTimeout => "Return in join group when the requested session timeout is outside of the allowed range on the broker",
            KafkaCode::RebalanceInProgress => "Returned in heartbeat requests when the coordinator has begun rebalancing the group. This indicates to the client that it should rejoin the group.",
            KafkaCode::InvalidCommitOffsetSize => "This error indicates that an offset commit was rejected because of oversize metadata.",
            KafkaCode::TopicAuthorizationFailed => "Returned by the broker when the client is not authorized to access the requested topic.",
            KafkaCode::GroupAuthorizationFailed => "Returned by the broker when the client is not authorized to access a particular groupId.",
            KafkaCode::ClusterAuthorizationFailed => "Returned by the broker when the client is not authorized to use an inter-broker or administrative API.",
            KafkaCode::InvalidTimestamp => "The timestamp of the message is out of acceptable range.",
            KafkaCode::UnsupportedSaslMechanism => "The broker does not support the requested SASL mechanism.",
            KafkaCode::IllegalSaslState => "Request is not valid given the current SASL state.",
            KafkaCode::UnsupportedVersion => "The version of API is not supported.",
        }
    }

    /// Every entry has a numeric code of the catalog, and looking that code up
    /// gives the entry back.
    pub proof fn code_round_trip(entry: KafkaCode)
        ensures
            Self::in_catalog(entry.spec_code()),
            Self::spec_from_code(entry.spec_code()) == entry,
    {
    }

    /// Looking a numeric code of the catalog up gives an entry with that code:
    /// no two entries share a code.
    pub proof fn lookup_round_trip(n: int)
        requires
            Self::in_catalog(n),
        ensures
            Self::spec_from_code(n).spec_code() == n,
    {
    }

    /// A number that no entry has as its code resolves to `Unknown`.
    pub proof fn unassigned_is_unknown(n: int)
        requires
            !Self::in_catalog(n),
        ensures
            Self::spec_from_code(n) == KafkaCode::Unknown,
    {
    }
}

} // verus!
