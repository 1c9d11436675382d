//! The timestamp of a message.
use vstd::prelude::*;

verus! {

/// How the broker or the producer stamped a message, as the client reports it
/// beside the raw timestamp value.
#[derive(Debug, PartialEq, Eq, Clone, Copy, Structural)]
pub enum TimestampType {
    /// The message carries no timestamp.
    NotAvailable,
    /// The timestamp was set by the producer when the message was created.
    CreateTime,
    /// The timestamp was set by the broker when the message was appended to the log.
    LogAppendTime,
}

/// Timestamp of a message, in milliseconds since the epoch.
#[derive(Debug, PartialEq, Eq, Clone, Copy, Structural)]
pub enum Timestamp {
    NotAvailable,
    CreateTime(i64),
    LogAppendTime(i64),
}

impl Timestamp {
    /// The timestamp that a raw value stands for under the given type.
    /// A raw value reported without a timestamp type carries no information.
    pub open spec fn of(kind: TimestampType, millis: i64) -> Timestamp {
        match kind {
            TimestampType::NotAvailable => Timestamp::NotAvailable,
            TimestampType::CreateTime => Timestamp::CreateTime(millis),
            TimestampType::LogAppendTime => Timestamp::LogAppendTime(millis),
        }
    }

    /// Builds the timestamp from the raw value and the type reported with it.
    pub fn from_raw(kind: TimestampType, millis: i64) -> (t: Timestamp)
        ensures
            t == Timestamp::of(kind, millis),
    {
        match kind {
            TimestampType::NotAvailable => Timestamp::NotAvailable,
            TimestampType::CreateTime => Timestamp::CreateTime(millis),
            TimestampType::LogAppendTime => Timestamp::LogAppendTime(millis),
        }
    }
}

} // verus!
