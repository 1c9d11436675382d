//! A delivered Kafka message and zero-copy typed views of its key and payload.
//!
//! [`message::Message`] is the handle over one delivered record: it hands out
//! the record's key, payload, topic, partition, offset and timestamp, and
//! never copies the bytes it was given. [`bytes::FromBytes`] and
//! [`bytes::ToBytes`] are the two conversions between byte slices and typed
//! values that the handle's typed views are built on.
pub mod bytes;
pub mod message;
pub mod text;
pub mod timestamp;

pub use bytes::{FromBytes, ToBytes};
pub use message::{Message, MessageRecord};
pub use text::TextError;
pub use timestamp::{Timestamp, TimestampType};
