//! The handle over one delivered message.
//!
//! A [`MessageRecord`] is what the client delivers: borrowed key and payload
//! bytes, either of which may be missing, the bytes of the topic's name, and
//! the record's plain fields. A [`Message`] takes one record and is from then
//! on the only way to it. Every byte slice that the handle gives out borrows
//! from the handle, so none can be kept beyond it.
use vstd::prelude::*;
use vstd::utf8::{decode_utf8, valid_utf8};
use crate::bytes::{is_reading_of, FromBytes};
use crate::text::TextError;
use crate::timestamp::{Timestamp, TimestampType};

verus! {

/// What the client delivers for one message.
#[derive(Debug, Clone, Copy)]
pub struct MessageRecord<'a> {
    /// The key, if the message has one.
    pub key: Option<&'a [u8]>,
    /// The payload, if the message has one.
    pub payload: Option<&'a [u8]>,
    /// The bytes of the name of the topic that the message came from.
    pub topic: &'a [u8],
    /// The partition where the message is stored.
    pub partition: i32,
    /// The offset of the message in its partition.
    pub offset: i64,
    /// The type reported with the raw timestamp.
    pub timestamp_type: TimestampType,
    /// The raw timestamp, in milliseconds since the epoch.
    pub timestamp: i64,
}

/// A record as a mathematical value.
pub ghost struct RecordView {
    pub key: Option<Seq<u8>>,
    pub payload: Option<Seq<u8>>,
    pub topic: Seq<u8>,
    pub partition: i32,
    pub offset: i64,
    pub timestamp_type: TimestampType,
    pub timestamp: i64,
}

/// The contents of a byte slice that may be missing.
pub open spec fn contents(bytes: Option<&[u8]>) -> Option<Seq<u8>> {
    match bytes {
        Some(b) => Some(b@),
        None => None,
    }
}

/// The number of bytes in a sequence that may be missing: none where it is.
pub open spec fn length(bytes: Option<Seq<u8>>) -> nat {
    match bytes {
        Some(b) => b.len(),
        None => 0,
    }
}

/// True when `res` is what reading `bytes` as a `T` owes: nothing where the
/// bytes are missing, and else what [`FromBytes::from_bytes`] owes for them.
pub open spec fn is_view_of<T: FromBytes + ?Sized>(
    res: Option<Result<&T, T::Error>>,
    bytes: Option<Seq<u8>>,
) -> bool {
    match bytes {
        None => res is None,
        Some(b) => res matches Some(r) && is_reading_of::<T>(r, b),
    }
}

impl<'a> View for MessageRecord<'a> {
    type V = RecordView;

    open spec fn view(&self) -> RecordView {
        RecordView {
            key: contents(self.key),
            payload: contents(self.payload),
            topic: self.topic@,
            partition: self.partition,
            offset: self.offset,
            timestamp_type: self.timestamp_type,
            timestamp: self.timestamp,
        }
    }
}

/// A delivered message. It cannot be copied.
#[derive(Debug)]
pub struct Message<'a> {
    record: MessageRecord<'a>,
}

impl<'a> View for Message<'a> {
    type V = RecordView;

    closed spec fn view(&self) -> RecordView {
        self.record@
    }
}

impl<'a> Message<'a> {
    /// Creates a new message that wraps the delivered record.
    pub fn new(record: MessageRecord<'a>) -> (message: Message<'a>)
        ensures
            message@ == record@,
    {
        Message { record }
    }

    /// Returns the length of the key field of the message.
    pub fn key_len(&self) -> (len: usize)
        ensures
            len == length(self@.key),
    {
        match self.record.key {
            Some(k) => k.len(),
            None => 0,
        }
    }

    /// Returns the length of the payload field of the message.
    pub fn payload_len(&self) -> (len: usize)
        ensures
            len == length(self@.payload),
    {
        match self.record.payload {
            Some(p) => p.len(),
            None => 0,
        }
    }

    /// Returns the key of the message, or `None` if there is no key.
    pub fn key(&self) -> (key: Option<&[u8]>)
        ensures
            contents(key) == self@.key,
    {
        self.record.key
    }

    /// Returns the payload of the message, or `None` if there is no payload.
    pub fn payload(&self) -> (payload: Option<&[u8]>)
        ensures
            contents(payload) == self@.payload,
    {
        self.record.payload
    }

    /// Returns the source topic of the message, or the error that says where
    /// the bytes of its name stop being text.
    pub fn try_topic_name(&self) -> (name: Result<&str, TextError>)
        ensures
            is_reading_of::<str>(name, self@.topic),
            name matches Ok(s) ==> s@ == decode_utf8(self@.topic),
    {
        <str as FromBytes>::from_bytes(self.record.topic)
    }

    /// Returns the source topic of the message. The bytes of the name must be
    /// text: a client that delivers anything else has broken its word.
    pub fn topic_name(&self) -> (name: &str)
        requires
            valid_utf8(self@.topic),
        ensures
            name@ == decode_utf8(self@.topic),
    {
        match self.try_topic_name() {
            Ok(name) => name,
            Err(_) => vstd::pervasive::unreached(),
        }
    }

    /// Converts the raw bytes of the payload to a reference of type `&P`,
    /// pointing to the same data inside the message.
    pub fn payload_view<P: ?Sized + FromBytes>(&self) -> (view: Option<Result<&P, P::Error>>)
        ensures
            is_view_of::<P>(view, self@.payload),
    {
        match self.record.payload {
            Some(p) => Some(P::from_bytes(p)),
            None => None,
        }
    }

    /// Converts the raw bytes of the key to a reference of type `&K`,
    /// pointing to the same data inside the message.
    pub fn key_view<K: ?Sized + FromBytes>(&self) -> (view: Option<Result<&K, K::Error>>)
        ensures
            is_view_of::<K>(view, self@.key),
    {
        match self.record.key {
            Some(k) => Some(K::from_bytes(k)),
            None => None,
        }
    }

    /// Returns the partition number where the message is stored.
    pub fn partition(&self) -> (partition: i32)
        ensures
            partition == self@.partition,
    {
        self.record.partition
    }

    /// Returns the offset of the message.
    pub fn offset(&self) -> (offset: i64)
        ensures
            offset == self@.offset,
    {
        self.record.offset
    }

    /// Returns the message timestamp, if one is available.
    pub fn timestamp(&self) -> (timestamp: Timestamp)
        ensures
            timestamp == Timestamp::of(self@.timestamp_type, self@.timestamp),
    {
        Timestamp::from_raw(self.record.timestamp_type, self.record.timestamp)
    }
}

/// A message without a key gives out no key, and no view of its key as any type.
pub proof fn lemma_missing_key_has_no_view<T: FromBytes + ?Sized>(
    message: &Message,
    key: Option<&[u8]>,
    view: Option<Result<&T, T::Error>>,
)
    requires
        message@.key is None,
        contents(key) == message@.key,
        is_view_of::<T>(view, message@.key),
    ensures
        key is None,
        view is None,
{
}

/// The key of a message made from a record that holds one has the bytes of
/// the record's key, as many as they are and in their order.
pub proof fn lemma_present_key_is_kept(
    record: &MessageRecord,
    message: &Message,
    source: &[u8],
    key: Option<&[u8]>,
)
    requires
        record.key == Some(source),
        message@ == record@,
        contents(key) == message@.key,
    ensures
        key matches Some(k) && k@ == source@,
        length(message@.key) == source@.len(),
{
}

} // verus!
