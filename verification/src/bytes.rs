//! Conversions between byte slices and typed values that copy nothing.
//!
//! [`FromBytes`] reads a byte slice as a value of another type that borrows
//! the same memory; [`ToBytes`] lends out the bytes that stand for a value.
use vstd::prelude::*;
use vstd::string::StringSliceAdditionalSpecFns;
use vstd::utf8::{decode_utf8, encode_utf8, valid_utf8};
use vstd::utf8::{encode_utf8_decode_utf8, encode_utf8_valid_utf8};
use crate::text::{is_longest_valid_prefix, lemma_longest_valid_prefix_whole, TextError};

verus! {

/// Given a reference to a byte array, returns a different view of the same data.
/// No copy of the data is performed.
pub trait FromBytes {
    /// What is reported for bytes that cannot be read as this type.
    type Error;

    /// Whether the bytes can be read as a value of this type.
    spec fn accepts(bytes: Seq<u8>) -> bool;

    /// The bytes that this value is a view of.
    spec fn viewed(&self) -> Seq<u8>;

    /// Whether `err` is the error owed for bytes that this type does not accept.
    spec fn reports(err: Self::Error, bytes: Seq<u8>) -> bool;

    fn from_bytes(bytes: &[u8]) -> (res: Result<&Self, Self::Error>)
        ensures
            res is Ok <==> Self::accepts(bytes@),
            res matches Ok(v) ==> v.viewed() == bytes@,
            res matches Err(e) ==> Self::reports(e, bytes@),
    ;
}

/// True when `res` is what [`FromBytes::from_bytes`] owes for `bytes`.
pub open spec fn is_reading_of<T: FromBytes + ?Sized>(
    res: Result<&T, T::Error>,
    bytes: Seq<u8>,
) -> bool {
    &&& res is Ok <==> T::accepts(bytes)
    &&& res matches Ok(v) ==> v.viewed() == bytes
    &&& res matches Err(e) ==> T::reports(e, bytes)
}

/// Bytes read as bytes are themselves: every byte sequence is accepted, and
/// no error is ever owed.
impl FromBytes for [u8] {
    type Error = ();

    open spec fn accepts(bytes: Seq<u8>) -> bool {
        true
    }

    open spec fn viewed(&self) -> Seq<u8> {
        self@
    }

    open spec fn reports(err: (), bytes: Seq<u8>) -> bool {
        false
    }

    fn from_bytes(bytes: &[u8]) -> (res: Result<&[u8], ()>)
        ensures
            res == Ok::<&[u8], ()>(bytes),
    {
        Ok(bytes)
    }
}

/// Bytes read as text: exactly the valid UTF-8 sequences are accepted, and
/// the error for any other says how far the bytes are valid.
impl FromBytes for str {
    type Error = TextError;

    open spec fn accepts(bytes: Seq<u8>) -> bool {
        valid_utf8(bytes)
    }

    open spec fn viewed(&self) -> Seq<u8> {
        self.spec_bytes()
    }

    open spec fn reports(err: TextError, bytes: Seq<u8>) -> bool {
        !valid_utf8(bytes) && is_longest_valid_prefix(bytes, err.valid_up_to as int)
    }

    fn from_bytes(bytes: &[u8]) -> (res: Result<&str, TextError>)
        ensures
            res is Ok <==> valid_utf8(bytes@),
            res matches Ok(s) ==> s@ == decode_utf8(bytes@),
            res matches Err(e) ==> e.valid_up_to < bytes@.len(),
    {
        match core::str::from_utf8(bytes) {
            Ok(s) => {
                proof {
                    encode_utf8_decode_utf8(s@);
                }
                Ok(s)
            },
            Err(e) => {
                let valid_up_to: usize = e.valid_up_to();
                proof {
                    lemma_longest_valid_prefix_whole(bytes@, valid_up_to as int);
                }
                Err(TextError { valid_up_to })
            },
        }
    }
}

/// Given some data, returns the byte representation of that data.
/// No copy of the data is performed.
pub trait ToBytes {
    /// The bytes that stand for this value.
    spec fn repr(&self) -> Seq<u8>;

    fn to_bytes(&self) -> (res: &[u8])
        ensures
            res@ == self.repr(),
    ;
}

impl ToBytes for [u8] {
    open spec fn repr(&self) -> Seq<u8> {
        self@
    }

    fn to_bytes(&self) -> (res: &[u8]) {
        self
    }
}

impl ToBytes for str {
    open spec fn repr(&self) -> Seq<u8> {
        encode_utf8(self@)
    }

    fn to_bytes(&self) -> (res: &[u8]) {
        self.as_bytes()
    }
}

impl ToBytes for Vec<u8> {
    open spec fn repr(&self) -> Seq<u8> {
        self@
    }

    fn to_bytes(&self) -> (res: &[u8]) {
        self.as_slice()
    }
}

impl ToBytes for String {
    open spec fn repr(&self) -> Seq<u8> {
        encode_utf8(self@)
    }

    fn to_bytes(&self) -> (res: &[u8]) {
        self.as_str().as_bytes()
    }
}

impl<'a, T: ToBytes> ToBytes for &'a T {
    open spec fn repr(&self) -> Seq<u8> {
        (**self).repr()
    }

    fn to_bytes(&self) -> (res: &[u8]) {
        (*self).to_bytes()
    }
}

impl ToBytes for () {
    open spec fn repr(&self) -> Seq<u8> {
        Seq::empty()
    }

    fn to_bytes(&self) -> (res: &[u8]) {
        &[]
    }
}

/// Reading bytes as text succeeds exactly on valid UTF-8, and then gives the
/// text that the bytes decode to; a failure points into the bytes.
pub proof fn lemma_text_reading(res: Result<&str, TextError>, bytes: Seq<u8>)
    requires
        is_reading_of::<str>(res, bytes),
    ensures
        res is Ok <==> valid_utf8(bytes),
        res matches Ok(t) ==> t@ == decode_utf8(bytes),
        res matches Err(e) ==> e.valid_up_to < bytes.len(),
{
    match res {
        Ok(t) => {
            encode_utf8_decode_utf8(t@);
        },
        Err(e) => {
            lemma_longest_valid_prefix_whole(bytes, e.valid_up_to as int);
        },
    }
}

/// Round trip of text: whatever reading the bytes of a text as text returns,
/// it is that same text. The bytes of a text are always accepted.
pub proof fn lemma_text_round_trip(text: &str, res: Result<&str, TextError>)
    requires
        is_reading_of::<str>(res, text.repr()),
    ensures
        <str as FromBytes>::accepts(text.repr()),
        res matches Ok(t) && t@ == text@,
{
    encode_utf8_valid_utf8(text@);
    let t = res->Ok_0;
    encode_utf8_decode_utf8(t@);
    encode_utf8_decode_utf8(text@);
}

} // verus!
