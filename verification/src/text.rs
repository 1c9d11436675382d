//! UTF-8 text decoding: what the standard library's decoder is taken to do,
//! and the error that this library reports for bytes that are not text.
use core::str::Utf8Error;
use vstd::prelude::*;
use vstd::string::StringSliceAdditionalSpecFns;
use vstd::utf8::valid_utf8;

verus! {

/// Why a byte sequence is not UTF-8 text.
#[derive(Debug, PartialEq, Eq, Clone, Copy, Structural)]
pub struct TextError {
    /// The length of the longest prefix of the bytes that is valid UTF-8:
    /// the position of the first byte that is not part of any text.
    pub valid_up_to: usize,
}

/// True when the first `n` bytes are valid UTF-8 and no longer prefix is.
pub open spec fn is_longest_valid_prefix(bytes: Seq<u8>, n: int) -> bool {
    &&& 0 <= n <= bytes.len()
    &&& valid_utf8(bytes.subrange(0, n))
    &&& forall|m: int| n < m <= bytes.len() ==> !valid_utf8(#[trigger] bytes.subrange(0, m))
}

/// At most one length is that of the longest valid prefix.
pub proof fn lemma_longest_valid_prefix_unique(bytes: Seq<u8>, n: int, m: int)
    requires
        is_longest_valid_prefix(bytes, n),
        is_longest_valid_prefix(bytes, m),
    ensures
        n == m,
{
}

/// The longest valid prefix is the whole sequence exactly when the sequence is valid.
pub proof fn lemma_longest_valid_prefix_whole(bytes: Seq<u8>, n: int)
    requires
        is_longest_valid_prefix(bytes, n),
    ensures
        n == bytes.len() <==> valid_utf8(bytes),
{
    assert(bytes.subrange(0, bytes.len() as int) =~= bytes);
}

/// The standard library's UTF-8 decoding error. Nothing of its contents is
/// visible here but what [`utf8_error_valid_up_to`] names.
#[verifier::external_type_specification]
#[verifier::external_body]
pub struct ExUtf8Error(Utf8Error);

/// The index that `Utf8Error::valid_up_to` reports for an error.
pub uninterp spec fn utf8_error_valid_up_to(e: Utf8Error) -> usize;

/// `Utf8Error::valid_up_to` reads the index that the error carries.
pub assume_specification[ Utf8Error::valid_up_to ](e: &Utf8Error) -> (n: usize)
    ensures
        n == utf8_error_valid_up_to(*e),
;

/// `core::str::from_utf8` succeeds exactly on valid UTF-8, and then returns a
/// string slice over the very bytes it was given. On failure the error's
/// `valid_up_to` is the greatest index up to which the input is valid UTF-8,
/// as the documentation of `Utf8Error::valid_up_to` says.
pub assume_specification[ core::str::from_utf8 ](v: &[u8]) -> (res: Result<&str, Utf8Error>)
    ensures
        res is Ok <==> valid_utf8(v@),
        res matches Ok(s) ==> s.spec_bytes() == v@,
        res matches Err(e) ==> is_longest_valid_prefix(v@, utf8_error_valid_up_to(e) as int),
;

} // verus!
