//! The postcard wire form of the plain values that travel in message
//! buffers: strings, pairs of strings, lists of strings, and a string with
//! a list of 64-bit words.

use vstd::prelude::*;
use vstd::utf8::encode_utf8;
use crate::error::Error;

verus! {

/// The variable-length form of `n`: seven bits per byte, least
/// significant first, the top bit set on every byte but the last.
pub open spec fn spec_varint(n: nat) -> Seq<u8>
    decreases n,
{
    if n < 128 {
        seq![n as u8]
    } else {
        seq![(n % 128 + 128) as u8] + spec_varint(n / 128)
    }
}

/// A string: its byte length, then its UTF-8 bytes.
pub open spec fn spec_str(s: Seq<char>) -> Seq<u8> {
    spec_varint(encode_utf8(s).len()) + encode_utf8(s)
}

/// The strings of `l`, one after the other.
pub open spec fn spec_strs(l: Seq<Seq<char>>) -> Seq<u8>
    decreases l.len(),
{
    if l.len() == 0 {
        Seq::empty()
    } else {
        spec_strs(l.drop_last()) + spec_str(l.last())
    }
}

/// A list of strings: its length, then the strings.
pub open spec fn spec_str_list(l: Seq<Seq<char>>) -> Seq<u8> {
    spec_varint(l.len()) + spec_strs(l)
}

/// The words of `l` in variable-length form, one after the other.
pub open spec fn spec_words(l: Seq<u64>) -> Seq<u8>
    decreases l.len(),
{
    if l.len() == 0 {
        Seq::empty()
    } else {
        spec_words(l.drop_last()) + spec_varint(l.last() as nat)
    }
}

/// A method call: the path as a string, then the argument list (its
/// length, then the words).
pub open spec fn spec_method_call(path: Seq<char>, args: Seq<u64>) -> Seq<u8> {
    spec_str(path) + spec_varint(args.len()) + spec_words(args)
}

/// What the strings of a postcard-encoded list are, when `bytes` begin
/// with one.
pub uninterp spec fn postcard_string_list(bytes: Seq<u8>) -> Option<Seq<Seq<char>>>;

/// The pair `(a, b)` encoded by `postcard::to_allocvec`. Postcard writes
/// a tuple as its elements in order and a string as its varint byte
/// length followed by its bytes, and encoding into a vector cannot fail.
#[verifier::external_body]
pub(crate) fn encode_str_pair(a: &str, b: &str) -> (v: Vec<u8>)
    ensures
        v@ == spec_str(a@) + spec_str(b@),
{
    postcard::to_allocvec(&(a, b)).unwrap_or_default()
}

/// The list `l` encoded by `postcard::to_allocvec`: its varint length,
/// then each string as its varint byte length and bytes; encoding into a
/// vector cannot fail.
#[verifier::external_body]
pub(crate) fn encode_str_list(l: &[String]) -> (v: Vec<u8>)
    ensures
        v@ == spec_str_list(l.deep_view()),
{
    postcard::to_allocvec(l).unwrap_or_default()
}

/// The pair `(path, args)` encoded by `postcard::to_allocvec`: the path as
/// a string, then the list as its varint length and each word in varint
/// form; encoding into a vector cannot fail.
#[verifier::external_body]
pub(crate) fn encode_method_call(path: &str, args: &[u64]) -> (v: Vec<u8>)
    ensures
        v@ == spec_method_call(path@, args@),
{
    postcard::to_allocvec(&(path, args)).unwrap_or_default()
}

/// The strings `postcard::from_bytes` decodes from `bytes` as a list of
/// strings; `InvalidType` when they hold none. What the decoder accepts
/// is named by [`postcard_string_list`], not spelt out here.
#[verifier::external_body]
pub(crate) fn decode_str_list(bytes: &[u8]) -> (r: Result<Vec<String>, Error>)
    ensures
        match postcard_string_list(bytes@) {
            Some(l) => r is Ok && r->Ok_0.deep_view() == l,
            None => r == Err::<Vec<String>, Error>(Error::InvalidType),
        },
{
    postcard::from_bytes::<Vec<String>>(bytes).map_err(|_| Error::InvalidType)
}

} // verus!
