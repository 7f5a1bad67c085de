//! Errors of the codec, reading typed fields out of JSON objects, and the
//! binary layout of a record's fields, written and read by bincode.

use vstd::prelude::*;
use vstd::utf8::encode_utf8;
use crate::json::{find_member, json_kind, kind_name, member, Json};
use crate::utils::Methods;

verus! {

#[verifier::external_type_specification]
#[verifier::external_body]
pub struct ExBincodeErrorKind(bincode::ErrorKind);

/// Why a record could not be read.
#[derive(Clone, Debug, PartialEq, Eq)]
pub enum DecodeError {
    /// The bytes are not one JSON object in UTF-8.
    InvalidEncoding,
    /// A required key is absent.
    MissingField(String),
    /// A field holds a value of another JSON type: the key, the type expected
    /// and the type found.
    TypeMismatch(String, String, String),
    /// The method field holds a token that names no verb.
    UnknownMethod(String),
    /// The binary buffer does not start with a record's layout.
    CorruptBinary,
}

/// A `DecodeError` with its strings as character sequences.
pub enum DecodeFailure {
    InvalidEncoding,
    MissingField(Seq<char>),
    TypeMismatch(Seq<char>, Seq<char>, Seq<char>),
    UnknownMethod(Seq<char>),
    CorruptBinary,
}

impl View for DecodeError {
    type V = DecodeFailure;

    open spec fn view(&self) -> DecodeFailure {
        match self {
            DecodeError::InvalidEncoding => DecodeFailure::InvalidEncoding,
            DecodeError::MissingField(k) => DecodeFailure::MissingField(k@),
            DecodeError::TypeMismatch(k, e, a) => DecodeFailure::TypeMismatch(k@, e@, a@),
            DecodeError::UnknownMethod(t) => DecodeFailure::UnknownMethod(t@),
            DecodeError::CorruptBinary => DecodeFailure::CorruptBinary,
        }
    }
}

/// Why a record could not be written.
#[derive(Clone, Debug, PartialEq, Eq)]
pub enum EncodeError {
    AllocationFailure,
}

/// `r` is the outcome that `m` describes: the same value's view, or the same
/// error's.
pub open spec fn decoded_as<T: View>(r: Result<T, DecodeError>, m: Result<T::V, DecodeFailure>) -> bool {
    match r {
        Ok(v) => m == Ok::<T::V, DecodeFailure>(v@),
        Err(e) => m == Err::<T::V, DecodeFailure>(e@),
    }
}

/// The text held under `key`, which must be a JSON string.
pub open spec fn text_member(entries: Seq<(String, Json)>, key: Seq<char>) -> Result<Seq<char>, DecodeFailure> {
    match member(entries, key) {
        None => Err(DecodeFailure::MissingField(key)),
        Some(Json::Str(s)) => Ok(s@),
        Some(j) => Err(DecodeFailure::TypeMismatch(key, "string"@, json_kind(j))),
    }
}

/// The members held under `key`, which must be a JSON object.
pub open spec fn object_member(entries: Seq<(String, Json)>, key: Seq<char>) -> Result<Seq<(String, Json)>, DecodeFailure> {
    match member(entries, key) {
        None => Err(DecodeFailure::MissingField(key)),
        Some(Json::Object(o)) => Ok(o@),
        Some(j) => Err(DecodeFailure::TypeMismatch(key, "object"@, json_kind(j))),
    }
}

/// Reads the string member `key` of an object.
pub fn read_text_member(entries: &Vec<(String, Json)>, key: &str) -> (r: Result<String, DecodeError>)
    ensures
        decoded_as(r, text_member(entries@, key@)),
{
    let k = key.to_owned();
    match find_member(entries, &k) {
        None => Err(DecodeError::MissingField(k)),
        Some(Json::Str(s)) => Ok(s.clone()),
        Some(j) => Err(DecodeError::TypeMismatch(k, "string".to_owned(), kind_name(j))),
    }
}

/// Reads the object member `key` of an object.
pub fn read_object_member<'a>(entries: &'a Vec<(String, Json)>, key: &str) -> (r: Result<&'a Vec<(String, Json)>, DecodeError>)
    ensures
        match r {
            Ok(o) => object_member(entries@, key@) == Ok::<Seq<(String, Json)>, DecodeFailure>(o@),
            Err(e) => object_member(entries@, key@) == Err::<Seq<(String, Json)>, DecodeFailure>(e@),
        },
{
    let k = key.to_owned();
    match find_member(entries, &k) {
        None => Err(DecodeError::MissingField(k)),
        Some(Json::Object(o)) => Ok(o),
        Some(j) => Err(DecodeError::TypeMismatch(k, "object".to_owned(), kind_name(j))),
    }
}

/// The tag that stands for a verb in the binary layout: its position in the
/// declaration of `Methods`, from zero.
pub open spec fn method_tag(m: Methods) -> u32 {
    match m {
        Methods::GET => 0,
        Methods::HEAD => 1,
        Methods::POST => 2,
        Methods::PUT => 3,
        Methods::DELETE => 4,
        Methods::CONNECT => 5,
        Methods::OPTIONS => 6,
        Methods::TRACE => 7,
        Methods::PATCH => 8,
    }
}

/// The verb that `tag` stands for, if any.
pub open spec fn method_of_tag(tag: u32) -> Option<Methods> {
    if tag == 0 {
        Some(Methods::GET)
    } else if tag == 1 {
        Some(Methods::HEAD)
    } else if tag == 2 {
        Some(Methods::POST)
    } else if tag == 3 {
        Some(Methods::PUT)
    } else if tag == 4 {
        Some(Methods::DELETE)
    } else if tag == 5 {
        Some(Methods::CONNECT)
    } else if tag == 6 {
        Some(Methods::OPTIONS)
    } else if tag == 7 {
        Some(Methods::TRACE)
    } else if tag == 8 {
        Some(Methods::PATCH)
    } else {
        None
    }
}

/// Tags and verbs correspond one to one.
pub proof fn lemma_method_tag_inverse(m: Methods, tag: u32)
    ensures
        method_of_tag(method_tag(m)) == Some(m),
        method_of_tag(tag) == Some(m) ==> method_tag(m) == tag,
{
}

/// The tag of `m`.
pub fn tag_of_method(m: Methods) -> (r: u32)
    ensures
        r == method_tag(m),
{
    match m {
        Methods::GET => 0,
        Methods::HEAD => 1,
        Methods::POST => 2,
        Methods::PUT => 3,
        Methods::DELETE => 4,
        Methods::CONNECT => 5,
        Methods::OPTIONS => 6,
        Methods::TRACE => 7,
        Methods::PATCH => 8,
    }
}

/// The verb that `tag` stands for.
pub fn method_from_tag(tag: u32) -> (r: Option<Methods>)
    ensures
        r == method_of_tag(tag),
{
    match tag {
        0 => Some(Methods::GET),
        1 => Some(Methods::HEAD),
        2 => Some(Methods::POST),
        3 => Some(Methods::PUT),
        4 => Some(Methods::DELETE),
        5 => Some(Methods::CONNECT),
        6 => Some(Methods::OPTIONS),
        7 => Some(Methods::TRACE),
        8 => Some(Methods::PATCH),
        _ => None,
    }
}

/// `n` as `width` bytes, least significant first.
pub open spec fn le_bytes(n: nat, width: nat) -> Seq<u8>
    decreases width,
{
    if width == 0 {
        Seq::empty()
    } else {
        seq![(n % 256) as u8] + le_bytes(n / 256, (width - 1) as nat)
    }
}

/// A string in the layout: its length in bytes as eight bytes, then its UTF-8
/// bytes.
pub open spec fn text_frame(s: Seq<char>) -> Seq<u8> {
    le_bytes(encode_utf8(s).len(), 8) + encode_utf8(s)
}

/// The layout of two strings, a 32-bit tag and a string, one after another.
pub open spec fn fields_layout(first: Seq<char>, second: Seq<char>, tag: u32, last: Seq<char>) -> Seq<u8> {
    text_frame(first) + text_frame(second) + le_bytes(tag as nat, 4) + text_frame(last)
}

/// `bytes` begins with the layout of the given fields.
pub open spec fn starts_with_fields(
    bytes: Seq<u8>,
    first: Seq<char>,
    second: Seq<char>,
    tag: u32,
    last: Seq<char>,
) -> bool {
    let layout = fields_layout(first, second, tag, last);
    layout.len() <= bytes.len() && bytes.subrange(0, layout.len() as int) == layout
}

/// Relies on bincode::serialize on a tuple, under bincode's default options:
/// integers as fixed-width little-endian bytes, a string as its byte length in
/// a u64 and then its UTF-8 bytes, the tuple's elements one after another.
/// These options set no size limit and write into a `Vec`, so serializing
/// strings and an integer has no failing path.
#[verifier::external_body]
pub(crate) fn write_fields(first: &String, second: &String, tag: u32, last: &String) -> (r: Result<
    Vec<u8>,
    Box<bincode::ErrorKind>,
>)
    ensures
        r is Ok,
        r matches Ok(b) ==> b@ == fields_layout(first@, second@, tag, last@),
{
    bincode::serialize(&(first, second, tag, last))
}

/// Relies on bincode::deserialize::<(String, String, u32, String)>, under
/// bincode's default options, which leave bytes after the value unread: it
/// reads the layout that `write_fields` writes from the front of the buffer,
/// and fails where the buffer does not begin with such a layout (too short,
/// or a string that is not UTF-8).
#[verifier::external_body]
pub(crate) fn read_fields(bytes: &[u8]) -> (r: Result<(String, String, u32, String), Box<bincode::ErrorKind>>)
    ensures
        r matches Ok(t) ==> starts_with_fields(bytes@, t.0@, t.1@, t.2, t.3@),
        r matches Ok(t) ==> forall|f: (Seq<char>, Seq<char>, u32, Seq<char>)|
            #[trigger] starts_with_fields(bytes@, f.0, f.1, f.2, f.3) ==> t.0@ == f.0 && t.1@ == f.1
                && t.2 == f.2 && t.3@ == f.3,
        r is Err ==> forall|f: (Seq<char>, Seq<char>, u32, Seq<char>)|
            !#[trigger] starts_with_fields(bytes@, f.0, f.1, f.2, f.3),
{
    bincode::deserialize::<(String, String, u32, String)>(bytes)
}

} // verus!
