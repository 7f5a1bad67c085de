//! Request objects for HTTP services: a closed set of method verbs, a record
//! shape of headers, method and body, and a codec that reads records from JSON
//! text and writes them to, and reads them back from, a compact binary layout.

use vstd::prelude::*;

pub mod codec;
pub mod json;
pub mod network_objects;
pub mod utils;

use crate::codec::{decoded_as, DecodeError, DecodeFailure, EncodeError};
use crate::network_objects::{record_bytes, record_of_text, RecordModel, Req};

verus! {

/// An HTTP object that is read from JSON text and written in a binary form.
pub trait HttpObj: Sized + View {
    /// What the text `http_bin` decodes to.
    spec fn text_decoding(http_bin: Seq<u8>) -> Result<Self::V, DecodeFailure>;

    /// The binary form of an object with content `http_obj`.
    spec fn binary_form(http_obj: Self::V) -> Seq<u8>;

    fn serialize_to_struct(http_bin: &[u8]) -> (r: Result<Self, DecodeError>)
        ensures
            decoded_as(r, Self::text_decoding(http_bin@)),
    ;

    fn serialize_to_binary(http_obj: Self) -> (r: Result<Vec<u8>, EncodeError>)
        ensures
            r is Ok,
            r matches Ok(b) ==> b@ == Self::binary_form(http_obj@),
    ;
}

impl HttpObj for Req {
    open spec fn text_decoding(http_bin: Seq<u8>) -> Result<RecordModel, DecodeFailure> {
        record_of_text(http_bin)
    }

    open spec fn binary_form(http_obj: RecordModel) -> Seq<u8> {
        record_bytes(http_obj)
    }

    fn serialize_to_struct(http_bin: &[u8]) -> (r: Result<Req, DecodeError>) {
        Req::decode_text(http_bin)
    }

    fn serialize_to_binary(http_obj: Req) -> (r: Result<Vec<u8>, EncodeError>) {
        http_obj.encode_binary()
    }
}

} // verus!
