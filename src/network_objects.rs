//! The request record: headers, method and body, with its text and binary
//! codecs.

use vstd::prelude::*;
use crate::codec::{
    decoded_as, fields_layout, method_from_tag, method_tag, object_member,
    read_fields, read_object_member, read_text_member, starts_with_fields, tag_of_method,
    text_member, write_fields, lemma_method_tag_inverse, DecodeError, DecodeFailure,
    EncodeError,
};
use crate::json::{json_document, parse_json, Json};
use crate::utils::{method_of_text, parse_method, ParseError};

pub use crate::utils::Methods;

verus! {

/// The headers of a request. In text, `content_type` is keyed
/// `"Content-Type"` and `authorization` is keyed `"Authorization"`.
#[derive(Clone, Debug, PartialEq, Eq)]
pub struct Headers {
    pub content_type: String,
    pub authorization: String,
}

/// The body of a request. In text, `user` is keyed `"user"`.
#[derive(Clone, Debug, PartialEq, Eq)]
pub struct Body {
    pub user: String,
}

/// A request. In text, its parts are keyed `"headers"`, `"method"` and
/// `"body"`, and the method is written as its canonical token.
#[derive(Clone, Debug, PartialEq, Eq)]
pub struct Req {
    pub headers: Headers,
    pub method: Methods,
    pub body: Body,
}

/// A request's content as character sequences.
pub struct RecordModel {
    pub content_type: Seq<char>,
    pub authorization: Seq<char>,
    pub method: Methods,
    pub user: Seq<char>,
}

impl View for Req {
    type V = RecordModel;

    open spec fn view(&self) -> RecordModel {
        RecordModel {
            content_type: self.headers.content_type@,
            authorization: self.headers.authorization@,
            method: self.method,
            user: self.body.user@,
        }
    }
}

/// The header values of a headers object: content type, then authorization.
pub open spec fn headers_of(h: Seq<(String, Json)>) -> Result<(Seq<char>, Seq<char>), DecodeFailure> {
    match text_member(h, "Content-Type"@) {
        Err(e) => Err(e),
        Ok(content_type) => match text_member(h, "Authorization"@) {
            Err(e) => Err(e),
            Ok(authorization) => Ok((content_type, authorization)),
        },
    }
}

/// The request that a JSON document describes. The fields are read in the
/// order headers, method, body, and the first that fails gives the error; a
/// document that is not an object is not a request at all.
pub open spec fn record_of_json(doc: Json) -> Result<RecordModel, DecodeFailure> {
    match doc {
        Json::Object(top) => match object_member(top@, "headers"@) {
            Err(e) => Err(e),
            Ok(h) => match headers_of(h) {
                Err(e) => Err(e),
                Ok(hv) => match text_member(top@, "method"@) {
                    Err(e) => Err(e),
                    Ok(token) => match method_of_text(token) {
                        None => Err(DecodeFailure::UnknownMethod(token)),
                        Some(method) => match object_member(top@, "body"@) {
                            Err(e) => Err(e),
                            Ok(b) => match text_member(b, "user"@) {
                                Err(e) => Err(e),
                                Ok(user) => Ok(
                                    RecordModel {
                                        content_type: hv.0,
                                        authorization: hv.1,
                                        method,
                                        user,
                                    },
                                ),
                            },
                        },
                    },
                },
            },
        },
        _ => Err(DecodeFailure::InvalidEncoding),
    }
}

/// The request that the text `bytes` describes.
pub open spec fn record_of_text(bytes: Seq<u8>) -> Result<RecordModel, DecodeFailure> {
    match json_document(bytes) {
        None => Err(DecodeFailure::InvalidEncoding),
        Some(doc) => record_of_json(doc),
    }
}

/// The binary form of a request.
pub open spec fn record_bytes(m: RecordModel) -> Seq<u8> {
    fields_layout(m.content_type, m.authorization, method_tag(m.method), m.user)
}

/// `bytes` begins with the binary form of `m`.
pub open spec fn frames_record(bytes: Seq<u8>, m: RecordModel) -> bool {
    starts_with_fields(bytes, m.content_type, m.authorization, method_tag(m.method), m.user)
}

/// The bytes written for a record are read back as that record: they begin
/// with the binary form of that record, on which `decode_binary` returns it.
pub proof fn lemma_binary_round_trip(m: RecordModel)
    ensures
        frames_record(record_bytes(m), m),
{
    let b = record_bytes(m);
    assert(b.subrange(0, b.len() as int) =~= b);
}

/// Encoding is deterministic: requests with equal content have the same
/// binary form.
pub proof fn lemma_encoding_deterministic(a: Req, b: Req)
    requires
        a@ == b@,
    ensures
        record_bytes(a@) == record_bytes(b@),
{
}

/// A request object that can be read from JSON text received on the network.
pub trait NetworkObj: Sized + View {
    /// What the text `network` decodes to.
    spec fn network_decoding(network: Seq<u8>) -> Result<Self::V, DecodeFailure>;

    fn deserialize_network(&self, network: &[u8]) -> (r: Result<Self, DecodeError>)
        ensures
            decoded_as(r, Self::network_decoding(network@)),
    ;
}

impl NetworkObj for Req {
    open spec fn network_decoding(network: Seq<u8>) -> Result<RecordModel, DecodeFailure> {
        record_of_text(network)
    }

    fn deserialize_network(&self, network: &[u8]) -> (r: Result<Req, DecodeError>) {
        Req::decode_text(network)
    }
}

impl Headers {
    /// Reads the headers from the members of a headers object.
    pub fn from_members(h: &Vec<(String, Json)>) -> (r: Result<Headers, DecodeError>)
        ensures
            match r {
                Ok(v) => headers_of(h@) == Ok::<(Seq<char>, Seq<char>), DecodeFailure>(
                    (v.content_type@, v.authorization@),
                ),
                Err(e) => headers_of(h@) == Err::<(Seq<char>, Seq<char>), DecodeFailure>(e@),
            },
    {
        let content_type = match read_text_member(h, "Content-Type") {
            Ok(s) => s,
            Err(e) => return Err(e),
        };
        let authorization = match read_text_member(h, "Authorization") {
            Ok(s) => s,
            Err(e) => return Err(e),
        };
        Ok(Headers { content_type, authorization })
    }
}

impl Req {
    /// Reads a request from a JSON document.
    pub fn from_json(doc: &Json) -> (r: Result<Req, DecodeError>)
        ensures
            decoded_as(r, record_of_json(*doc)),
    {
        let top = match doc {
            Json::Object(top) => top,
            _ => return Err(DecodeError::InvalidEncoding),
        };
        let h = match read_object_member(top, "headers") {
            Ok(h) => h,
            Err(e) => return Err(e),
        };
        let headers = match Headers::from_members(h) {
            Ok(v) => v,
            Err(e) => return Err(e),
        };
        let token = match read_text_member(top, "method") {
            Ok(t) => t,
            Err(e) => return Err(e),
        };
        let method = match parse_method(token.as_str()) {
            Ok(m) => m,
            Err(ParseError::UnknownMethod(t)) => return Err(DecodeError::UnknownMethod(t)),
        };
        let b = match read_object_member(top, "body") {
            Ok(b) => b,
            Err(e) => return Err(e),
        };
        let user = match read_text_member(b, "user") {
            Ok(u) => u,
            Err(e) => return Err(e),
        };
        Ok(Req { headers, method, body: Body { user } })
    }

    /// Reads a request from JSON text.
    pub fn decode_text(bytes: &[u8]) -> (r: Result<Req, DecodeError>)
        ensures
            decoded_as(r, record_of_text(bytes@)),
    {
        match parse_json(bytes) {
            Ok(doc) => Req::from_json(&doc),
            Err(_) => Err(DecodeError::InvalidEncoding),
        }
    }

    /// Writes the request in its binary form. It always succeeds.
    pub fn encode_binary(&self) -> (r: Result<Vec<u8>, EncodeError>)
        ensures
            r is Ok,
            r matches Ok(b) ==> b@ == record_bytes(self@),
    {
        let tag = tag_of_method(self.method);
        match write_fields(&self.headers.content_type, &self.headers.authorization, tag, &self.body.user) {
            Ok(b) => Ok(b),
            Err(_) => Err(EncodeError::AllocationFailure),
        }
    }

    /// Reads a request from the front of a binary buffer. It succeeds exactly
    /// where the buffer begins with the binary form of a request, and then
    /// returns that request.
    pub fn decode_binary(bytes: &[u8]) -> (r: Result<Req, DecodeError>)
        ensures
            r matches Ok(v) ==> frames_record(bytes@, v@),
            forall|m: RecordModel| #[trigger]
                frames_record(bytes@, m) ==> (r matches Ok(v) && v@ == m),
            r matches Err(e) ==> e == DecodeError::CorruptBinary,
    {
        let r = match read_fields(bytes) {
            Err(_) => Err(DecodeError::CorruptBinary),
            Ok((content_type, authorization, tag, user)) => match method_from_tag(tag) {
                None => Err(DecodeError::CorruptBinary),
                Some(method) => {
                    proof {
                        lemma_method_tag_inverse(method, tag);
                    }
                    Ok(Req { headers: Headers { content_type, authorization }, method, body: Body { user } })
                },
            },
        };
        proof {
            assert forall|m: RecordModel| #[trigger]
                frames_record(bytes@, m) implies (r matches Ok(v) && v@ == m) by {
                let f = (m.content_type, m.authorization, method_tag(m.method), m.user);
                assert(starts_with_fields(bytes@, f.0, f.1, f.2, f.3));
                lemma_method_tag_inverse(m.method, f.2);
            }
        }
        r
    }
}

} // verus!
