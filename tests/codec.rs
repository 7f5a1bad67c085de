use malaga_http_utils::codec::DecodeError;
use malaga_http_utils::json::Json;
use malaga_http_utils::network_objects::{Body, Headers, NetworkObj, Req};
use malaga_http_utils::utils::{get_method, parse_method, Methods, ParseError};
use malaga_http_utils::HttpObj;

const DOCUMENT: &[u8] = b"{
            \"headers\": {
                \"Content-Type\": \"application/json\",
                \"Authorization\": \"Basis 1ddmcdd\"
            },
            \"method\": \"POST\",
            \"body\": {
                \"user\":\"test\"
            }
        }";

fn expected() -> Req {
    Req {
        headers: Headers {
            content_type: String::from("application/json"),
            authorization: String::from("Basis 1ddmcdd"),
        },
        method: Methods::POST,
        body: Body { user: String::from("test") },
    }
}

fn sample(method: Methods) -> Req {
    Req {
        headers: Headers { content_type: String::from("a"), authorization: String::new() },
        method,
        body: Body { user: String::from("xy") },
    }
}

#[test]
fn it_should_serialize_to_strcut() {
    let resq_serialized: Req = Req::serialize_to_struct(DOCUMENT).unwrap();
    let method = get_method(resq_serialized.method);

    assert_eq!(resq_serialized.body.user, "test");
    assert_eq!(method, "POST");
}

#[test]
fn it_should_serializa_to_binary() {
    let resq_struct_ser: Req = Req::serialize_to_struct(DOCUMENT).unwrap();
    let resq_binary_ser: Vec<u8> = Req::serialize_to_binary(resq_struct_ser).unwrap();
    let req_string: Req = Req::decode_binary(&resq_binary_ser[..]).unwrap();

    assert_eq!(req_string, expected());
}

#[test]
fn binary_round_trip_for_every_method() {
    let all = [
        Methods::GET,
        Methods::HEAD,
        Methods::POST,
        Methods::PUT,
        Methods::DELETE,
        Methods::CONNECT,
        Methods::OPTIONS,
        Methods::TRACE,
        Methods::PATCH,
    ];
    for m in all {
        let v = sample(m);
        let bytes = v.encode_binary().unwrap();
        assert_eq!(Req::decode_binary(&bytes), Ok(v));
    }
}

#[test]
fn binary_round_trip_of_non_ascii_and_empty_text() {
    let v = Req {
        headers: Headers { content_type: String::new(), authorization: String::from("clé ✓") },
        method: Methods::DELETE,
        body: Body { user: String::from("ユーザー") },
    };
    let bytes = v.encode_binary().unwrap();
    assert_eq!(Req::decode_binary(&bytes), Ok(v));
}

#[test]
fn method_tokens_are_exact_and_read_back() {
    let cases = [
        (Methods::GET, "GET"),
        (Methods::HEAD, "HEAD"),
        (Methods::POST, "POST"),
        (Methods::PUT, "PUT"),
        (Methods::DELETE, "DELETE"),
        (Methods::CONNECT, "CONNECT"),
        (Methods::OPTIONS, "OPTIONS"),
        (Methods::TRACE, "TRACE"),
        (Methods::PATCH, "PATCH"),
    ];
    for (m, token) in cases {
        assert_eq!(get_method(m), token);
        assert_eq!(parse_method(token), Ok(m));
    }
}

#[test]
fn method_tokens_are_case_sensitive() {
    assert_eq!(parse_method("post"), Err(ParseError::UnknownMethod(String::from("post"))));
    assert_eq!(parse_method("GETS"), Err(ParseError::UnknownMethod(String::from("GETS"))));
    assert_eq!(parse_method(""), Err(ParseError::UnknownMethod(String::new())));
}

#[test]
fn unknown_method_is_rejected() {
    let text = b"{\"headers\": {\"Content-Type\": \"a\", \"Authorization\": \"b\"}, \"method\": \"FOO\", \"body\": {\"user\": \"u\"}}";
    assert_eq!(Req::decode_text(text), Err(DecodeError::UnknownMethod(String::from("FOO"))));
}

#[test]
fn missing_body_is_rejected() {
    let text = b"{\"headers\": {\"Content-Type\": \"a\", \"Authorization\": \"b\"}, \"method\": \"GET\"}";
    assert_eq!(Req::decode_text(text), Err(DecodeError::MissingField(String::from("body"))));
}

#[test]
fn missing_header_is_rejected() {
    let text = b"{\"headers\": {\"Authorization\": \"b\"}, \"method\": \"GET\", \"body\": {\"user\": \"u\"}}";
    assert_eq!(Req::decode_text(text), Err(DecodeError::MissingField(String::from("Content-Type"))));
}

#[test]
fn snake_case_header_key_is_not_the_external_key() {
    let text = b"{\"headers\": {\"content_type\": \"a\", \"Authorization\": \"b\"}, \"method\": \"GET\", \"body\": {\"user\": \"u\"}}";
    assert_eq!(Req::decode_text(text), Err(DecodeError::MissingField(String::from("Content-Type"))));
}

#[test]
fn header_keys_map_to_fields() {
    let text = b"{\"headers\": {\"Content-Type\": \"application/json\", \"Authorization\": \"Basis 1ddmcdd\"}, \"method\": \"POST\", \"body\": {\"user\": \"test\"}}";
    let r = Req::decode_text(text).unwrap();
    assert_eq!(r.headers.content_type, "application/json");
    assert_eq!(r.headers.authorization, "Basis 1ddmcdd");
    assert_eq!(r.method, Methods::POST);
    assert_eq!(r.body.user, "test");
}

#[test]
fn keys_may_come_in_any_order_and_extra_keys_are_ignored() {
    let text = b"{\"body\": {\"user\": \"test\", \"age\": 3}, \"extra\": [1, null], \"method\": \"POST\", \"headers\": {\"Authorization\": \"Basis 1ddmcdd\", \"Content-Type\": \"application/json\"}}";
    assert_eq!(Req::decode_text(text), Ok(expected()));
}

#[test]
fn text_then_binary_then_back_is_the_same_record() {
    let from_text = Req::decode_text(DOCUMENT).unwrap();
    let bytes = from_text.encode_binary().unwrap();
    let from_binary = Req::decode_binary(&bytes).unwrap();
    assert_eq!(from_binary, from_text);
    assert_eq!(from_binary, expected());
}

#[test]
fn encoding_twice_gives_the_same_bytes() {
    let v = expected();
    let a = v.encode_binary().unwrap();
    let b = v.clone().encode_binary().unwrap();
    assert_eq!(a, b);
}

#[test]
fn binary_layout_is_exact() {
    let bytes = sample(Methods::HEAD).encode_binary().unwrap();
    let mut want: Vec<u8> = vec![1, 0, 0, 0, 0, 0, 0, 0, b'a'];
    want.extend_from_slice(&[0, 0, 0, 0, 0, 0, 0, 0]);
    want.extend_from_slice(&[1, 0, 0, 0]);
    want.extend_from_slice(&[2, 0, 0, 0, 0, 0, 0, 0, b'x', b'y']);
    assert_eq!(bytes, want);
}

#[test]
fn binary_form_is_bincode_of_the_fields() {
    let bytes = expected().encode_binary().unwrap();
    let fields: (String, String, u32, String) = bincode::deserialize(&bytes).unwrap();
    assert_eq!(
        fields,
        (
            String::from("application/json"),
            String::from("Basis 1ddmcdd"),
            2,
            String::from("test")
        )
    );
}

#[test]
fn binary_decoding_leaves_trailing_bytes() {
    let mut bytes = sample(Methods::PATCH).encode_binary().unwrap();
    bytes.push(0xff);
    assert_eq!(Req::decode_binary(&bytes), Ok(sample(Methods::PATCH)));
}

#[test]
fn truncated_binary_is_corrupt() {
    let bytes = expected().encode_binary().unwrap();
    assert_eq!(Req::decode_binary(&bytes[..bytes.len() - 1]), Err(DecodeError::CorruptBinary));
    assert_eq!(Req::decode_binary(&[]), Err(DecodeError::CorruptBinary));
}

#[test]
fn unknown_method_tag_is_corrupt() {
    let mut bytes = sample(Methods::GET).encode_binary().unwrap();
    // the tag follows two strings of eight-byte length plus one and zero bytes
    bytes[17] = 9;
    assert_eq!(Req::decode_binary(&bytes), Err(DecodeError::CorruptBinary));
}

#[test]
fn non_utf8_string_in_binary_is_corrupt() {
    let mut bytes = sample(Methods::GET).encode_binary().unwrap();
    bytes[8] = 0xff;
    assert_eq!(Req::decode_binary(&bytes), Err(DecodeError::CorruptBinary));
}

#[test]
fn malformed_text_is_invalid_encoding() {
    assert_eq!(Req::decode_text(b"{\"headers\": "), Err(DecodeError::InvalidEncoding));
    assert_eq!(Req::decode_text(b"\xff\xfe"), Err(DecodeError::InvalidEncoding));
    assert_eq!(Req::decode_text(b"[1, 2]"), Err(DecodeError::InvalidEncoding));
}

#[test]
fn wrong_json_types_are_mismatches() {
    let text = b"{\"headers\": {\"Content-Type\": \"a\", \"Authorization\": \"b\"}, \"method\": 7, \"body\": {\"user\": \"u\"}}";
    assert_eq!(
        Req::decode_text(text),
        Err(DecodeError::TypeMismatch(String::from("method"), String::from("string"), String::from("number")))
    );
    let text = b"{\"headers\": \"none\", \"method\": \"GET\", \"body\": {\"user\": \"u\"}}";
    assert_eq!(
        Req::decode_text(text),
        Err(DecodeError::TypeMismatch(String::from("headers"), String::from("object"), String::from("string")))
    );
    let text = b"{\"headers\": {\"Content-Type\": \"a\", \"Authorization\": \"b\"}, \"method\": \"GET\", \"body\": {\"user\": null}}";
    assert_eq!(
        Req::decode_text(text),
        Err(DecodeError::TypeMismatch(String::from("user"), String::from("string"), String::from("null")))
    );
}

#[test]
fn from_json_reads_a_built_document() {
    let doc = Json::Object(vec![
        (
            String::from("headers"),
            Json::Object(vec![
                (String::from("Content-Type"), Json::Str(String::from("text/plain"))),
                (String::from("Authorization"), Json::Str(String::from("k"))),
            ]),
        ),
        (String::from("method"), Json::Str(String::from("TRACE"))),
        (String::from("body"), Json::Object(vec![(String::from("user"), Json::Str(String::from("me")))])),
    ]);
    let r = Req::from_json(&doc).unwrap();
    assert_eq!(r.headers.content_type, "text/plain");
    assert_eq!(r.method, Methods::TRACE);
    assert_eq!(r.body.user, "me");
    assert_eq!(Req::from_json(&Json::Bool(true)), Err(DecodeError::InvalidEncoding));
}

#[test]
fn network_decoding_reads_text() {
    let base = sample(Methods::GET);
    assert_eq!(base.deserialize_network(DOCUMENT), Ok(expected()));
}

