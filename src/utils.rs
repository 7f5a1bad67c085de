//! The method verbs and their canonical tokens.

use vstd::prelude::*;

verus! {

/// The verbs a request can carry. The set is closed: there is no other verb.
#[allow(non_camel_case_types, clippy::upper_case_acronyms)]
#[derive(Clone, Copy, Debug, PartialEq, Eq, Structural)]
pub enum Methods {
    GET,
    HEAD,
    POST,
    PUT,
    DELETE,
    CONNECT,
    OPTIONS,
    TRACE,
    PATCH,
}

/// A token that names no verb.
#[derive(Clone, Debug, PartialEq, Eq)]
pub enum ParseError {
    UnknownMethod(String),
}

/// The canonical token of each verb: its name in upper case.
pub open spec fn method_text(method: Methods) -> Seq<char> {
    match method {
        Methods::GET => "GET"@,
        Methods::HEAD => "HEAD"@,
        Methods::POST => "POST"@,
        Methods::PUT => "PUT"@,
        Methods::DELETE => "DELETE"@,
        Methods::CONNECT => "CONNECT"@,
        Methods::OPTIONS => "OPTIONS"@,
        Methods::TRACE => "TRACE"@,
        Methods::PATCH => "PATCH"@,
    }
}

/// The verb whose canonical token is exactly `token`, if there is one.
pub open spec fn method_of_text(token: Seq<char>) -> Option<Methods> {
    if token == "GET"@ {
        Some(Methods::GET)
    } else if token == "HEAD"@ {
        Some(Methods::HEAD)
    } else if token == "POST"@ {
        Some(Methods::POST)
    } else if token == "PUT"@ {
        Some(Methods::PUT)
    } else if token == "DELETE"@ {
        Some(Methods::DELETE)
    } else if token == "CONNECT"@ {
        Some(Methods::CONNECT)
    } else if token == "OPTIONS"@ {
        Some(Methods::OPTIONS)
    } else if token == "TRACE"@ {
        Some(Methods::TRACE)
    } else if token == "PATCH"@ {
        Some(Methods::PATCH)
    } else {
        None
    }
}

/// The canonical token of `method`.
pub fn get_method(method: Methods) -> (r: String)
    ensures
        r@ == method_text(method),
{
    match method {
        Methods::GET => "GET".to_owned(),
        Methods::HEAD => "HEAD".to_owned(),
        Methods::POST => "POST".to_owned(),
        Methods::PUT => "PUT".to_owned(),
        Methods::DELETE => "DELETE".to_owned(),
        Methods::CONNECT => "CONNECT".to_owned(),
        Methods::OPTIONS => "OPTIONS".to_owned(),
        Methods::TRACE => "TRACE".to_owned(),
        Methods::PATCH => "PATCH".to_owned(),
    }
}

/// The verb named by `token`. Matching is exact and case-sensitive: any
/// string other than one of the nine canonical tokens is refused.
pub fn parse_method(token: &str) -> (r: Result<Methods, ParseError>)
    ensures
        match r {
            Ok(m) => method_of_text(token@) == Some(m),
            Err(ParseError::UnknownMethod(t)) => method_of_text(token@) is None && t@ == token@,
        },
{
    let owned = token.to_owned();
    if owned == "GET".to_owned() {
        Ok(Methods::GET)
    } else if owned == "HEAD".to_owned() {
        Ok(Methods::HEAD)
    } else if owned == "POST".to_owned() {
        Ok(Methods::POST)
    } else if owned == "PUT".to_owned() {
        Ok(Methods::PUT)
    } else if owned == "DELETE".to_owned() {
        Ok(Methods::DELETE)
    } else if owned == "CONNECT".to_owned() {
        Ok(Methods::CONNECT)
    } else if owned == "OPTIONS".to_owned() {
        Ok(Methods::OPTIONS)
    } else if owned == "TRACE".to_owned() {
        Ok(Methods::TRACE)
    } else if owned == "PATCH".to_owned() {
        Ok(Methods::PATCH)
    } else {
        Err(ParseError::UnknownMethod(owned))
    }
}

/// Every verb's token is a non-empty string of upper-case ASCII letters, and
/// reading a verb's token back gives that verb.
pub proof fn lemma_method_text_round_trip(method: Methods)
    ensures
        method_text(method).len() > 0,
        forall|i: int|
            0 <= i < method_text(method).len() ==> 'A' <= #[trigger] method_text(method)[i] <= 'Z',
        method_of_text(method_text(method)) == Some(method),
{
    reveal_strlit("GET");
    assert("GET"@.len() == 3 && "GET"@[0] == 'G');
    reveal_strlit("HEAD");
    assert("HEAD"@.len() == 4 && "HEAD"@[0] == 'H');
    reveal_strlit("POST");
    assert("POST"@.len() == 4 && "POST"@[0] == 'P');
    reveal_strlit("PUT");
    assert("PUT"@.len() == 3 && "PUT"@[0] == 'P');
    reveal_strlit("DELETE");
    assert("DELETE"@.len() == 6 && "DELETE"@[0] == 'D');
    reveal_strlit("CONNECT");
    assert("CONNECT"@.len() == 7 && "CONNECT"@[0] == 'C');
    reveal_strlit("OPTIONS");
    assert("OPTIONS"@.len() == 7 && "OPTIONS"@[0] == 'O');
    reveal_strlit("TRACE");
    assert("TRACE"@.len() == 5 && "TRACE"@[0] == 'T');
    reveal_strlit("PATCH");
    assert("PATCH"@.len() == 5 && "PATCH"@[0] == 'P');
}

/// Distinct verbs have distinct tokens.
pub proof fn lemma_method_text_injective(a: Methods, b: Methods)
    ensures
        method_text(a) == method_text(b) <==> a == b,
{
    lemma_method_text_round_trip(a);
    lemma_method_text_round_trip(b);
}

} // verus!
