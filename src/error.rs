use vstd::prelude::*;

use crate::json::{
    distinct_keys, field_of, same_opt_json, lemma_push_member, keys_within, member_of, take_fields, JsonMember,
    JsonNumber, JsonValue,
};

verus! {

#[verifier::external_type_specification]
#[verifier::external_body]
pub struct ExJsonError(serde_json::Error);

#[verifier::external_type_specification]
#[verifier::external_body]
pub struct ExIoError(std::io::Error);

/// Everything that can go wrong while reading, building or dispatching a
/// message.
#[derive(Debug)]
pub enum ErrorVariant {
    RwLockPoisoned,
    MethodSignatureNotFound(String),
    JsonParseError(serde_json::Error),
    InvalidJsonRpcVersion,
    InvalidJsonRpcId,
    ResponseCannotContainResultAndError,
    ResponseMustContainResultOrError,
    NoRequestProvided,
    IoError(std::io::Error),
    InternalError,
    InternalErrorMessage(String),
}

/// Two failures agree: the same variant with the same payload, except that
/// any two parse errors agree whatever the reader's error inside them.
pub open spec fn same_failure(e: ErrorVariant, f: ErrorVariant) -> bool {
    match (e, f) {
        (ErrorVariant::JsonParseError(_), ErrorVariant::JsonParseError(_)) => true,
        _ => e == f,
    }
}

/// The failure of a message that does not have the shape of the object it
/// should be: a parse error.
pub open spec fn shape_failure() -> ErrorVariant {
    ErrorVariant::JsonParseError(arbitrary())
}

/// Relies on `serde::de::Error::custom` for `serde_json::Error`: it builds a
/// reader error that carries the given message.
#[verifier::external_body]
pub(crate) fn shape_error() -> serde_json::Error {
    <serde_json::Error as serde::de::Error>::custom("message does not have the expected shape")
}

/// The protocol's error classes.
#[derive(Debug, Clone, Copy, PartialEq, Eq, Structural)]
pub enum JrpcErrorEnum {
    ParseError,
    InvalidRequest,
    MethodNotFound,
    InvalidParams,
    InternalError,
    ServerError,
    Other,
}

/// The class of an error code: the five fixed codes, the reserved server
/// range, and everything else.
pub open spec fn class_of(code: i32) -> JrpcErrorEnum {
    if code == -32700 {
        JrpcErrorEnum::ParseError
    } else if code == -32600 {
        JrpcErrorEnum::InvalidRequest
    } else if code == -32601 {
        JrpcErrorEnum::MethodNotFound
    } else if code == -32602 {
        JrpcErrorEnum::InvalidParams
    } else if code == -32603 {
        JrpcErrorEnum::InternalError
    } else if -32099 <= code <= -32000 {
        JrpcErrorEnum::ServerError
    } else {
        JrpcErrorEnum::Other
    }
}

/// The code that stands for a class; the server range is represented by its
/// upper end, and `Other` by zero.
pub open spec fn code_of(class: JrpcErrorEnum) -> i32 {
    match class {
        JrpcErrorEnum::ParseError => -32700i32,
        JrpcErrorEnum::InvalidRequest => -32600i32,
        JrpcErrorEnum::MethodNotFound => -32601i32,
        JrpcErrorEnum::InvalidParams => -32602i32,
        JrpcErrorEnum::InternalError => -32603i32,
        JrpcErrorEnum::ServerError => -32000i32,
        JrpcErrorEnum::Other => 0i32,
    }
}

/// The human-readable message of a class.
pub open spec fn message_of(class: JrpcErrorEnum) -> Seq<char> {
    match class {
        JrpcErrorEnum::ParseError => "Parse error"@,
        JrpcErrorEnum::InvalidRequest => "Invalid Request"@,
        JrpcErrorEnum::MethodNotFound => "Method not found"@,
        JrpcErrorEnum::InvalidParams => "Invalid params"@,
        JrpcErrorEnum::InternalError => "Internal error"@,
        JrpcErrorEnum::ServerError => "Server error"@,
        JrpcErrorEnum::Other => "JsonRpc Error"@,
    }
}

/// The wire code that a failure is reported with.
pub open spec fn variant_code(e: ErrorVariant) -> i32 {
    match e {
        ErrorVariant::MethodSignatureNotFound(_) => -32601i32,
        ErrorVariant::JsonParseError(_) => -32700i32,
        ErrorVariant::InvalidJsonRpcVersion => -32600i32,
        ErrorVariant::InvalidJsonRpcId => -32600i32,
        ErrorVariant::ResponseCannotContainResultAndError => -32600i32,
        ErrorVariant::ResponseMustContainResultOrError => -32600i32,
        _ => -32603i32,
    }
}

impl vstd::std_specs::convert::FromSpecImpl<i32> for JrpcErrorEnum {
    open spec fn obeys_from_spec() -> bool {
        true
    }

    open spec fn from_spec(code: i32) -> JrpcErrorEnum {
        class_of(code)
    }
}

impl From<i32> for JrpcErrorEnum {
    fn from(code: i32) -> (r: JrpcErrorEnum)
        ensures
            r == class_of(code),
    {
        if code == -32700 {
            JrpcErrorEnum::ParseError
        } else if code == -32600 {
            JrpcErrorEnum::InvalidRequest
        } else if code == -32601 {
            JrpcErrorEnum::MethodNotFound
        } else if code == -32602 {
            JrpcErrorEnum::InvalidParams
        } else if code == -32603 {
            JrpcErrorEnum::InternalError
        } else if -32099 <= code && code <= -32000 {
            JrpcErrorEnum::ServerError
        } else {
            JrpcErrorEnum::Other
        }
    }
}

impl vstd::std_specs::convert::FromSpecImpl<JrpcErrorEnum> for i32 {
    open spec fn obeys_from_spec() -> bool {
        true
    }

    open spec fn from_spec(class: JrpcErrorEnum) -> i32 {
        code_of(class)
    }
}

impl From<JrpcErrorEnum> for i32 {
    fn from(class: JrpcErrorEnum) -> (r: i32)
        ensures
            r == code_of(class),
    {
        match class {
            JrpcErrorEnum::ParseError => -32700,
            JrpcErrorEnum::InvalidRequest => -32600,
            JrpcErrorEnum::MethodNotFound => -32601,
            JrpcErrorEnum::InvalidParams => -32602,
            JrpcErrorEnum::InternalError => -32603,
            JrpcErrorEnum::ServerError => -32000,
            JrpcErrorEnum::Other => 0,
        }
    }
}

/// A protocol error object: a code, a message and optional extra data.
#[derive(Debug)]
pub struct JrpcError {
    code: i32,
    message: String,
    data: Option<JsonValue>,
}

/// What an error object holds.
pub struct ErrorView {
    pub code: i32,
    pub message: Seq<char>,
    pub data: Option<JsonValue>,
}

impl View for JrpcError {
    type V = ErrorView;

    closed spec fn view(&self) -> ErrorView {
        ErrorView { code: self.code, message: self.message@, data: self.data }
    }
}

/// Two error objects hold the same data: equal code and message, and data
/// with the same data.
pub open spec fn same_error(a: ErrorView, b: ErrorView) -> bool {
    &&& a.code == b.code
    &&& a.message == b.message
    &&& same_opt_json(a.data, b.data)
}

/// The error object that stands for a class.
pub open spec fn error_of_class(class: JrpcErrorEnum) -> ErrorView {
    ErrorView { code: code_of(class), message: message_of(class), data: None }
}

impl Clone for JrpcError {
    /// A copy that holds the same data; the data is copied deeply.
    fn clone(&self) -> (r: JrpcError)
        ensures
            same_error(r@, self@),
    {
        let data = match &self.data {
            Some(d) => Some(d.clone()),
            None => None,
        };
        JrpcError { code: self.code, message: self.message.clone(), data }
    }
}

impl JrpcError {
    pub fn new(code: i32, message: String, data: Option<JsonValue>) -> (r: Self)
        ensures
            r@ == (ErrorView { code, message: message@, data }),
    {
        JrpcError { code, message, data }
    }

    pub fn get_code(&self) -> (r: &i32)
        ensures
            *r == self@.code,
    {
        &self.code
    }

    pub fn get_message(&self) -> (r: &String)
        ensures
            r@ == self@.message,
    {
        &self.message
    }

    pub fn get_data(&self) -> (r: &Option<JsonValue>)
        ensures
            *r == self@.data,
    {
        &self.data
    }

    /// The parts of the error, moved out.
    pub fn into_parts(self) -> (r: (i32, String, Option<JsonValue>))
        ensures
            r.0 == self@.code,
            r.1@ == self@.message,
            r.2 == self@.data,
    {
        (self.code, self.message, self.data)
    }
}

impl vstd::std_specs::convert::FromSpecImpl<JrpcErrorEnum> for JrpcError {
    /// The message is a fresh string, so the result is pinned down by its
    /// view only: see the `ensures` of `from`.
    open spec fn obeys_from_spec() -> bool {
        false
    }

    open spec fn from_spec(v: JrpcErrorEnum) -> JrpcError {
        choose|r: JrpcError| r@ == error_of_class(v)
    }
}

/// The integer code a JSON number stands for, where it is an integer that
/// fits an `i32`.
pub open spec fn code_of_number(n: JsonNumber) -> Option<i32> {
    match n {
        JsonNumber::PosInt(u) => if u <= i32::MAX { Some(u as i32) } else { None },
        JsonNumber::NegInt(i) => if i >= i32::MIN { Some(i as i32) } else { None },
        JsonNumber::Float(_) => None,
    }
}

/// The JSON number of a code: non-negative codes as unsigned, others as
/// signed integers.
pub open spec fn number_of_code(code: i32) -> JsonNumber {
    if code >= 0 {
        JsonNumber::PosInt(code as u64)
    } else {
        JsonNumber::NegInt(code as i64)
    }
}

/// The error object that a JSON value encodes: an object with an integer
/// `code` that fits an `i32`, a string `message` and optional `data`. Any
/// other value is a parse error.
pub open spec fn error_of_json(v: JsonValue) -> Result<ErrorView, ErrorVariant> {
    match (field_of(v, "code"@), field_of(v, "message"@)) {
        (Some(JsonValue::Number(n)), Some(JsonValue::String(m))) => match code_of_number(n) {
            Some(code) => Ok(ErrorView { code, message: m@, data: field_of(v, "data"@) }),
            None => Err(shape_failure()),
        },
        _ => Err(shape_failure()),
    }
}

/// `v` is an object with exactly the fields of `e`.
pub open spec fn encodes_error(v: JsonValue, e: ErrorView) -> bool {
    &&& v matches JsonValue::Object(members)
    &&& keys_within(members@, seq!["code"@, "message"@, "data"@])
    &&& field_of(v, "code"@) == Some(JsonValue::Number(number_of_code(e.code)))
    &&& field_of(v, "message"@) matches Some(JsonValue::String(s)) && s@ == e.message
    &&& field_of(v, "data"@) == e.data
}

/// Reading back the JSON form of an error object gives that object again.
pub proof fn lemma_error_round_trip(v: JsonValue, e: ErrorView)
    requires
        encodes_error(v, e),
    ensures
        error_of_json(v) == Ok::<ErrorView, ErrorVariant>(e),
{
}

/// The three member names of an error object differ from each other.
proof fn lemma_error_keys_distinct()
    ensures
        "code"@ != "message"@,
        "code"@ != "data"@,
        "message"@ != "data"@,
{
    reveal_strlit("code");
    reveal_strlit("message");
    reveal_strlit("data");
    assert("code"@[0] != "data"@[0]);
    assert("code"@.len() != "message"@.len());
    assert("data"@.len() != "message"@.len());
}

impl JrpcError {
    /// Reads an error object out of a parsed value.
    pub fn parse(v: JsonValue) -> (r: Result<JrpcError, ErrorVariant>)
        ensures
            match (r, error_of_json(v)) {
                (Ok(e), Ok(m)) => e@ == m,
                (Err(e), Err(f)) => same_failure(e, f),
                _ => false,
            },
    {
        let ghost whole = v;
        let members = match v {
            JsonValue::Object(members) => members,
            _ => return Err(ErrorVariant::JsonParseError(shape_error())),
        };
        let mut keys: Vec<&str> = Vec::new();
        keys.push("code");
        keys.push("message");
        keys.push("data");
        proof {
            lemma_error_keys_distinct();
            assert(keys@[0]@ == "code"@);
            assert(keys@[1]@ == "message"@);
            assert(keys@[2]@ == "data"@);
            assert(distinct_keys(keys@));
        }
        let mut slots = take_fields(members, &keys);
        assert(slots@[0] == field_of(whole, "code"@));
        assert(slots@[1] == field_of(whole, "message"@));
        assert(slots@[2] == field_of(whole, "data"@));
        let data = slots.pop().unwrap();
        let message = slots.pop().unwrap();
        let code = slots.pop().unwrap();
        match (code, message) {
            (Some(JsonValue::Number(n)), Some(JsonValue::String(m))) => {
                let code: i32 = match n {
                    JsonNumber::PosInt(u) => if u <= i32::MAX as u64 {
                        u as i32
                    } else {
                        return Err(ErrorVariant::JsonParseError(shape_error()));
                    },
                    JsonNumber::NegInt(i) => if i >= i32::MIN as i64 {
                        i as i32
                    } else {
                        return Err(ErrorVariant::JsonParseError(shape_error()));
                    },
                    JsonNumber::Float(_) => return Err(ErrorVariant::JsonParseError(shape_error())),
                };
                Ok(JrpcError::new(code, m, data))
            },
            _ => Err(ErrorVariant::JsonParseError(shape_error())),
        }
    }

    /// The error object as JSON.
    pub fn into_json(self) -> (r: JsonValue)
        ensures
            encodes_error(r, self@),
    {
        proof {
            lemma_error_keys_distinct();
        }
        let ghost keys = seq!["code"@, "message"@, "data"@];
        let (code, message, data) = self.into_parts();
        let number = if code >= 0 {
            JsonNumber::PosInt(code as u64)
        } else {
            JsonNumber::NegInt(code as i64)
        };
        let mut members: Vec<JsonMember> = Vec::new();
        let m = JsonMember { key: "code".to_string(), value: JsonValue::Number(number) };
        proof {
            lemma_push_member(members@, m, keys);
        }
        members.push(m);
        let m = JsonMember { key: "message".to_string(), value: JsonValue::String(message) };
        proof {
            lemma_push_member(members@, m, keys);
        }
        members.push(m);
        match data {
            Some(d) => {
                let m = JsonMember { key: "data".to_string(), value: d };
                proof {
                    lemma_push_member(members@, m, keys);
                }
                members.push(m);
            },
            None => {},
        }
        assert(keys.contains("code"@) && keys[0] == "code"@);
        assert(keys.contains("message"@) && keys[1] == "message"@);
        assert(keys.contains("data"@) && keys[2] == "data"@);
        JsonValue::Object(members)
    }
}

impl From<JrpcErrorEnum> for JrpcError {
    fn from(class: JrpcErrorEnum) -> (r: JrpcError)
        ensures
            r@ == error_of_class(class),
    {
        let message = match class {
            JrpcErrorEnum::ParseError => "Parse error",
            JrpcErrorEnum::InvalidRequest => "Invalid Request",
            JrpcErrorEnum::MethodNotFound => "Method not found",
            JrpcErrorEnum::InvalidParams => "Invalid params",
            JrpcErrorEnum::InternalError => "Internal error",
            JrpcErrorEnum::ServerError => "Server error",
            JrpcErrorEnum::Other => "JsonRpc Error",
        };
        let code = i32::from(class);
        JrpcError::new(code, message.to_string(), None)
    }
}

impl vstd::std_specs::convert::FromSpecImpl<i32> for JrpcError {
    /// The message is a fresh string, so the result is pinned down by its
    /// view only: see the `ensures` of `from`.
    open spec fn obeys_from_spec() -> bool {
        false
    }

    open spec fn from_spec(v: i32) -> JrpcError {
        choose|r: JrpcError| r@ == error_of_class(class_of(v))
    }
}

impl From<i32> for JrpcError {
    fn from(code: i32) -> (r: JrpcError)
        ensures
            r@ == error_of_class(class_of(code)),
    {
        JrpcError::from(JrpcErrorEnum::from(code))
    }
}

impl vstd::std_specs::convert::FromSpecImpl<ErrorVariant> for JrpcError {
    /// The message is a fresh string, so the result is pinned down by its
    /// view only: see the `ensures` of `from`.
    open spec fn obeys_from_spec() -> bool {
        false
    }

    open spec fn from_spec(v: ErrorVariant) -> JrpcError {
        choose|r: JrpcError| r@ == error_of_class(class_of(variant_code(v)))
    }
}

impl From<ErrorVariant> for JrpcError {
    fn from(e: ErrorVariant) -> (r: JrpcError)
        ensures
            r@ == error_of_class(class_of(variant_code(e))),
            r@.code == variant_code(e),
    {
        let code: i32 = match e {
            ErrorVariant::MethodSignatureNotFound(_) => -32601,
            ErrorVariant::JsonParseError(_) => -32700,
            ErrorVariant::InvalidJsonRpcVersion => -32600,
            ErrorVariant::InvalidJsonRpcId => -32600,
            ErrorVariant::ResponseCannotContainResultAndError => -32600,
            ErrorVariant::ResponseMustContainResultOrError => -32600,
            _ => -32603,
        };
        JrpcError::from(code)
    }
}

} // verus!
