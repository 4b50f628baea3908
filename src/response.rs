use vstd::prelude::*;

use crate::error::{same_error, same_failure, shape_error, shape_failure, error_of_json, encodes_error, lemma_error_round_trip, ErrorVariant, ErrorView, JrpcError};
use crate::json::{
    distinct_keys, field_of, same_json, same_opt_json, is_scalar_id, lemma_push_member, keys_within, member_of, str_equal,
    take_fields, JsonMember, JsonValue,
};
use crate::request::{valid_id, version, JrpcRequest};

verus! {

/// What a handler hands back before it is folded into a response: a
/// successful result or an error object.
#[derive(Debug)]
pub enum JrpcResponseParam {
    JrpcResult(JsonValue),
    JrpcError(JrpcError),
}

impl Clone for JrpcResponseParam {
    fn clone(&self) -> (r: JrpcResponseParam)
        ensures
            same_param(r, *self),
    {
        match self {
            JrpcResponseParam::JrpcResult(v) => JrpcResponseParam::JrpcResult(v.clone()),
            JrpcResponseParam::JrpcError(e) => JrpcResponseParam::JrpcError(e.clone()),
        }
    }
}

impl JrpcResponseParam {
    pub fn generate_result(response: JsonValue) -> (r: Result<Self, ErrorVariant>)
        ensures
            r == Ok::<Self, ErrorVariant>(JrpcResponseParam::JrpcResult(response)),
    {
        Ok(JrpcResponseParam::JrpcResult(response))
    }

    pub fn generate_error(response: JrpcError) -> (r: Result<Self, ErrorVariant>)
        ensures
            r == Ok::<Self, ErrorVariant>(JrpcResponseParam::JrpcError(response)),
    {
        Ok(JrpcResponseParam::JrpcError(response))
    }
}

/// What a response holds.
pub struct ResponseView {
    pub jsonrpc: Seq<char>,
    pub result: Option<JsonValue>,
    pub error: Option<ErrorView>,
    pub id: JsonValue,
}

/// The view of an optional error object.
pub open spec fn error_view(e: Option<JrpcError>) -> Option<ErrorView> {
    match e {
        Some(x) => Some(x@),
        None => None,
    }
}

/// Two optional error objects are both missing, or both present with the
/// same data.
pub open spec fn same_opt_error(a: Option<ErrorView>, b: Option<ErrorView>) -> bool {
    match (a, b) {
        (None, None) => true,
        (Some(x), Some(y)) => same_error(x, y),
        _ => false,
    }
}

/// Two responses hold the same data: equal version and id, and a result or
/// error with the same data.
pub open spec fn same_response(a: ResponseView, b: ResponseView) -> bool {
    &&& a.jsonrpc == b.jsonrpc
    &&& same_opt_json(a.result, b.result)
    &&& same_opt_error(a.error, b.error)
    &&& a.id == b.id
}

/// A response that holds the same data as a valid one is valid too: a copy
/// of an accepted response passes validation, and validation hands it back
/// unchanged (see `validate`).
pub proof fn lemma_same_response_valid(a: ResponseView, b: ResponseView)
    requires
        valid_response(b),
        same_response(a, b),
    ensures
        valid_response(a),
{
}

/// Two handler outcomes are of the same kind and hold the same data.
pub open spec fn same_param(a: JrpcResponseParam, b: JrpcResponseParam) -> bool {
    match (a, b) {
        (JrpcResponseParam::JrpcResult(x), JrpcResponseParam::JrpcResult(y)) => same_json(x, y),
        (JrpcResponseParam::JrpcError(x), JrpcResponseParam::JrpcError(y)) => same_error(x@, y@),
        _ => false,
    }
}

/// A response that the protocol accepts: the current version, exactly one
/// of a result and an error, and an id that is null, a number or a string.
pub open spec fn valid_response(r: ResponseView) -> bool {
    &&& r.jsonrpc == version()
    &&& (r.result is Some) != (r.error is Some)
    &&& is_scalar_id(r.id)
}

/// The outcome of checking the parts of a response, in the order: version,
/// both payloads, no payload, id.
pub open spec fn check_response(
    jsonrpc: Seq<char>,
    has_result: bool,
    has_error: bool,
    id: JsonValue,
) -> Result<(), ErrorVariant> {
    if jsonrpc != version() {
        Err(ErrorVariant::InvalidJsonRpcVersion)
    } else if has_result && has_error {
        Err(ErrorVariant::ResponseCannotContainResultAndError)
    } else if !has_result && !has_error {
        Err(ErrorVariant::ResponseMustContainResultOrError)
    } else if !is_scalar_id(id) {
        Err(ErrorVariant::InvalidJsonRpcId)
    } else {
        Ok(())
    }
}

/// The id a response carries when the request named `id`: the same value,
/// or null where the request had none.
pub open spec fn reply_id(id: Option<JsonValue>) -> JsonValue {
    match id {
        Some(i) => i,
        None => JsonValue::Null,
    }
}

/// The response that answers a request with id `id` by `param`.
pub open spec fn reply_of(param: JrpcResponseParam, id: Option<JsonValue>) -> ResponseView {
    ResponseView {
        jsonrpc: version(),
        result: match param {
            JrpcResponseParam::JrpcResult(v) => Some(v),
            _ => None,
        },
        error: match param {
            JrpcResponseParam::JrpcError(e) => Some(e@),
            _ => None,
        },
        id: reply_id(id),
    }
}

/// Whatever a handler hands back, the reply to a request holds exactly one
/// of a result and an error, and satisfies every other rule of a response.
pub proof fn lemma_reply_valid(param: JrpcResponseParam, id: Option<JsonValue>)
    requires
        valid_id(id),
    ensures
        valid_response(reply_of(param, id)),
        (reply_of(param, id).result is Some) != (reply_of(param, id).error is Some),
{
}

/// A reply carries the id of its request, and null where the request had
/// none.
pub proof fn lemma_reply_mirrors_id(param: JrpcResponseParam, id: Option<JsonValue>)
    ensures
        id matches Some(x) ==> reply_of(param, id).id == x,
        id is None ==> reply_of(param, id).id == JsonValue::Null,
{
}

/// The response that a JSON value encodes, or the first failure met in
/// reading it: a parse error for a value that is not an object, for an error
/// member that is not an error object, or for a missing id; then the checks
/// of `check_response`, where a missing or non-string version is wrong.
pub open spec fn response_of_json(v: JsonValue) -> Result<ResponseView, ErrorVariant> {
    if !(v is Object) {
        Err(shape_failure())
    } else {
        let error = match field_of(v, "error"@) {
            None => Ok(None),
            Some(e) => match error_of_json(e) {
                Ok(ev) => Ok(Some(ev)),
                Err(x) => Err(x),
            },
        };
        match error {
            Err(x) => Err(x),
            Ok(ev) => match field_of(v, "id"@) {
                None => Err(shape_failure()),
                Some(id) => match field_of(v, "jsonrpc"@) {
                    Some(JsonValue::String(version_text)) => {
                        let result = field_of(v, "result"@);
                        match check_response(version_text@, result is Some, ev is Some, id) {
                            Err(x) => Err(x),
                            Ok(_) => Ok(
                                ResponseView { jsonrpc: version_text@, result, error: ev, id },
                            ),
                        }
                    },
                    _ => Err(ErrorVariant::InvalidJsonRpcVersion),
                },
            },
        }
    }
}

/// `v` is an object whose members are exactly the fields of `r`.
pub open spec fn encodes_response(v: JsonValue, r: ResponseView) -> bool {
    &&& v matches JsonValue::Object(members)
    &&& keys_within(members@, seq!["jsonrpc"@, "result"@, "error"@, "id"@])
    &&& field_of(v, "jsonrpc"@) matches Some(JsonValue::String(s)) && s@ == r.jsonrpc
    &&& field_of(v, "result"@) == r.result
    &&& match r.error {
        Some(ev) => field_of(v, "error"@) matches Some(x) && encodes_error(x, ev),
        None => field_of(v, "error"@) is None,
    }
    &&& field_of(v, "id"@) == Some(r.id)
}

/// Reading back the JSON form of a valid response gives that response
/// again.
pub proof fn lemma_response_round_trip(v: JsonValue, r: ResponseView)
    requires
        valid_response(r),
        encodes_response(v, r),
    ensures
        response_of_json(v) == Ok::<ResponseView, ErrorVariant>(r),
{
    match r.error {
        Some(ev) => {
            let x = field_of(v, "error"@)->Some_0;
            lemma_error_round_trip(x, ev);
        },
        None => {},
    }
}

/// The four member names of a response differ from each other.
proof fn lemma_response_keys_distinct()
    ensures
        "jsonrpc"@ != "result"@,
        "jsonrpc"@ != "error"@,
        "jsonrpc"@ != "id"@,
        "result"@ != "error"@,
        "result"@ != "id"@,
        "error"@ != "id"@,
{
    reveal_strlit("jsonrpc");
    reveal_strlit("result");
    reveal_strlit("error");
    reveal_strlit("id");
    assert("jsonrpc"@.len() != "result"@.len());
    assert("jsonrpc"@.len() != "error"@.len());
    assert("jsonrpc"@.len() != "id"@.len());
    assert("result"@.len() != "error"@.len());
    assert("result"@.len() != "id"@.len());
    assert("error"@.len() != "id"@.len());
}

/// A response message. It always carries the current version, exactly one
/// of a result and an error, and an id that is null, a number or a string.
#[derive(Debug)]
pub struct JrpcResponse {
    jsonrpc: String,
    result: Option<JsonValue>,
    error: Option<JrpcError>,
    id: JsonValue,
}

impl View for JrpcResponse {
    type V = ResponseView;

    closed spec fn view(&self) -> ResponseView {
        ResponseView {
            jsonrpc: self.jsonrpc@,
            result: self.result,
            error: error_view(self.error),
            id: self.id,
        }
    }
}

impl Clone for JrpcResponse {
    /// A copy that holds the same data; the result or error is copied deeply.
    fn clone(&self) -> (r: JrpcResponse)
        ensures
            same_response(r@, self@),
    {
        proof {
            use_type_invariant(self);
        }
        let result = match &self.result {
            Some(v) => Some(v.clone()),
            None => None,
        };
        let error = match &self.error {
            Some(e) => Some(e.clone()),
            None => None,
        };
        JrpcResponse { jsonrpc: self.jsonrpc.clone(), result, error, id: self.id.copy_scalar() }
    }
}

impl JrpcResponse {
    #[verifier::type_invariant]
    closed spec fn inv(&self) -> bool {
        valid_response(self@)
    }

    /// Builds a response of the current version from its parts, which must
    /// hold exactly one of a result and an error.
    pub fn new(result: Option<JsonValue>, error: Option<JrpcError>, id: JsonValue) -> (r: Result<
        Self,
        ErrorVariant,
    >)
        ensures
            match check_response(version(), result is Some, error is Some, id) {
                Ok(_) => r matches Ok(x) && x@ == (ResponseView {
                    jsonrpc: version(),
                    result,
                    error: error_view(error),
                    id,
                }),
                Err(e) => r == Err::<Self, ErrorVariant>(e),
            },
    {
        let jsonrpc = "2.0".to_string();
        match JrpcResponse::check(&jsonrpc, &result, &error, &id) {
            Err(e) => Err(e),
            Ok(()) => Ok(JrpcResponse { jsonrpc, result, error, id }),
        }
    }

    /// Checks the parts of a response.
    fn check(
        jsonrpc: &String,
        result: &Option<JsonValue>,
        error: &Option<JrpcError>,
        id: &JsonValue,
    ) -> (r: Result<(), ErrorVariant>)
        ensures
            r == check_response(jsonrpc@, result is Some, error is Some, *id),
    {
        if !str_equal(jsonrpc.as_str(), "2.0") {
            return Err(ErrorVariant::InvalidJsonRpcVersion);
        }
        if result.is_some() && error.is_some() {
            return Err(ErrorVariant::ResponseCannotContainResultAndError);
        }
        if result.is_none() && error.is_none() {
            return Err(ErrorVariant::ResponseMustContainResultOrError);
        }
        if !id.is_id() {
            return Err(ErrorVariant::InvalidJsonRpcId);
        }
        Ok(())
    }

    /// The reply to `request`: its id (null where it has none) and the
    /// result or error that `response` holds.
    pub fn from_jrpc_request(request: &JrpcRequest, response: JrpcResponseParam) -> (r: Result<
        Self,
        ErrorVariant,
    >)
        ensures
            r matches Ok(x) && x@ == reply_of(response, request@.id),
    {
        let id = match request.get_id() {
            Some(i) => i.copy_scalar(),
            None => JsonValue::Null,
        };
        let mut result = None;
        let mut error = None;
        match response {
            JrpcResponseParam::JrpcResult(r) => result = Some(r),
            JrpcResponseParam::JrpcError(e) => error = Some(e),
        }
        JrpcResponse::new(result, error, id)
    }

    /// Reads a response out of a parsed message.
    pub fn parse(message: JsonValue) -> (r: Result<Self, ErrorVariant>)
        ensures
            match (r, response_of_json(message)) {
                (Ok(x), Ok(m)) => x@ == m,
                (Err(e), Err(f)) => same_failure(e, f),
                _ => false,
            },
    {
        let ghost whole = message;
        let members = match message {
            JsonValue::Object(members) => members,
            _ => return Err(ErrorVariant::JsonParseError(shape_error())),
        };
        let mut keys: Vec<&str> = Vec::new();
        keys.push("jsonrpc");
        keys.push("result");
        keys.push("error");
        keys.push("id");
        proof {
            lemma_response_keys_distinct();
            assert(keys@[0]@ == "jsonrpc"@);
            assert(keys@[1]@ == "result"@);
            assert(keys@[2]@ == "error"@);
            assert(keys@[3]@ == "id"@);
            assert(distinct_keys(keys@));
        }
        let mut slots = take_fields(members, &keys);
        assert(slots@[0] == field_of(whole, "jsonrpc"@));
        assert(slots@[1] == field_of(whole, "result"@));
        assert(slots@[2] == field_of(whole, "error"@));
        assert(slots@[3] == field_of(whole, "id"@));
        let id = slots.pop().unwrap();
        let error = slots.pop().unwrap();
        let result = slots.pop().unwrap();
        let jsonrpc = slots.pop().unwrap();
        let error = match error {
            None => None,
            Some(e) => match JrpcError::parse(e) {
                Ok(x) => Some(x),
                Err(x) => return Err(x),
            },
        };
        let id = match id {
            Some(i) => i,
            None => return Err(ErrorVariant::JsonParseError(shape_error())),
        };
        let jsonrpc = match jsonrpc {
            Some(JsonValue::String(s)) => s,
            _ => return Err(ErrorVariant::InvalidJsonRpcVersion),
        };
        match JrpcResponse::check(&jsonrpc, &result, &error, &id) {
            Err(e) => Err(e),
            Ok(()) => Ok(JrpcResponse { jsonrpc, result, error, id }),
        }
    }

    /// The response as a JSON object.
    pub fn into_json(self) -> (r: JsonValue)
        ensures
            encodes_response(r, self@),
    {
        proof {
            lemma_response_keys_distinct();
        }
        let ghost keys = seq!["jsonrpc"@, "result"@, "error"@, "id"@];
        let JrpcResponse { jsonrpc, result, error, id } = self;
        let mut members: Vec<JsonMember> = Vec::new();
        let m = JsonMember { key: "jsonrpc".to_string(), value: JsonValue::String(jsonrpc) };
        proof {
            lemma_push_member(members@, m, keys);
        }
        members.push(m);
        match result {
            Some(v) => {
                let m = JsonMember { key: "result".to_string(), value: v };
                proof {
                    lemma_push_member(members@, m, keys);
                }
                members.push(m);
            },
            None => {},
        }
        match error {
            Some(e) => {
                let m = JsonMember { key: "error".to_string(), value: e.into_json() };
                proof {
                    lemma_push_member(members@, m, keys);
                }
                members.push(m);
            },
            None => {},
        }
        let m = JsonMember { key: "id".to_string(), value: id };
        proof {
            lemma_push_member(members@, m, keys);
        }
        members.push(m);
        assert(keys.contains("jsonrpc"@) && keys[0] == "jsonrpc"@);
        assert(keys.contains("result"@) && keys[1] == "result"@);
        assert(keys.contains("error"@) && keys[2] == "error"@);
        assert(keys.contains("id"@) && keys[3] == "id"@);
        JsonValue::Object(members)
    }

    /// A response value always passes the protocol's checks; it is handed
    /// back unchanged.
    pub fn validate(self) -> (r: Result<Self, ErrorVariant>)
        ensures
            r matches Ok(x) && x@ == self@,
            valid_response(self@),
    {
        proof {
            use_type_invariant(&self);
        }
        Ok(self)
    }

    pub fn get_jsonrpc(&self) -> (r: &String)
        ensures
            r@ == self@.jsonrpc,
    {
        &self.jsonrpc
    }

    pub fn get_result(&self) -> (r: &Option<JsonValue>)
        ensures
            *r == self@.result,
            valid_response(self@),
    {
        proof {
            use_type_invariant(self);
        }
        &self.result
    }

    pub fn get_error(&self) -> (r: &Option<JrpcError>)
        ensures
            error_view(*r) == self@.error,
            valid_response(self@),
    {
        proof {
            use_type_invariant(self);
        }
        &self.error
    }

    pub fn get_id(&self) -> (r: &JsonValue)
        ensures
            *r == self@.id,
    {
        &self.id
    }
}

impl JrpcRequest {
    /// The reply to this request carrying `response`; see
    /// `JrpcResponse::from_jrpc_request`.
    pub fn generate_response(&self, response: JrpcResponseParam) -> (r: Result<
        JrpcResponse,
        ErrorVariant,
    >)
        ensures
            r matches Ok(x) && x@ == reply_of(response, self@.id),
    {
        JrpcResponse::from_jrpc_request(self, response)
    }
}

} // verus!
