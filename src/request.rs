use vstd::prelude::*;

use crate::error::{same_failure, shape_error, shape_failure, ErrorVariant};
use crate::json::{
    distinct_keys, field_of, same_opt_json, is_scalar_id, lemma_push_member, keys_within, member_of, str_equal,
    take_fields, JsonMember, JsonValue,
};

verus! {

/// The protocol version every message carries.
pub open spec fn version() -> Seq<char> {
    "2.0"@
}

/// What a request holds.
pub struct RequestView {
    pub jsonrpc: Seq<char>,
    pub method: Seq<char>,
    pub params: Option<JsonValue>,
    pub id: Option<JsonValue>,
}

/// Two requests hold the same data: equal version, method and id, and params
/// with the same data.
pub open spec fn same_request(a: RequestView, b: RequestView) -> bool {
    &&& a.jsonrpc == b.jsonrpc
    &&& a.method == b.method
    &&& same_opt_json(a.params, b.params)
    &&& a.id == b.id
}

/// A request that the protocol accepts: the current version, and an id, if
/// any, that is null, a number or a string.
pub open spec fn valid_request(r: RequestView) -> bool {
    &&& r.jsonrpc == version()
    &&& r.id matches Some(i) ==> is_scalar_id(i)
}

/// Whether an id may stand in a request.
pub open spec fn valid_id(id: Option<JsonValue>) -> bool {
    id matches Some(i) ==> is_scalar_id(i)
}

/// The outcome of checking a version string and an id, in that order.
pub open spec fn check_envelope(jsonrpc: Seq<char>, id: Option<JsonValue>) -> Result<(), ErrorVariant> {
    if jsonrpc != version() {
        Err(ErrorVariant::InvalidJsonRpcVersion)
    } else if !valid_id(id) {
        Err(ErrorVariant::InvalidJsonRpcId)
    } else {
        Ok(())
    }
}

/// The request that a JSON value encodes, or the failure that reading it
/// meets first: a parse error for a value that is not an object or whose
/// method is missing or not a string; then a missing, non-string or wrong
/// version; then an id of a wrong kind.
pub open spec fn request_of_json(v: JsonValue) -> Result<RequestView, ErrorVariant> {
    if !(v is Object) {
        Err(shape_failure())
    } else {
        match field_of(v, "method"@) {
            Some(JsonValue::String(method)) => match field_of(v, "jsonrpc"@) {
                Some(JsonValue::String(version_text)) => match check_envelope(
                    version_text@,
                    field_of(v, "id"@),
                ) {
                    Err(e) => Err(e),
                    Ok(_) => Ok(
                        RequestView {
                            jsonrpc: version_text@,
                            method: method@,
                            params: field_of(v, "params"@),
                            id: field_of(v, "id"@),
                        },
                    ),
                },
                _ => Err(ErrorVariant::InvalidJsonRpcVersion),
            },
            _ => Err(shape_failure()),
        }
    }
}

/// `v` is an object whose members are exactly the fields of `r`: the version
/// and the method as strings, the params and the id where present.
pub open spec fn encodes_request(v: JsonValue, r: RequestView) -> bool {
    &&& v matches JsonValue::Object(members)
    &&& keys_within(members@, seq!["jsonrpc"@, "method"@, "params"@, "id"@])
    &&& field_of(v, "jsonrpc"@) matches Some(JsonValue::String(s)) && s@ == r.jsonrpc
    &&& field_of(v, "method"@) matches Some(JsonValue::String(s)) && s@ == r.method
    &&& field_of(v, "params"@) == r.params
    &&& field_of(v, "id"@) == r.id
}

/// Reading back the JSON form of a valid request gives that request again.
pub proof fn lemma_request_round_trip(v: JsonValue, r: RequestView)
    requires
        valid_request(r),
        encodes_request(v, r),
    ensures
        request_of_json(v) == Ok::<RequestView, ErrorVariant>(r),
{
}

/// The four member names of a request differ from each other.
proof fn lemma_request_keys_distinct()
    ensures
        "jsonrpc"@ != "method"@,
        "jsonrpc"@ != "params"@,
        "jsonrpc"@ != "id"@,
        "method"@ != "params"@,
        "method"@ != "id"@,
        "params"@ != "id"@,
{
    reveal_strlit("jsonrpc");
    reveal_strlit("method");
    reveal_strlit("params");
    reveal_strlit("id");
    assert("method"@[0] != "params"@[0]);
    assert("jsonrpc"@.len() != "id"@.len());
}

/// A request message. Its version is always the current one and its id, if
/// any, is null, a number or a string.
#[derive(Debug)]
pub struct JrpcRequest {
    jsonrpc: String,
    method: String,
    params: Option<JsonValue>,
    id: Option<JsonValue>,
}

impl View for JrpcRequest {
    type V = RequestView;

    closed spec fn view(&self) -> RequestView {
        RequestView { jsonrpc: self.jsonrpc@, method: self.method@, params: self.params, id: self.id }
    }
}

impl Clone for JrpcRequest {
    /// A copy that holds the same data; the params are copied deeply.
    fn clone(&self) -> (r: JrpcRequest)
        ensures
            same_request(r@, self@),
    {
        proof {
            use_type_invariant(self);
        }
        let params = match &self.params {
            Some(p) => Some(p.clone()),
            None => None,
        };
        let id = match &self.id {
            Some(i) => Some(i.copy_scalar()),
            None => None,
        };
        JrpcRequest { jsonrpc: self.jsonrpc.clone(), method: self.method.clone(), params, id }
    }
}

impl JrpcRequest {
    #[verifier::type_invariant]
    closed spec fn inv(&self) -> bool {
        valid_request(self@)
    }

    /// Builds a request of the current version.
    pub fn new(method: String, params: Option<JsonValue>, id: Option<JsonValue>) -> (r: Result<
        JrpcRequest,
        ErrorVariant,
    >)
        ensures
            valid_id(id) ==> (r matches Ok(q) && q@ == (RequestView {
                jsonrpc: version(),
                method: method@,
                params,
                id,
            })),
            !valid_id(id) ==> r == Err::<JrpcRequest, ErrorVariant>(ErrorVariant::InvalidJsonRpcId),
    {
        let jsonrpc = "2.0".to_string();
        match JrpcRequest::validate(&jsonrpc, &id) {
            Err(e) => Err(e),
            Ok(()) => Ok(JrpcRequest { jsonrpc, method, params, id }),
        }
    }

    /// Checks the version, then the id.
    fn validate(jsonrpc: &String, id: &Option<JsonValue>) -> (r: Result<(), ErrorVariant>)
        ensures
            r == check_envelope(jsonrpc@, *id),
    {
        if !str_equal(jsonrpc.as_str(), "2.0") {
            return Err(ErrorVariant::InvalidJsonRpcVersion);
        }
        match id {
            Some(i) => if !i.is_id() {
                return Err(ErrorVariant::InvalidJsonRpcId);
            },
            None => {},
        }
        Ok(())
    }

    /// Reads a request out of a parsed message.
    pub fn parse(message: JsonValue) -> (r: Result<JrpcRequest, ErrorVariant>)
        ensures
            match (r, request_of_json(message)) {
                (Ok(q), Ok(m)) => q@ == m,
                (Err(e), Err(f)) => same_failure(e, f),
                _ => false,
            },
    {
        let ghost whole = message;
        match message {
            JsonValue::Object(members) => {
                let mut keys: Vec<&str> = Vec::new();
                keys.push("jsonrpc");
                keys.push("method");
                keys.push("params");
                keys.push("id");
                proof {
                    lemma_request_keys_distinct();
                    assert(keys@[0]@ == "jsonrpc"@);
                    assert(keys@[1]@ == "method"@);
                    assert(keys@[2]@ == "params"@);
                    assert(keys@[3]@ == "id"@);
                    assert(distinct_keys(keys@));
                }
                let mut slots = take_fields(members, &keys);
                assert(slots@[0] == field_of(whole, "jsonrpc"@));
                assert(slots@[1] == field_of(whole, "method"@));
                assert(slots@[2] == field_of(whole, "params"@));
                assert(slots@[3] == field_of(whole, "id"@));
                let id = slots.pop().unwrap();
                let params = slots.pop().unwrap();
                let method = slots.pop().unwrap();
                let jsonrpc = slots.pop().unwrap();
                let method = match method {
                    Some(JsonValue::String(s)) => s,
                    _ => return Err(ErrorVariant::JsonParseError(shape_error())),
                };
                let jsonrpc = match jsonrpc {
                    Some(JsonValue::String(s)) => s,
                    _ => return Err(ErrorVariant::InvalidJsonRpcVersion),
                };
                match JrpcRequest::validate(&jsonrpc, &id) {
                    Err(e) => Err(e),
                    Ok(()) => Ok(JrpcRequest { jsonrpc, method, params, id }),
                }
            },
            _ => Err(ErrorVariant::JsonParseError(shape_error())),
        }
    }

    /// The request as a JSON object.
    pub fn into_json(self) -> (r: JsonValue)
        ensures
            encodes_request(r, self@),
    {
        proof {
            lemma_request_keys_distinct();
        }
        let mut members: Vec<JsonMember> = Vec::new();
        let ghost keys = seq!["jsonrpc"@, "method"@, "params"@, "id"@];
        let m = JsonMember { key: "jsonrpc".to_string(), value: JsonValue::String(self.jsonrpc) };
        proof {
            lemma_push_member(members@, m, keys);
        }
        members.push(m);
        let m = JsonMember { key: "method".to_string(), value: JsonValue::String(self.method) };
        proof {
            lemma_push_member(members@, m, keys);
        }
        members.push(m);
        match self.params {
            Some(p) => {
                let m = JsonMember { key: "params".to_string(), value: p };
                proof {
                    lemma_push_member(members@, m, keys);
                }
                members.push(m);
            },
            None => {},
        }
        match self.id {
            Some(i) => {
                let m = JsonMember { key: "id".to_string(), value: i };
                proof {
                    lemma_push_member(members@, m, keys);
                }
                members.push(m);
            },
            None => {},
        }
        assert(keys.contains("jsonrpc"@) && keys[0] == "jsonrpc"@);
        assert(keys.contains("method"@) && keys[1] == "method"@);
        assert(keys.contains("params"@) && keys[2] == "params"@);
        assert(keys.contains("id"@) && keys[3] == "id"@);
        JsonValue::Object(members)
    }

    /// A message without an id asks for no reply.
    pub fn is_notification(&self) -> (r: bool)
        ensures
            r == (self@.id is None),
    {
        self.id.is_none()
    }

    pub fn get_jsonrpc(&self) -> (r: &String)
        ensures
            r@ == self@.jsonrpc,
    {
        &self.jsonrpc
    }

    pub fn get_method(&self) -> (r: &String)
        ensures
            r@ == self@.method,
    {
        &self.method
    }

    pub fn get_params(&self) -> (r: &Option<JsonValue>)
        ensures
            *r == self@.params,
    {
        &self.params
    }

    pub fn get_id(&self) -> (r: &Option<JsonValue>)
        ensures
            *r == self@.id,
            valid_request(self@),
    {
        proof {
            use_type_invariant(self);
        }
        &self.id
    }
}

} // verus!
