use futures_jsonrpc::{
    ErrorVariant, JrpcError, JrpcErrorEnum, JrpcRequest, JrpcResponse, JrpcResponseParam,
    JsonMember, JsonNumber, JsonValue,
};

fn member(key: &str, value: JsonValue) -> JsonMember {
    JsonMember { key: key.to_string(), value }
}

fn text(s: &str) -> JsonValue {
    JsonValue::String(s.to_string())
}

fn num(v: i64) -> JsonValue {
    if v >= 0 {
        JsonValue::Number(JsonNumber::PosInt(v as u64))
    } else {
        JsonValue::Number(JsonNumber::NegInt(v))
    }
}

fn as_int(v: &JsonValue) -> Option<i64> {
    match v {
        JsonValue::Number(n) => n.as_i64(),
        _ => None,
    }
}

fn as_text(v: &JsonValue) -> Option<&str> {
    match v {
        JsonValue::String(s) => Some(s.as_str()),
        _ => None,
    }
}

#[test]
fn request_round_trip_keeps_every_field() {
    let params = JsonValue::Array(vec![num(42), num(23)]);
    let request = JrpcRequest::new("math/subtract".to_string(), Some(params), Some(num(7))).unwrap();
    let back = JrpcRequest::parse(request.into_json()).unwrap();
    assert_eq!(back.get_jsonrpc(), "2.0");
    assert_eq!(back.get_method(), "math/subtract");
    match back.get_params() {
        Some(JsonValue::Array(items)) => {
            assert_eq!(items.len(), 2);
            assert_eq!(as_int(&items[0]), Some(42));
            assert_eq!(as_int(&items[1]), Some(23));
        }
        _ => panic!("params lost"),
    }
    assert_eq!(back.get_id().as_ref().and_then(as_int), Some(7));
}

#[test]
fn request_round_trip_of_notification() {
    let request = JrpcRequest::new("update".to_string(), None, None).unwrap();
    let encoded = request.into_json();
    match &encoded {
        JsonValue::Object(members) => assert_eq!(members.len(), 2),
        _ => panic!("not an object"),
    }
    let back = JrpcRequest::parse(encoded).unwrap();
    assert!(back.is_notification());
    assert!(back.get_params().is_none());
    assert_eq!(back.get_method(), "update");
}

#[test]
fn request_new_rejects_bad_id() {
    let r = JrpcRequest::new("m".to_string(), None, Some(JsonValue::Bool(true)));
    assert!(matches!(r, Err(ErrorVariant::InvalidJsonRpcId)));
    let r = JrpcRequest::new("m".to_string(), None, Some(JsonValue::Array(vec![])));
    assert!(matches!(r, Err(ErrorVariant::InvalidJsonRpcId)));
    let r = JrpcRequest::new("m".to_string(), None, Some(JsonValue::Null)).unwrap();
    assert!(!r.is_notification());
    let r = JrpcRequest::new("m".to_string(), None, Some(text("abc"))).unwrap();
    assert_eq!(r.get_id().as_ref().and_then(as_text), Some("abc"));
}

#[test]
fn request_parse_wrong_version() {
    let msg = JsonValue::Object(vec![
        member("jsonrpc", text("1.0")),
        member("method", text("foo")),
        member("id", num(1)),
    ]);
    let err = JrpcRequest::parse(msg).unwrap_err();
    assert!(matches!(err, ErrorVariant::InvalidJsonRpcVersion));
    assert_eq!(*JrpcError::from(err).get_code(), -32600);
}

#[test]
fn request_parse_missing_version() {
    let msg = JsonValue::Object(vec![member("method", text("foo"))]);
    assert!(matches!(JrpcRequest::parse(msg), Err(ErrorVariant::InvalidJsonRpcVersion)));
}

#[test]
fn request_parse_bad_id() {
    let msg = JsonValue::Object(vec![
        member("jsonrpc", text("2.0")),
        member("method", text("foo")),
        member("id", JsonValue::Bool(false)),
    ]);
    let err = JrpcRequest::parse(msg).unwrap_err();
    assert!(matches!(err, ErrorVariant::InvalidJsonRpcId));
    assert_eq!(*JrpcError::from(err).get_code(), -32600);
}

#[test]
fn request_parse_malformed() {
    assert!(matches!(JrpcRequest::parse(num(3)), Err(ErrorVariant::JsonParseError(_))));
    let msg = JsonValue::Object(vec![member("jsonrpc", text("2.0"))]);
    assert!(matches!(JrpcRequest::parse(msg), Err(ErrorVariant::JsonParseError(_))));
    let msg = JsonValue::Object(vec![member("jsonrpc", text("2.0")), member("method", num(5))]);
    assert!(matches!(JrpcRequest::parse(msg), Err(ErrorVariant::JsonParseError(_))));
}

#[test]
fn request_parse_first_member_wins() {
    let msg = JsonValue::Object(vec![
        member("jsonrpc", text("2.0")),
        member("method", text("first")),
        member("method", text("second")),
    ]);
    let r = JrpcRequest::parse(msg).unwrap();
    assert_eq!(r.get_method(), "first");
    assert!(r.is_notification());
}

#[test]
fn generate_response_mirrors_id() {
    let request = JrpcRequest::new("m".to_string(), None, Some(text("x1"))).unwrap();
    let param = JrpcResponseParam::generate_result(num(19)).unwrap();
    let response = request.generate_response(param).unwrap();
    assert_eq!(as_text(response.get_id()), Some("x1"));
    assert_eq!(response.get_result().as_ref().and_then(as_int), Some(19));
    assert!(response.get_error().is_none());
    assert_eq!(response.get_jsonrpc(), "2.0");
}

#[test]
fn generate_response_for_notification_has_null_id() {
    let request = JrpcRequest::new("m".to_string(), None, None).unwrap();
    let param = JrpcResponseParam::generate_error(JrpcError::from(JrpcErrorEnum::InternalError)).unwrap();
    let response = request.generate_response(param).unwrap();
    assert!(matches!(response.get_id(), JsonValue::Null));
    assert!(response.get_result().is_none());
    assert_eq!(response.get_error().as_ref().map(|e| *e.get_code()), Some(-32603));
}

#[test]
fn response_new_needs_exactly_one_payload() {
    let both = JrpcResponse::new(Some(num(1)), Some(JrpcError::from(-32000)), num(1));
    assert!(matches!(both, Err(ErrorVariant::ResponseCannotContainResultAndError)));
    let neither = JrpcResponse::new(None, None, num(1));
    assert!(matches!(neither, Err(ErrorVariant::ResponseMustContainResultOrError)));
    let bad_id = JrpcResponse::new(Some(num(1)), None, JsonValue::Bool(true));
    assert!(matches!(bad_id, Err(ErrorVariant::InvalidJsonRpcId)));
    let ok = JrpcResponse::new(None, Some(JrpcError::from(-32601)), JsonValue::Null).unwrap();
    let ok = ok.validate().unwrap();
    assert!(ok.get_result().is_none());
    assert!(ok.get_error().is_some());
}

#[test]
fn response_round_trip_with_error() {
    let data = text("detail");
    let error = JrpcError::new(-32602, "Invalid params".to_string(), Some(data));
    let response = JrpcResponse::new(None, Some(error), text("7")).unwrap();
    let back = JrpcResponse::parse(response.into_json()).unwrap();
    let e = back.get_error().as_ref().unwrap();
    assert_eq!(*e.get_code(), -32602);
    assert_eq!(e.get_message(), "Invalid params");
    assert_eq!(e.get_data().as_ref().and_then(as_text), Some("detail"));
    assert_eq!(as_text(back.get_id()), Some("7"));
    assert!(back.get_result().is_none());
}

#[test]
fn response_round_trip_with_null_result() {
    let response = JrpcResponse::new(Some(JsonValue::Null), None, num(5)).unwrap();
    let back = JrpcResponse::parse(response.into_json()).unwrap();
    assert!(matches!(back.get_result(), Some(JsonValue::Null)));
    assert_eq!(as_int(back.get_id()), Some(5));
}

#[test]
fn response_parse_failures() {
    let both = JsonValue::Object(vec![
        member("jsonrpc", text("2.0")),
        member("result", num(1)),
        member("error", JrpcError::from(-32603).into_json()),
        member("id", num(1)),
    ]);
    assert!(matches!(
        JrpcResponse::parse(both),
        Err(ErrorVariant::ResponseCannotContainResultAndError)
    ));
    let neither = JsonValue::Object(vec![member("jsonrpc", text("2.0")), member("id", num(1))]);
    assert!(matches!(
        JrpcResponse::parse(neither),
        Err(ErrorVariant::ResponseMustContainResultOrError)
    ));
    let old = JsonValue::Object(vec![
        member("jsonrpc", text("1.0")),
        member("result", num(1)),
        member("id", num(1)),
    ]);
    assert!(matches!(JrpcResponse::parse(old), Err(ErrorVariant::InvalidJsonRpcVersion)));
    let bad_error = JsonValue::Object(vec![
        member("jsonrpc", text("2.0")),
        member("error", JsonValue::Object(vec![member("code", text("x"))])),
        member("id", num(1)),
    ]);
    assert!(matches!(JrpcResponse::parse(bad_error), Err(ErrorVariant::JsonParseError(_))));
    let missing_id = JsonValue::Object(vec![member("jsonrpc", text("2.0")), member("result", num(2))]);
    assert!(matches!(JrpcResponse::parse(missing_id), Err(ErrorVariant::JsonParseError(_))));
    let null_id = JsonValue::Object(vec![
        member("jsonrpc", text("2.0")),
        member("result", num(2)),
        member("id", JsonValue::Null),
    ]);
    let r = JrpcResponse::parse(null_id).unwrap();
    assert!(matches!(r.get_id(), JsonValue::Null));
}

#[test]
fn error_parse_code_range() {
    let big = JsonValue::Object(vec![
        member("code", JsonValue::Number(JsonNumber::PosInt(1u64 << 40))),
        member("message", text("m")),
    ]);
    assert!(matches!(JrpcError::parse(big), Err(ErrorVariant::JsonParseError(_))));
    let fine = JsonValue::Object(vec![member("code", num(-32700)), member("message", text("m"))]);
    let e = JrpcError::parse(fine).unwrap();
    assert_eq!(*e.get_code(), -32700);
    assert_eq!(e.get_message(), "m");
    assert!(e.get_data().is_none());
}

#[test]
fn error_codes_classify() {
    assert_eq!(JrpcErrorEnum::from(-32700), JrpcErrorEnum::ParseError);
    assert_eq!(JrpcErrorEnum::from(-32600), JrpcErrorEnum::InvalidRequest);
    assert_eq!(JrpcErrorEnum::from(-32601), JrpcErrorEnum::MethodNotFound);
    assert_eq!(JrpcErrorEnum::from(-32602), JrpcErrorEnum::InvalidParams);
    assert_eq!(JrpcErrorEnum::from(-32603), JrpcErrorEnum::InternalError);
    assert_eq!(JrpcErrorEnum::from(-32000), JrpcErrorEnum::ServerError);
    assert_eq!(JrpcErrorEnum::from(-32099), JrpcErrorEnum::ServerError);
    assert_eq!(JrpcErrorEnum::from(-32050), JrpcErrorEnum::ServerError);
    assert_eq!(JrpcErrorEnum::from(-32100), JrpcErrorEnum::Other);
    assert_eq!(JrpcErrorEnum::from(-31999), JrpcErrorEnum::Other);
    assert_eq!(JrpcErrorEnum::from(0), JrpcErrorEnum::Other);
    assert_eq!(JrpcErrorEnum::from(42), JrpcErrorEnum::Other);
}

#[test]
fn error_classes_give_codes() {
    assert_eq!(i32::from(JrpcErrorEnum::ParseError), -32700);
    assert_eq!(i32::from(JrpcErrorEnum::InvalidRequest), -32600);
    assert_eq!(i32::from(JrpcErrorEnum::MethodNotFound), -32601);
    assert_eq!(i32::from(JrpcErrorEnum::InvalidParams), -32602);
    assert_eq!(i32::from(JrpcErrorEnum::InternalError), -32603);
    assert_eq!(i32::from(JrpcErrorEnum::ServerError), -32000);
    assert_eq!(i32::from(JrpcErrorEnum::Other), 0);
}

#[test]
fn error_objects_have_canonical_messages() {
    let e = JrpcError::from(JrpcErrorEnum::MethodNotFound);
    assert_eq!(*e.get_code(), -32601);
    assert_eq!(e.get_message(), "Method not found");
    assert!(e.get_data().is_none());
    assert_eq!(JrpcError::from(-32700).get_message(), "Parse error");
    assert_eq!(JrpcError::from(-32600).get_message(), "Invalid Request");
    assert_eq!(JrpcError::from(-32602).get_message(), "Invalid params");
    assert_eq!(JrpcError::from(-32603).get_message(), "Internal error");
    let server = JrpcError::from(-32042);
    assert_eq!(*server.get_code(), -32000);
    assert_eq!(server.get_message(), "Server error");
    let other = JrpcError::from(7);
    assert_eq!(*other.get_code(), 0);
    assert_eq!(other.get_message(), "JsonRpc Error");
}

#[test]
fn failures_map_to_codes() {
    let parse_failure = serde_json::from_str::<serde_json::Value>("{").unwrap_err();
    let cases: Vec<(ErrorVariant, i32)> = vec![
        (ErrorVariant::MethodSignatureNotFound("x".to_string()), -32601),
        (ErrorVariant::JsonParseError(parse_failure), -32700),
        (ErrorVariant::InvalidJsonRpcVersion, -32600),
        (ErrorVariant::InvalidJsonRpcId, -32600),
        (ErrorVariant::ResponseCannotContainResultAndError, -32600),
        (ErrorVariant::ResponseMustContainResultOrError, -32600),
        (ErrorVariant::RwLockPoisoned, -32603),
        (ErrorVariant::NoRequestProvided, -32603),
        (ErrorVariant::InternalError, -32603),
        (ErrorVariant::InternalErrorMessage("boom".to_string()), -32603),
    ];
    for (variant, code) in cases {
        assert_eq!(*JrpcError::from(variant).get_code(), code);
    }
}

#[test]
fn json_lookup_and_numbers() {
    let obj = JsonValue::Object(vec![member("a", num(1)), member("b", num(-2)), member("a", num(3))]);
    assert_eq!(obj.get("a").and_then(as_int), Some(1));
    assert_eq!(obj.get("b").and_then(as_int), Some(-2));
    assert!(obj.get("c").is_none());
    assert!(num(1).get("a").is_none());
    assert_eq!(JsonNumber::PosInt(u64::MAX).as_i64(), None);
    assert_eq!(JsonNumber::PosInt(i64::MAX as u64).as_i64(), Some(i64::MAX));
    assert_eq!(JsonNumber::Float("1.5".to_string()).as_i64(), None);
    assert!(futures_jsonrpc::json::str_equal("2.0", "2.0"));
    assert!(!futures_jsonrpc::json::str_equal("2.0", "2.1"));
    assert!(!futures_jsonrpc::json::str_equal("2.0", "2.00"));
}

#[test]
fn take_fields_splits_by_key() {
    let members = vec![member("x", num(1)), member("y", num(2)), member("x", num(3))];
    let keys = vec!["x", "z", "y"];
    let slots = futures_jsonrpc::json::take_fields(members, &keys);
    assert_eq!(slots.len(), 3);
    assert_eq!(slots[0].as_ref().and_then(as_int), Some(1));
    assert!(slots[1].is_none());
    assert_eq!(slots[2].as_ref().and_then(as_int), Some(2));
}

#[test]
fn clones_are_deep_copies() {
    let nested = JsonValue::Object(vec![
        member("list", JsonValue::Array(vec![num(1), text("two"), JsonValue::Null])),
        member("flag", JsonValue::Bool(true)),
    ]);
    let request = JrpcRequest::new("copy".to_string(), Some(nested), Some(num(-4))).unwrap();
    let copy = request.clone();
    drop(request);
    assert_eq!(copy.get_method(), "copy");
    assert_eq!(copy.get_id().as_ref().and_then(as_int), Some(-4));
    let params = copy.get_params().as_ref().unwrap();
    match params.get("list") {
        Some(JsonValue::Array(items)) => {
            assert_eq!(items.len(), 3);
            assert_eq!(as_int(&items[0]), Some(1));
            assert_eq!(as_text(&items[1]), Some("two"));
            assert!(matches!(items[2], JsonValue::Null));
        }
        _ => panic!("list lost"),
    }
    assert!(matches!(params.get("flag"), Some(JsonValue::Bool(true))));

    let response = JrpcResponse::new(None, Some(JrpcError::new(5, "five".to_string(), None)), text("r")).unwrap();
    let copy = response.clone();
    assert_eq!(copy.get_error().as_ref().map(|e| *e.get_code()), Some(5));
    assert_eq!(as_text(copy.get_id()), Some("r"));
}

#[test]
fn error_parse_rejects_wrong_shapes() {
    assert!(matches!(JrpcError::parse(num(1)), Err(ErrorVariant::JsonParseError(_))));
    let no_message = JsonValue::Object(vec![member("code", num(1))]);
    assert!(matches!(JrpcError::parse(no_message), Err(ErrorVariant::JsonParseError(_))));
    let float_code = JsonValue::Object(vec![
        member("code", JsonValue::Number(JsonNumber::Float("1.5".to_string()))),
        member("message", text("m")),
    ]);
    let err = JrpcError::parse(float_code).unwrap_err();
    assert_eq!(*JrpcError::from(err).get_code(), -32700);
}

#[test]
fn cloned_response_validates_unchanged() {
    let data = JsonValue::Array(vec![num(1), text("x")]);
    let response = JrpcResponse::new(None, Some(JrpcError::new(-32001, "busy".to_string(), Some(data))), num(8))
        .unwrap()
        .validate()
        .unwrap();
    let copy = response.clone().validate().unwrap();
    let e = copy.get_error().as_ref().unwrap();
    assert_eq!(*e.get_code(), -32001);
    assert_eq!(e.get_message(), "busy");
    match e.get_data() {
        Some(JsonValue::Array(items)) => {
            assert_eq!(items.len(), 2);
            assert_eq!(as_int(&items[0]), Some(1));
            assert_eq!(as_text(&items[1]), Some("x"));
        }
        _ => panic!("data lost"),
    }
    assert_eq!(as_int(copy.get_id()), Some(8));
    assert!(copy.get_result().is_none());
}

#[test]
fn encoded_messages_hold_only_their_fields() {
    let request = JrpcRequest::new("m".to_string(), Some(JsonValue::Null), Some(num(1))).unwrap();
    match request.into_json() {
        JsonValue::Object(members) => {
            let keys: Vec<&str> = members.iter().map(|m| m.key.as_str()).collect();
            assert_eq!(keys, vec!["jsonrpc", "method", "params", "id"]);
        }
        _ => panic!("not an object"),
    }
    let error = JrpcError::from(-32700);
    match error.into_json() {
        JsonValue::Object(members) => {
            let keys: Vec<&str> = members.iter().map(|m| m.key.as_str()).collect();
            assert_eq!(keys, vec!["code", "message"]);
        }
        _ => panic!("not an object"),
    }
}
