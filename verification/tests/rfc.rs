//! The engine held against the example exchanges of the JSON-RPC 2.0
//! specification.

use jsonrpc::{ErrorCode, ErrorJsonRpc, Handler, JsonRpcRequest, JsonRpcServer, JsonValue};
use rustc_serialize::json::Json;

/// A registry with the fixed methods the exchanges below call.
struct TestMethods;

impl Handler for TestMethods {
    type Context = ();

    fn handle(&self, req: &JsonRpcRequest, _custom: &()) -> Result<JsonValue, ErrorJsonRpc> {
        match req.method {
            "subtract" => Ok(JsonValue::Int(19)),
            "simple_method" => Ok(JsonValue::Int(1)),
            "update" => Ok(JsonValue::Null),
            "foobar" => Ok(JsonValue::Null),
            "sum" => Ok(JsonValue::Int(7)),
            "notify_hello" => Ok(JsonValue::Null),
            "notify_sum" => Ok(JsonValue::Null),
            "get_data" => Ok(JsonValue::Array(vec![
                JsonValue::Str("hello".to_string()),
                JsonValue::Int(5),
            ])),
            _ => Err(ErrorJsonRpc::new(ErrorCode::MethodNotFound)),
        }
    }
}

#[test]
fn test_positional() {
    let server = JsonRpcServer::new_handler(TestMethods);
    let request = "{\"jsonrpc\": \"2.0\", \"method\": \"subtract\", \"params\": [42, 23], \
                   \"id\": 1}";
    let expected_response = Json::from_str("{\"jsonrpc\": \"2.0\", \"result\": 19, \"id\": 1}");
    let response = Json::from_str(&server.handle_request(request).unwrap());
    assert_eq!(expected_response, response);
}

#[test]
fn test_named() {
    let server = JsonRpcServer::new_handler(TestMethods);
    let request = "{\"jsonrpc\": \"2.0\", \"method\": \"subtract\", \"params\": \
                   {\"subtrahend\": 23, \"minuend\": 42}, \"id\": 3}";
    let expected_response = Json::from_str("{\"jsonrpc\": \"2.0\", \"result\": 19, \"id\": 3}");
    let response = Json::from_str(&server.handle_request(request).unwrap());
    assert_eq!(expected_response, response);
}

#[test]
fn test_empty_params() {
    // A params member that is present must hold an array or an object;
    // explicit null is rejected as an invalid request under the known id.
    let server = JsonRpcServer::new_handler(TestMethods);
    let request = "{\"jsonrpc\": \"2.0\", \"method\": \"simple_method\", \"params\": null, \
                   \"id\": 3}";
    let expected_response = Json::from_str(
        "{\"jsonrpc\": \"2.0\", \"error\": {\"code\": -32600, \"message\": \"Invalid Request\"}, \
         \"id\": 3}",
    );
    let response = Json::from_str(&server.handle_request(request).unwrap());
    assert_eq!(expected_response, response);

    let request = "{\"jsonrpc\": \"2.0\", \"method\": \"simple_method\", \"params\": null, \
                   \"id\": 3}";
    let response = Json::from_str(&server.handle_request(request).unwrap());
    assert_eq!(expected_response, response);
}

#[test]
fn test_notification() {
    // --> {"jsonrpc": "2.0", "method": "update", "params": [1,2,3,4,5]}
    // --> {"jsonrpc": "2.0", "method": "foobar"}
    let server = JsonRpcServer::new_handler(TestMethods);
    let response = server.handle_request(
        "{\"jsonrpc\": \"2.0\", \"method\": \"update\", \
         \"params\": [1,2,3,4,5]}",
    );
    assert_eq!(None, response);
    assert_eq!(
        None,
        server.handle_request("{\"jsonrpc\": \"2.0\", \"method\": \"foobar\"}")
    );
}

#[test]
fn test_non_existing_method() {
    // --> {"jsonrpc": "2.0", "method": "foobar", "id": "1"}
    // <-- {"jsonrpc": "2.0", "error": {"code": -32601, "message": "Method not
    // found"}, "id": "1"}
    let server = JsonRpcServer::new();
    let request = "{\"jsonrpc\": \"2.0\", \"method\": \"foobar\",
        \"id\": \"1\"}";
    let expected_response = Json::from_str(
        "{\"jsonrpc\": \"2.0\",
        \"error\": {\"code\": -32601, \"message\": \"Method not found\"},
        \"id\": \"1\"}",
    );
    let response = Json::from_str(&server.handle_request(request).unwrap());
    assert_eq!(expected_response, response);
}

#[test]
fn test_call_invalid_json() {
    // --> {"jsonrpc": "2.0", "method": "foobar, "params": "bar", "baz]
    // <-- {"jsonrpc": "2.0", "error": {"code": -32700, "message": "Parse error"},
    // "id": null}
    let server = JsonRpcServer::new();
    let request = "{\"jsonrpc\": \"2.0\", \"method\": \"foobar, \"params\": \"bar\", \"baz]";
    let expected_response = Json::from_str(
        "{\"jsonrpc\": \"2.0\", \"error\": {\"code\": -32700, \"message\": \"Parse error\"}, \
         \"id\": null}",
    );
    let response = Json::from_str(&server.handle_request(request).unwrap());
    assert_eq!(expected_response, response);
}

#[test]
fn test_call_invalid_request() {
    // --> {"jsonrpc": "2.0", "method": 1, "params": "bar"}
    // <-- {"jsonrpc": "2.0", "error": {"code": -32600, "message": "Invalid
    // Request"}, "id": null}
    let server = JsonRpcServer::new();
    let request = "{\"jsonrpc\": \"2.0\", \"method\": 1, \"params\": \"bar\"}";
    let expected_response = Json::from_str(
        "{\"jsonrpc\": \"2.0\", \"error\": {\"code\": -32600, \"message\": \"Invalid Request\"}, \
         \"id\": null}",
    );
    let response = Json::from_str(&server.handle_request(request).unwrap());
    assert_eq!(expected_response, response);
}

#[test]
fn test_call_batch_invalid_json() {
    let request = "[
        {\"jsonrpc\": \"2.0\", \"method\": \"sum\", \"params\": [1,2,4], \"id\": \"1\"},
        {\"jsonrpc\": \"2.0\", \"method\"
    ]";
    let server = JsonRpcServer::new();
    let expected_response = Json::from_str(
        "{\"jsonrpc\": \"2.0\", \"error\": {\"code\": -32700, \"message\": \"Parse error\"}, \
         \"id\": null}",
    );
    let response = Json::from_str(&server.handle_request(request).unwrap());
    assert_eq!(expected_response, response);
}

#[test]
fn test_call_with_empty_array() {
    let request = "[]";
    let expected_response = Json::from_str(
        "{\"jsonrpc\": \"2.0\", \"error\": {\"code\": -32600, \"message\": \"Invalid Request\"}, \
         \"id\": null}",
    );
    let server = JsonRpcServer::new();
    let response = Json::from_str(&server.handle_request(request).unwrap());
    assert_eq!(expected_response, response);
}

#[test]
fn test_call_with_invalid_batch_not_empty() {
    let request = "[1]";
    let expected_response = Json::from_str(
        "[{\"jsonrpc\": \"2.0\", \"error\": {\"code\": -32600, \"message\": \"Invalid Request\"}, \
         \"id\": null}]",
    );
    let server = JsonRpcServer::new();
    let response = Json::from_str(&server.handle_request(request).unwrap());
    assert_eq!(expected_response, response);
}

#[test]
fn test_call_with_invalid_batch() {
    let request = "[1,2,3]";
    let expected_response = Json::from_str(
        "[
        {\"jsonrpc\": \"2.0\", \"error\": {\"code\": -32600, \"message\": \"Invalid Request\"}, \
         \"id\": null},
        {\"jsonrpc\": \"2.0\", \"error\": {\"code\": -32600, \"message\": \"Invalid Request\"}, \
         \"id\": null},
        {\"jsonrpc\": \"2.0\", \"error\": {\"code\": -32600, \"message\": \"Invalid Request\"}, \
         \"id\": null}
        ]",
    );
    let server = JsonRpcServer::new();
    let response = Json::from_str(&server.handle_request(request).unwrap());
    assert_eq!(expected_response, response);
}

#[test]
fn test_call_batch() {
    let request = "[
        {\"jsonrpc\": \"2.0\", \"method\": \"sum\", \"params\": [1,2,4], \"id\": \"1\"},
        {\"jsonrpc\": \"2.0\", \"method\": \"notify_hello\", \"params\": [7]},
        {\"jsonrpc\": \"2.0\", \"method\": \"subtract\", \"params\": [42,23], \"id\": \"2\"},
        {\"foo\": \"boo\"},
        {\"jsonrpc\": \"2.0\", \"method\": \"foo.get\", \"params\": {\"name\": \"myself\"}, \"id\": \"5\"},
        {\"jsonrpc\": \"2.0\", \"method\": \"get_data\", \"id\": \"9\"}
    ]";

    let expected_response = Json::from_str(
        "[
        {\"jsonrpc\": \"2.0\", \"result\": 7, \"id\": \"1\"},
        {\"jsonrpc\": \"2.0\", \"result\": 19, \"id\": \"2\"},
        {\"jsonrpc\": \"2.0\", \"error\": {\"code\": -32600, \"message\": \"Invalid Request\"}, \
         \"id\": null},
        {\"jsonrpc\": \"2.0\", \"error\": {\"code\": -32601, \"message\": \"Method not found\"}, \
         \"id\": \"5\"},
        {\"jsonrpc\": \"2.0\", \"result\": [\"hello\", 5], \"id\": \"9\"}
        ]",
    );

    let server = JsonRpcServer::new_handler(TestMethods);
    let response = Json::from_str(&server.handle_request(request).unwrap());
    assert_eq!(expected_response, response);
}

#[test]
fn test_call_batch_all_notifications() {
    let request = "[
        {\"jsonrpc\": \"2.0\", \"method\": \"notify_sum\", \"params\": [1,2,4]},
        {\"jsonrpc\": \"2.0\", \"method\": \"notify_hello\", \"params\": [7]}
    ]";
    let server = JsonRpcServer::new_handler(TestMethods);
    let response = server.handle_request(request);
    assert_eq!(None, response);
}
