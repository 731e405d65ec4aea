use roudoudou::{classify_response, Error, Json, OdooRpc, ServerError};

fn rpc() -> OdooRpc {
    OdooRpc::new("http://localhost:8069".to_owned())
}

#[test]
fn parse_reads_members_in_order() {
    let v = Json::from_text(r#"{"b": 1, "a": [true, null, "x"], "n": 2.5}"#).unwrap();
    assert_eq!(v.get("b"), Some(&Json::Int(1)));
    assert_eq!(
        v.get("a"),
        Some(&Json::Array(vec![Json::Bool(true), Json::Null, Json::Str("x".to_owned())]))
    );
    assert_eq!(v.get("n"), Some(&Json::Num("2.5".to_owned())));
    assert_eq!(v.get("zzz"), None);
}

#[test]
fn parse_rejects_non_json() {
    assert_eq!(Json::from_text("{not json"), None);
}

#[test]
fn encode_query_uses_fixed_tag_and_id() {
    let q = rpc().encode_query("call", Json::Object(vec![]));
    assert_eq!(q.jsonrpc, "2.0");
    assert_eq!(q.method, "call");
    assert_eq!(q.id, 1);
    assert_eq!(q.params, Json::Object(vec![]));
    assert_eq!(q.to_text(), r#"{"id":1,"jsonrpc":"2.0","method":"call","params":{}}"#);
}

#[test]
fn decode_result_member() {
    let r = rpc().decode_response(Ok(r#"{"jsonrpc":"2.0","id":1,"result":[1,2]}"#.to_owned()));
    assert_eq!(r, Ok(Json::Array(vec![Json::Int(1), Json::Int(2)])));
}

#[test]
fn decode_malformed_payload() {
    let r = rpc().decode_response(Ok("<html>".to_owned()));
    assert_eq!(r, Err(Error::MalformedPayload("<html>".to_owned())));
}

#[test]
fn decode_unknown_payload() {
    let raw = r#"{"jsonrpc":"2.0","id":1}"#;
    let r = rpc().decode_response(Ok(raw.to_owned()));
    assert_eq!(r, Err(Error::UnknownPayload(raw.to_owned())));
}

#[test]
fn decode_transport_error_passes_through() {
    let r = rpc().decode_response(Err(Error::Transport("timed out".to_owned())));
    assert_eq!(r, Err(Error::Transport("timed out".to_owned())));
}

#[test]
fn decode_server_error() {
    let raw = r#"{"jsonrpc":"2.0","id":1,"error":{"code":200,"message":"Odoo Server Error","data":{"name":"odoo.exceptions.AccessDenied","message":"Access denied","exception_type":"access_denied","arguments":["Access denied"],"debug":"Traceback"}}}"#;
    match rpc().decode_response(Ok(raw.to_owned())) {
        Err(Error::Rpc(ServerError { code, data })) => {
            assert_eq!(code, 200);
            assert_eq!(data.name, "odoo.exceptions.AccessDenied");
            assert_eq!(data.message, "Access denied");
            assert_eq!(data.exception_type, "access_denied");
            assert_eq!(data.arguments, vec![Json::Str("Access denied".to_owned())]);
            assert_eq!(data.debug, "Traceback");
        }
        other => panic!("unexpected: {:?}", other),
    }
}

#[test]
fn decode_error_of_other_shape() {
    let raw = r#"{"error":{"code":"x"}}"#;
    match rpc().decode_response(Ok(raw.to_owned())) {
        Err(Error::Decode { raw, target }) => {
            assert_eq!(target, "ServerError");
            assert_eq!(raw.get("code"), Some(&Json::Str("x".to_owned())));
        }
        other => panic!("unexpected: {:?}", other),
    }
}

#[test]
fn classify_prefers_result() {
    let j = Json::Object(vec![
        ("error".to_owned(), Json::Null),
        ("result".to_owned(), Json::Bool(true)),
    ]);
    assert_eq!(classify_response(Some(j), "raw"), Ok(Json::Bool(true)));
    assert_eq!(
        classify_response(None, "raw"),
        Err(Error::MalformedPayload("raw".to_owned()))
    );
    assert_eq!(
        classify_response(Some(Json::Object(vec![])), "{}"),
        Err(Error::UnknownPayload("{}".to_owned()))
    );
}
