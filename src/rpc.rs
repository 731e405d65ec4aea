use vstd::prelude::*;
use crate::error::{Error, ServerError, server_error_shape, server_error_from};
use crate::json::{Json, lookup, member, parse_json, print_json, json_parsed, json_printed};

verus! {

/// The protocol tag of every request.
pub const JSONRPC_20: &'static str = "2.0";

/// An outbound JSON-RPC call.
#[derive(Debug, PartialEq)]
pub struct RpcRequest {
    pub jsonrpc: String,
    pub method: String,
    pub id: u32,
    pub params: Json,
}

/// The three members of an envelope that carry data, in the order they are written.
pub open spec fn envelope_members(r: RpcRequest, m: Seq<(String, Json)>) -> bool {
    &&& m.len() == 4
    &&& m[0].0@ == "jsonrpc"@
    &&& m[0].1 matches Json::Str(t) && t@ == r.jsonrpc@
    &&& m[1].0@ == "method"@
    &&& m[1].1 matches Json::Str(t) && t@ == r.method@
    &&& m[2].0@ == "id"@ && m[2].1 == Json::Int(r.id as i64)
    &&& m[3].0@ == "params"@ && m[3].1 == r.params
}

impl RpcRequest {
    /// The envelope as a JSON object.
    pub fn to_json(self) -> (r: Json)
        ensures
            r matches Json::Object(m) && envelope_members(self, m@),
    {
        let mut m: Vec<(String, Json)> = Vec::new();
        m.push(("jsonrpc".to_owned(), Json::Str(self.jsonrpc)));
        m.push(("method".to_owned(), Json::Str(self.method)));
        m.push(("id".to_owned(), Json::Int(self.id as i64)));
        m.push(("params".to_owned(), self.params));
        proof {
            reveal_strlit("jsonrpc");
            reveal_strlit("method");
            reveal_strlit("id");
            reveal_strlit("params");
        }
        Json::Object(m)
    }

    /// The request body sent over the wire.
    pub fn to_text(self) -> (r: String)
        ensures
            exists|j: Json| #[trigger] json_printed(j) == r@ && (j matches Json::Object(m) && envelope_members(self, m@)),
    {
        let j = self.to_json();
        print_json(&j)
    }
}

/// What a decoded response holds, given what was parsed from its text.
pub open spec fn response_outcome(parsed: Option<Json>, raw: Seq<char>, r: Result<Json, Error>) -> bool {
    match parsed {
        None => r matches Err(Error::MalformedPayload(t)) && t@ == raw,
        Some(j) => match lookup(j, "result"@) {
            Some(v) => r == Ok::<Json, Error>(v),
            None => match lookup(j, "error"@) {
                Some(e) => if server_error_shape(e) {
                    r matches Err(Error::Rpc(se)) && server_error_from(e, se)
                } else {
                    r matches Err(Error::Decode { raw: v, target }) && v == e && target@ == "ServerError"@
                },
                None => r matches Err(Error::UnknownPayload(t)) && t@ == raw,
            },
        },
    }
}

/// Sorts a parsed response into its result, the server's error, or a malformed
/// or unknown payload.
pub fn classify_response(parsed: Option<Json>, raw: &str) -> (r: Result<Json, Error>)
    ensures
        response_outcome(parsed, raw@, r),
{
    match parsed {
        None => Err(Error::MalformedPayload(raw.to_owned())),
        Some(j) => {
            if j.get("result").is_some() {
                match j.into_member("result") {
                    Some(v) => Ok(v),
                    None => Err(Error::UnknownPayload(raw.to_owned())),
                }
            } else {
                match j.into_member("error") {
                    Some(e) => match ServerError::from_json(e) {
                        Ok(se) => Err(Error::Rpc(se)),
                        Err(back) => Err(Error::Decode { raw: back, target: "ServerError".to_owned() }),
                    },
                    None => Err(Error::UnknownPayload(raw.to_owned())),
                }
            }
        },
    }
}

/// Envelope encoding and response decoding against one server.
pub struct OdooRpc {
    pub base_url: String,
}

impl OdooRpc {
    pub fn new(base_url: String) -> (r: Self)
        ensures
            r.base_url == base_url,
    {
        OdooRpc { base_url }
    }

    /// Wraps `params` in a request envelope with the fixed call id.
    pub fn encode_query(&self, method: &str, params: Json) -> (r: RpcRequest)
        ensures
            r.jsonrpc@ == "2.0"@,
            r.method@ == method@,
            r.id == 1,
            r.params == params,
    {
        proof {
            reveal_strlit("2.0");
        }
        RpcRequest { jsonrpc: JSONRPC_20.to_owned(), method: method.to_owned(), id: 1, params }
    }

    /// Reads the result out of a response text, or the error that it stands for.
    /// A transport failure passes through unchanged.
    pub fn decode_response(&self, resp: Result<String, Error>) -> (r: Result<Json, Error>)
        ensures
            match resp {
                Err(e) => r == Err::<Json, Error>(e),
                Ok(raw) => response_outcome(json_parsed(raw@), raw@, r),
            },
    {
        match resp {
            Err(e) => Err(e),
            Ok(raw) => {
                let parsed = parse_json(raw.as_str());
                classify_response(parsed, raw.as_str())
            },
        }
    }
}

} // verus!
