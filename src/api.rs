use vstd::prelude::*;
use crate::domain::is_text;
use crate::error::Error;
use crate::json::Json;
use crate::rpc::{OdooRpc, RpcRequest};

verus! {

pub const ODOO_SERVER_VERSION: &'static str = "/web/webclient/version_info";
pub const ODOO_LOGIN: &'static str = "/web/session/authenticate";
pub const ODOO_LOGOUT: &'static str = "/web/session/destroy";
pub const ODOO_JSONRPC: &'static str = "/jsonrpc";

/// The address that url resolves `path` to against `base`, or `None` where
/// `base` is not an absolute address or the result is not one.
pub uninterp spec fn url_joined(base: Seq<char>, path: Seq<char>) -> Option<Seq<char>>;

/// Relies on url::Url::parse of `base` and url::Url::join of `path` onto it:
/// the outcome depends on the two texts alone.
#[verifier::external_body]
fn join_url(base: &str, path: &str) -> (r: Option<String>)
    ensures
        match r {
            Some(t) => url_joined(base@, path@) == Some(t@),
            None => url_joined(base@, path@) is None,
        },
{
    url::Url::parse(base).and_then(|u| u.join(path)).ok().map(|u| u.to_string())
}

/// A named remote service and the path it is served under.
pub struct OdooService<'a> {
    pub name: &'a str,
    pub path: &'a str,
}

pub fn login_service() -> (r: OdooService<'static>)
    ensures
        r.name@ == "login"@,
        r.path@ == ODOO_LOGIN@,
{
    OdooService { name: "login", path: ODOO_LOGIN }
}

pub fn logout_service() -> (r: OdooService<'static>)
    ensures
        r.name@ == "logout"@,
        r.path@ == ODOO_LOGOUT@,
{
    OdooService { name: "logout", path: ODOO_LOGOUT }
}

pub fn db_service() -> (r: OdooService<'static>)
    ensures
        r.name@ == "db"@,
        r.path@ == ODOO_JSONRPC@,
{
    OdooService { name: "db", path: ODOO_JSONRPC }
}

pub fn object_service() -> (r: OdooService<'static>)
    ensures
        r.name@ == "object"@,
        r.path@ == ODOO_JSONRPC@,
{
    OdooService { name: "object", path: ODOO_JSONRPC }
}

/// A request and the address to post it to.
#[derive(Debug, PartialEq)]
pub struct Outbound {
    pub url: String,
    pub request: RpcRequest,
}

/// `o` posts a `call` envelope with the fixed call id to `url`.
pub open spec fn call_to(o: Outbound, url: Seq<char>) -> bool {
    &&& o.url@ == url
    &&& o.request.jsonrpc@ == "2.0"@
    &&& o.request.method@ == "call"@
    &&& o.request.id == 1
}

/// The parameters of a generic service call: `service`, `method` and `args`.
pub open spec fn service_params(p: Json, service: Seq<char>, method: Seq<char>, args: Json) -> bool {
    &&& p matches Json::Object(m) && m@.len() == 3
    &&& p->Object_0@[0].0@ == "service"@ && is_text(p->Object_0@[0].1, service)
    &&& p->Object_0@[1].0@ == "method"@ && is_text(p->Object_0@[1].1, method)
    &&& p->Object_0@[2].0@ == "args"@ && p->Object_0@[2].1 == args
}

/// The `args` of a generic service call.
pub open spec fn args_of(o: Outbound) -> Json {
    o.request.params->Object_0@[2].1
}

/// `o` calls `method` of the service served under `path` and named `service`,
/// against `base`.
pub open spec fn service_call(o: Outbound, base: Seq<char>, path: Seq<char>, service: Seq<char>, method: Seq<char>) -> bool {
    &&& url_joined(base, path) matches Some(u) && call_to(o, u)
    &&& service_params(o.request.params, service, method, args_of(o))
}

/// The parameters of an authentication request.
pub open spec fn login_params(p: Json, db: Seq<char>, login: Seq<char>, password: Seq<char>) -> bool {
    &&& p matches Json::Object(m) && m@.len() == 3
    &&& p->Object_0@[0].0@ == "db"@ && is_text(p->Object_0@[0].1, db)
    &&& p->Object_0@[1].0@ == "login"@ && is_text(p->Object_0@[1].1, login)
    &&& p->Object_0@[2].0@ == "password"@ && is_text(p->Object_0@[2].1, password)
}

/// A string value.
pub(crate) fn text(s: &str) -> (r: Json)
    ensures
        is_text(r, s@),
{
    Json::Str(s.to_owned())
}

/// The endpoints of one server.
pub struct OdooApi {
    pub rpc: OdooRpc,
    pub version_url: String,
    pub login_url: String,
    pub logout_url: String,
}

impl OdooApi {
    /// Resolves the endpoints against the server's base address.
    pub fn new(rpc: OdooRpc) -> (r: Result<OdooApi, Error>)
        ensures
            r is Ok <==> (url_joined(rpc.base_url@, ODOO_SERVER_VERSION@) is Some && url_joined(
                rpc.base_url@,
                ODOO_LOGIN@,
            ) is Some && url_joined(rpc.base_url@, ODOO_LOGOUT@) is Some),
            r matches Ok(api) ==> api.rpc == rpc && url_joined(rpc.base_url@, ODOO_SERVER_VERSION@)
                == Some(api.version_url@) && url_joined(rpc.base_url@, ODOO_LOGIN@) == Some(
                api.login_url@,
            ) && url_joined(rpc.base_url@, ODOO_LOGOUT@) == Some(api.logout_url@),
            r matches Err(e) ==> e is InvalidUrl,
    {
        let version_url = match join_url(rpc.base_url.as_str(), ODOO_SERVER_VERSION) {
            Some(u) => u,
            None => return Err(Error::InvalidUrl(rpc.base_url)),
        };
        let login_url = match join_url(rpc.base_url.as_str(), ODOO_LOGIN) {
            Some(u) => u,
            None => return Err(Error::InvalidUrl(rpc.base_url)),
        };
        let logout_url = match join_url(rpc.base_url.as_str(), ODOO_LOGOUT) {
            Some(u) => u,
            None => return Err(Error::InvalidUrl(rpc.base_url)),
        };
        Ok(OdooApi { rpc, version_url, login_url, logout_url })
    }

    /// The request for the server's version.
    pub fn version_info(&self) -> (r: Outbound)
        ensures
            call_to(r, self.version_url@),
            r.request.params matches Json::Object(m) && m@.len() == 0,
    {
        let request = self.rpc.encode_query("call", Json::Object(Vec::new()));
        Outbound { url: self.version_url.clone(), request }
    }

    /// The authentication request.
    pub fn login(&self, db: &str, login: &str, password: &str) -> (r: Outbound)
        ensures
            call_to(r, self.login_url@),
            login_params(r.request.params, db@, login@, password@),
    {
        let mut m: Vec<(String, Json)> = Vec::new();
        m.push(("db".to_owned(), text(db)));
        m.push(("login".to_owned(), text(login)));
        m.push(("password".to_owned(), text(password)));
        let request = self.rpc.encode_query("call", Json::Object(m));
        Outbound { url: self.login_url.clone(), request }
    }

    /// The request that ends the session.
    pub fn logout(&self) -> (r: Outbound)
        ensures
            call_to(r, self.logout_url@),
            r.request.params matches Json::Object(m) && m@.len() == 0,
    {
        let request = self.rpc.encode_query("call", Json::Object(Vec::new()));
        Outbound { url: self.logout_url.clone(), request }
    }

    /// A generic call of `method` on `service` with the positional `args`.
    pub fn odoo_service_call(&self, service: &OdooService, method: &str, args: Json) -> (r: Result<Outbound, Error>)
        ensures
            r is Ok <==> url_joined(self.rpc.base_url@, service.path@) is Some,
            r matches Ok(o) ==> service_call(o, self.rpc.base_url@, service.path@, service.name@, method@) && args_of(o) == args,
            r matches Err(e) ==> e is InvalidUrl,
    {
        let url = match join_url(self.rpc.base_url.as_str(), service.path) {
            Some(u) => u,
            None => return Err(Error::InvalidUrl(self.rpc.base_url.clone())),
        };
        let mut m: Vec<(String, Json)> = Vec::new();
        m.push(("service".to_owned(), text(service.name)));
        m.push(("method".to_owned(), text(method)));
        m.push(("args".to_owned(), args));
        let request = self.rpc.encode_query("call", Json::Object(m));
        proof {
            reveal_strlit("call");
        }
        Ok(Outbound { url, request })
    }
}

/// The context sent with every search, read and call: fixed language, time
/// zone, user and week markers.
pub open spec fn is_search_context(j: Json) -> bool {
    &&& j matches Json::Object(m) && m@.len() == 1 && m@[0].0@ == "context"@
    &&& j->Object_0@[0].1 matches Json::Object(c) && c@.len() == 5
    &&& {
        let c = j->Object_0@[0].1->Object_0@;
        &&& c[0].0@ == "lang"@ && is_text(c[0].1, "en_US"@)
        &&& c[1].0@ == "current_week"@ && is_text(c[1].1, "2108"@)
        &&& c[2].0@ == "tz"@ && is_text(c[2].1, "Europe/Paris"@)
        &&& c[3].0@ == "uid"@ && c[3].1 == Json::Int(1)
        &&& c[4].0@ == "current_week2"@ && is_text(c[4].1, "2109"@)
    }
}

/// `a` starts with the database, user id, login, object and method of an object call.
pub open spec fn object_head(a: Seq<Json>, db: Seq<char>, uid: u32, login: Seq<char>, object: Seq<char>, method: Seq<char>) -> bool {
    &&& a.len() >= 5
    &&& is_text(a[0], db)
    &&& a[1] == Json::Int(uid as i64)
    &&& is_text(a[2], login)
    &&& is_text(a[3], object)
    &&& is_text(a[4], method)
}

/// `j` is the argument list of an `execute_kw` call: the head, the positional
/// arguments of the remote method, and the context.
pub open spec fn kw_args(j: Json, db: Seq<char>, uid: u32, login: Seq<char>, object: Seq<char>, method: Seq<char>) -> bool {
    &&& j matches Json::Array(a) && a@.len() == 7
    &&& object_head(j->Array_0@, db, uid, login, object, method)
    &&& j->Array_0@[5] is Array
    &&& is_search_context(j->Array_0@[6])
}

/// The positional arguments that an `execute_kw` argument list hands the remote method.
pub open spec fn positional(j: Json) -> Seq<Json> {
    j->Array_0@[5]->Array_0@
}

/// `j` is the list of `ids`.
pub open spec fn is_id_list(j: Json, ids: Seq<u32>) -> bool {
    &&& j matches Json::Array(a) && a@.len() == ids.len()
    &&& forall|i: int| 0 <= i < ids.len() ==> #[trigger] j->Array_0@[i] == Json::Int(ids[i] as i64)
}

/// `j` is the list of the strings `names`.
pub open spec fn is_text_list(j: Json, names: Seq<String>) -> bool {
    &&& j matches Json::Array(a) && a@.len() == names.len()
    &&& forall|i: int| 0 <= i < names.len() ==> is_text(#[trigger] j->Array_0@[i], names[i]@)
}

fn search_context() -> (r: Json)
    ensures
        is_search_context(r),
{
    let mut c: Vec<(String, Json)> = Vec::new();
    c.push(("lang".to_owned(), text("en_US")));
    c.push(("current_week".to_owned(), text("2108")));
    c.push(("tz".to_owned(), text("Europe/Paris")));
    c.push(("uid".to_owned(), Json::Int(1)));
    c.push(("current_week2".to_owned(), text("2109")));
    let mut m: Vec<(String, Json)> = Vec::new();
    m.push(("context".to_owned(), Json::Object(c)));
    Json::Object(m)
}

pub(crate) fn id_list(ids: &Vec<u32>) -> (r: Json)
    ensures
        is_id_list(r, ids@),
{
    let mut a: Vec<Json> = Vec::new();
    let mut i: usize = 0;
    while i < ids.len()
        invariant
            0 <= i <= ids@.len(),
            a@.len() == i,
            forall|j: int| 0 <= j < i ==> #[trigger] a@[j] == Json::Int(ids@[j] as i64),
        decreases ids.len() - i,
    {
        a.push(Json::Int(ids[i] as i64));
        i = i + 1;
    }
    Json::Array(a)
}

pub(crate) fn text_list(names: &Vec<String>) -> (r: Json)
    ensures
        is_text_list(r, names@),
{
    let mut a: Vec<Json> = Vec::new();
    let mut i: usize = 0;
    while i < names.len()
        invariant
            0 <= i <= names@.len(),
            a@.len() == i,
            forall|j: int| 0 <= j < i ==> is_text(#[trigger] a@[j], names@[j]@),
        decreases names.len() - i,
    {
        a.push(Json::Str(names[i].clone()));
        i = i + 1;
    }
    Json::Array(a)
}

/// The head of an object call: database, user id, login, object and method.
fn object_call_head(db: &str, uid: u32, login: &str, object: &str, method: &str) -> (r: Vec<Json>)
    ensures
        r@.len() == 5,
        object_head(r@, db@, uid, login@, object@, method@),
{
    let mut a: Vec<Json> = Vec::new();
    a.push(text(db));
    a.push(Json::Int(uid as i64));
    a.push(text(login));
    a.push(text(object));
    a.push(text(method));
    a
}

/// The argument list of an `execute_kw` call with the given positional arguments.
fn kw_call(db: &str, uid: u32, login: &str, object: &str, method: &str, pos: Vec<Json>) -> (r: Json)
    ensures
        kw_args(r, db@, uid, login@, object@, method@),
        positional(r) == pos@,
{
    let mut a = object_call_head(db, uid, login, object, method);
    a.push(Json::Array(pos));
    a.push(search_context());
    Json::Array(a)
}

impl OdooApi {
    /// The request for the field metadata of `object`.
    pub fn object_fields_get(&self, db: &str, uid: u32, login: &str, object: &str) -> (r: Result<Outbound, Error>)
        ensures
            r is Ok <==> url_joined(self.rpc.base_url@, ODOO_JSONRPC@) is Some,
            r matches Ok(o) ==> service_call(o, self.rpc.base_url@, ODOO_JSONRPC@, "object"@, "execute"@)
                && args_of(o) is Array && args_of(o)->Array_0@.len() == 5
                && object_head(args_of(o)->Array_0@, db@, uid, login@, object@, "fields_get"@),
    {
        let args = object_call_head(db, uid, login, object, "fields_get");
        self.odoo_service_call(&object_service(), "execute", Json::Array(args))
    }

    /// The request for the ids of the records of `object` that `domain` selects.
    pub fn object_search(&self, db: &str, uid: u32, login: &str, object: &str, domain: Json) -> (r: Result<Outbound, Error>)
        ensures
            r is Ok <==> url_joined(self.rpc.base_url@, ODOO_JSONRPC@) is Some,
            r matches Ok(o) ==> service_call(o, self.rpc.base_url@, ODOO_JSONRPC@, "object"@, "execute_kw"@)
                && kw_args(args_of(o), db@, uid, login@, object@, "search"@)
                && positional(args_of(o)) == seq![domain],
    {
        let mut pos: Vec<Json> = Vec::new();
        pos.push(domain);
        let args = kw_call(db, uid, login, object, "search", pos);
        self.odoo_service_call(&object_service(), "execute_kw", args)
    }

    /// The request for the values of `fields` on the records `ids` of `object`.
    pub fn object_read(&self, db: &str, uid: u32, login: &str, object: &str, ids: &Vec<u32>, fields: &Vec<String>) -> (r: Result<Outbound, Error>)
        ensures
            r is Ok <==> url_joined(self.rpc.base_url@, ODOO_JSONRPC@) is Some,
            r matches Ok(o) ==> service_call(o, self.rpc.base_url@, ODOO_JSONRPC@, "object"@, "execute_kw"@)
                && kw_args(args_of(o), db@, uid, login@, object@, "read"@)
                && positional(args_of(o)).len() == 2
                && is_id_list(positional(args_of(o))[0], ids@)
                && is_text_list(positional(args_of(o))[1], fields@),
    {
        let mut pos: Vec<Json> = Vec::new();
        pos.push(id_list(ids));
        pos.push(text_list(fields));
        let args = kw_call(db, uid, login, object, "read", pos);
        self.odoo_service_call(&object_service(), "execute_kw", args)
    }

    /// The request that calls `method` on `object`: on the records `ids` when
    /// there are ids, with `args` when there are arguments. The positional
    /// arguments are the ids list followed by the arguments, each only where
    /// present; keyword arguments are not sent.
    pub fn recordset_call(
        &self,
        db: &str,
        uid: u32,
        login: &str,
        object: &str,
        ids: Option<&Vec<u32>>,
        method: &str,
        args: Option<Json>,
        kwargs: Option<Json>,
    ) -> (r: Result<Outbound, Error>)
        ensures
            r is Ok <==> url_joined(self.rpc.base_url@, ODOO_JSONRPC@) is Some,
            r matches Ok(o) ==> service_call(o, self.rpc.base_url@, ODOO_JSONRPC@, "object"@, "execute_kw"@)
                && kw_args(args_of(o), db@, uid, login@, object@, method@)
                && call_shape(positional(args_of(o)), ids, args),
    {
        let mut pos: Vec<Json> = Vec::new();
        match ids {
            Some(ids) => pos.push(id_list(ids)),
            None => {},
        }
        match args {
            Some(a) => pos.push(a),
            None => {},
        }
        let call = kw_call(db, uid, login, object, method, pos);
        self.odoo_service_call(&object_service(), "execute_kw", call)
    }
}

/// The positional arguments of a method call for each presence of ids and
/// arguments: `[ids, args]`, `[ids]`, `[args]` or `[]`.
pub open spec fn call_shape(p: Seq<Json>, ids: Option<&Vec<u32>>, args: Option<Json>) -> bool {
    match (ids, args) {
        (Some(ids), Some(a)) => p.len() == 2 && is_id_list(p[0], ids@) && p[1] == a,
        (Some(ids), None) => p.len() == 1 && is_id_list(p[0], ids@),
        (None, Some(a)) => p.len() == 1 && p[0] == a,
        (None, None) => p.len() == 0,
    }
}

} // verus!
