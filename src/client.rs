use vstd::prelude::*;
use crate::api::{
    OdooApi, Outbound, call_to, login_params, service_call, args_of, object_head, kw_args, positional,
    call_shape, is_id_list, is_text_list, ODOO_JSONRPC, url_joined,
};
use crate::error::Error;
use crate::json::{Json, lookup};
use crate::schema::{
    FieldDescriptor, Method, ObjectDescriptor, fields_from, method_shape, methods_from, methods_from_json,
};
use crate::session::{SessionInfo, session_shape, session_from, u32_of};

verus! {

/// The session manager: disconnected, or connected with the session record
/// of a successful login.
pub struct OdooClient {
    pub api: OdooApi,
    session: Option<SessionInfo>,
}

/// Remote object metadata bound to the client whose session it was fetched with.
pub struct Model<'a> {
    pub desc: ObjectDescriptor,
    pub cli: &'a OdooClient,
}

impl OdooClient {
    /// The session held, if connected.
    pub closed spec fn state(&self) -> Option<SessionInfo> {
        self.session
    }

    /// The endpoints the client talks to.
    pub closed spec fn endpoints(&self) -> OdooApi {
        self.api
    }

    /// A disconnected client.
    pub fn new(api: OdooApi) -> (r: Self)
        ensures
            r.endpoints() == api,
            r.state() is None,
    {
        OdooClient { api, session: None }
    }

    /// The endpoints the client talks to.
    pub fn api(&self) -> (r: &OdooApi)
        ensures
            *r == self.endpoints(),
    {
        &self.api
    }

    pub fn is_connected(&self) -> (r: bool)
        ensures
            r == self.state() is Some,
    {
        self.session.is_some()
    }

    /// The session record, if connected.
    pub fn session(&self) -> (r: Option<&SessionInfo>)
        ensures
            match r {
                Some(s) => self.state() == Some(*s),
                None => self.state() is None,
            },
    {
        match &self.session {
            Some(s) => Some(s),
            None => None,
        }
    }

    /// The authentication request. Only a disconnected client may log in:
    /// a connected one fails with a client state error, whatever the credentials.
    pub fn login(&self, db: &str, user: &str, password: &str) -> (r: Result<Outbound, Error>)
        ensures
            self.state() is Some ==> (r matches Err(Error::ClientState(t)) && t@ == "already connected"@),
            self.state() is None ==> (r matches Ok(o) && call_to(o, self.endpoints().login_url@)
                && login_params(o.request.params, db@, user@, password@)),
    {
        if self.is_connected() {
            return Err(Error::ClientState("already connected".to_owned()));
        }
        Ok(self.api.login(db, user, password))
    }

    /// Takes the outcome of the authentication request: a session record
    /// connects the client; an error, or a result that is not a session
    /// record, leaves it disconnected and is returned.
    pub fn complete_login(&mut self, resp: Result<Json, Error>) -> (r: Result<(), Error>)
        ensures
            final(self).endpoints() == old(self).endpoints(),
            old(self).state() is Some ==> (r matches Err(Error::ClientState(t)) && t@ == "already connected"@)
                && final(self).state() == old(self).state(),
            old(self).state() is None ==> match resp {
                Err(e) => r == Err::<(), Error>(e) && final(self).state() is None,
                Ok(v) => if session_shape(v) {
                    r is Ok && (final(self).state() matches Some(s) && session_from(v, s))
                } else {
                    r matches Err(Error::Decode { raw, target }) && raw == v && final(self).state() is None
                },
            },
    {
        if self.is_connected() {
            return Err(Error::ClientState("already connected".to_owned()));
        }
        match resp {
            Err(e) => Err(e),
            Ok(v) => match SessionInfo::from_json(v) {
                Ok(s) => {
                    self.session = Some(s);
                    Ok(())
                },
                Err(e) => Err(e),
            },
        }
    }

    /// The request that ends the session. A disconnected client fails with a
    /// client state error.
    pub fn logout(&self) -> (r: Result<Outbound, Error>)
        ensures
            self.state() is None ==> (r matches Err(Error::ClientState(t)) && t@ == "not connected"@),
            self.state() is Some ==> (r matches Ok(o) && call_to(o, self.endpoints().logout_url@)
                && o.request.params is Object && o.request.params->Object_0@.len() == 0),
    {
        if !self.is_connected() {
            return Err(Error::ClientState("not connected".to_owned()));
        }
        Ok(self.api.logout())
    }

    /// Takes the outcome of the logout request. Whatever the server answered,
    /// the client is disconnected afterwards; the answer is returned.
    pub fn complete_logout(&mut self, resp: Result<Json, Error>) -> (r: Result<Json, Error>)
        ensures
            final(self).endpoints() == old(self).endpoints(),
            final(self).state() is None,
            old(self).state() is None ==> (r matches Err(Error::ClientState(t)) && t@ == "not connected"@),
            old(self).state() is Some ==> r == resp,
    {
        if !self.is_connected() {
            return Err(Error::ClientState("not connected".to_owned()));
        }
        self.session = None;
        resp
    }

    /// The request for the field metadata of `name`, on behalf of the session
    /// user. A disconnected client fails with `NotConnected`.
    pub fn get_model(&self, name: &str) -> (r: Result<Outbound, Error>)
        ensures
            self.state() is None ==> r == Err::<Outbound, Error>(Error::NotConnected),
            self.state() matches Some(s) ==> {
                &&& r is Ok <==> url_joined(self.endpoints().rpc.base_url@, ODOO_JSONRPC@) is Some
                &&& r matches Ok(o) ==> service_call(o, self.endpoints().rpc.base_url@, ODOO_JSONRPC@, "object"@, "execute"@)
                    && args_of(o) is Array && args_of(o)->Array_0@.len() == 5
                    && object_head(args_of(o)->Array_0@, s.db@, s.uid, s.username@, name@, "fields_get"@)
            },
    {
        match &self.session {
            None => Err(Error::NotConnected),
            Some(s) => self.api.object_fields_get(s.db.as_str(), s.uid, s.username.as_str(), name),
        }
    }

    /// The model of `name` from the answer to `get_model`: each field is
    /// decoded on its own and skipped where it does not decode.
    pub fn model_from(&self, name: &str, resp: Result<Json, Error>) -> (r: Result<Model<'_>, Error>)
        ensures
            self.state() is None ==> r == Err::<Model<'_>, Error>(Error::NotConnected),
            self.state() is Some ==> match resp {
                Err(e) => r == Err::<Model<'_>, Error>(e),
                Ok(v) => match v {
                    Json::Object(m) => r matches Ok(model) && model.cli == self && model.desc.name@ == name@
                        && fields_from(m@, m@.len() as nat, model.desc.fields@),
                    _ => r matches Err(Error::Decode { raw, target }) && raw == v,
                },
            },
    {
        if !self.is_connected() {
            return Err(Error::NotConnected);
        }
        match resp {
            Err(e) => Err(e),
            Ok(v) => match ObjectDescriptor::from_fields(name, v) {
                Ok(desc) => Ok(Model { desc, cli: self }),
                Err(e) => Err(e),
            },
        }
    }
}

/// An ordered list of record ids with the rows read for them, bound to a model.
pub struct RecordSet<'a> {
    pub ids: Vec<u32>,
    pub model: &'a Model<'a>,
    pub data: Vec<Json>,
}

/// `v` is a list of ids that each fit a `u32`.
pub open spec fn id_values(v: Json) -> Option<Seq<u32>> {
    match v {
        Json::Array(a) => if forall|i: int| 0 <= i < a@.len() ==> u32_of(Some(#[trigger] a@[i])) is Some {
            Some(Seq::new(a@.len(), |i: int| u32_of(Some(a@[i]))->0))
        } else {
            None
        },
        _ => None,
    }
}

/// The id of each row, when every row is a record with an id that fits a `u32`.
pub open spec fn row_ids(rows: Seq<Json>) -> Option<Seq<u32>> {
    if forall|i: int| 0 <= i < rows.len() ==> u32_of(lookup(#[trigger] rows[i], "id"@)) is Some {
        Some(Seq::new(rows.len(), |i: int| u32_of(lookup(rows[i], "id"@))->0))
    } else {
        None
    }
}

/// The names of the fields of a descriptor, in order.
pub open spec fn field_names(f: Seq<(String, FieldDescriptor)>) -> Seq<String> {
    Seq::new(f.len(), |i: int| f[i].0)
}

/// Reads a list of record ids; another shape is a decode error that holds the value.
pub fn ids_from_json(v: Json) -> (r: Result<Vec<u32>, Error>)
    ensures
        match id_values(v) {
            Some(ids) => r matches Ok(got) && got@ == ids,
            None => r matches Err(Error::Decode { raw, target }) && raw == v,
        },
{
    let mut ids: Vec<u32> = Vec::new();
    match &v {
        Json::Array(a) => {
            let mut i: usize = 0;
            while i < a.len()
                invariant
                    0 <= i <= a@.len(),
                    v == Json::Array(*a),
                    ids@.len() == i,
                    forall|j: int| 0 <= j < i ==> u32_of(Some(#[trigger] a@[j])) == Some(ids@[j]),
                decreases a.len() - i,
            {
                match &a[i] {
                    Json::Int(n) => if 0 <= *n && *n <= 4294967295 {
                        ids.push(*n as u32);
                    } else {
                        assert(u32_of(Some(a@[i as int])) is None);
                        return Err(Error::Decode { raw: v, target: "Vec<u32>".to_owned() });
                    },
                    _ => {
                        assert(u32_of(Some(a@[i as int])) is None);
                        return Err(Error::Decode { raw: v, target: "Vec<u32>".to_owned() });
                    },
                }
                i = i + 1;
            }
            proof {
                assert(id_values(v) is Some);
                assert(id_values(v)->0 =~= ids@);
            }
        },
        _ => {
            return Err(Error::Decode { raw: v, target: "Vec<u32>".to_owned() });
        },
    }
    Ok(ids)
}

/// The ids of rows read from the server, in the order of the rows.
fn ids_of_rows(rows: &Vec<Json>) -> (r: Option<Vec<u32>>)
    ensures
        match row_ids(rows@) {
            Some(ids) => r matches Some(got) && got@ == ids,
            None => r is None,
        },
{
    let mut ids: Vec<u32> = Vec::new();
    let mut i: usize = 0;
    while i < rows.len()
        invariant
            0 <= i <= rows@.len(),
            ids@.len() == i,
            forall|j: int| 0 <= j < i ==> u32_of(lookup(#[trigger] rows@[j], "id"@)) == Some(ids@[j]),
        decreases rows.len() - i,
    {
        match rows[i].get_int("id") {
            Some(n) => if 0 <= n && n <= 4294967295 {
                ids.push(n as u32);
            } else {
                return None;
            },
            None => {
                return None;
            },
        }
        i = i + 1;
    }
    assert(row_ids(rows@) is Some);
    assert(row_ids(rows@)->0 =~= ids@);
    Some(ids)
}

impl<'a> Model<'a> {
    /// The request that calls `method` on the model itself, with `args` when
    /// there are arguments.
    pub fn call(&self, method: &str, args: Option<Json>, kwargs: Option<Json>) -> (r: Result<Outbound, Error>)
        ensures
            self.cli.state() is None ==> r == Err::<Outbound, Error>(Error::NotConnected),
            self.cli.state() matches Some(s) ==> {
                &&& r is Ok <==> url_joined(self.cli.endpoints().rpc.base_url@, ODOO_JSONRPC@) is Some
                &&& r matches Ok(o) ==> service_call(o, self.cli.endpoints().rpc.base_url@, ODOO_JSONRPC@, "object"@, "execute_kw"@)
                    && kw_args(args_of(o), s.db@, s.uid, s.username@, self.desc.name@, method@)
                    && call_shape(positional(args_of(o)), None, args)
            },
    {
        match self.cli.session() {
            None => Err(Error::NotConnected),
            Some(s) => self.cli.api.recordset_call(
                s.db.as_str(),
                s.uid,
                s.username.as_str(),
                self.desc.name.as_str(),
                None,
                method,
                args,
                kwargs,
            ),
        }
    }

    /// The request for the model's public methods.
    pub fn get_methods(&self) -> (r: Result<Outbound, Error>)
        ensures
            self.cli.state() is None ==> r == Err::<Outbound, Error>(Error::NotConnected),
            self.cli.state() matches Some(s) ==> {
                &&& r is Ok <==> url_joined(self.cli.endpoints().rpc.base_url@, ODOO_JSONRPC@) is Some
                &&& r matches Ok(o) ==> service_call(o, self.cli.endpoints().rpc.base_url@, ODOO_JSONRPC@, "object"@, "execute_kw"@)
                    && kw_args(args_of(o), s.db@, s.uid, s.username@, self.desc.name@, "get_public_methods"@)
                    && positional(args_of(o)).len() == 0
            },
    {
        self.call("get_public_methods", None, None)
    }

    /// The methods from the answer to `get_methods`, in the order the server gave them.
    pub fn methods_result(&self, resp: Result<Json, Error>) -> (r: Result<Vec<Method>, Error>)
        ensures
            match resp {
                Err(e) => r == Err::<Vec<Method>, Error>(e),
                Ok(v) => match v {
                    Json::Array(items) => if forall|i: int| 0 <= i < items@.len() ==> method_shape(#[trigger] items@[i]) {
                        r matches Ok(ms) && methods_from(items@, ms@)
                    } else {
                        r matches Err(Error::Decode { raw, target }) && raw == v
                    },
                    _ => r matches Err(Error::Decode { raw, target }) && raw == v,
                },
            },
    {
        match resp {
            Err(e) => Err(e),
            Ok(v) => methods_from_json(v),
        }
    }

    /// The request for the ids of the records that `domain` selects.
    pub fn search(&self, domain: Json) -> (r: Result<Outbound, Error>)
        ensures
            self.cli.state() is None ==> r == Err::<Outbound, Error>(Error::NotConnected),
            self.cli.state() matches Some(s) ==> {
                &&& r is Ok <==> url_joined(self.cli.endpoints().rpc.base_url@, ODOO_JSONRPC@) is Some
                &&& r matches Ok(o) ==> service_call(o, self.cli.endpoints().rpc.base_url@, ODOO_JSONRPC@, "object"@, "execute_kw"@)
                    && kw_args(args_of(o), s.db@, s.uid, s.username@, self.desc.name@, "search"@)
                    && positional(args_of(o)) == seq![domain]
            },
    {
        match self.cli.session() {
            None => Err(Error::NotConnected),
            Some(s) => self.cli.api.object_search(s.db.as_str(), s.uid, s.username.as_str(), self.desc.name.as_str(), domain),
        }
    }

    /// The ids from the answer to `search`, in the order the server gave them.
    pub fn search_result(&self, resp: Result<Json, Error>) -> (r: Result<Vec<u32>, Error>)
        ensures
            match resp {
                Err(e) => r == Err::<Vec<u32>, Error>(e),
                Ok(v) => match id_values(v) {
                    Some(ids) => r matches Ok(got) && got@ == ids,
                    None => r matches Err(Error::Decode { raw, target }) && raw == v,
                },
            },
    {
        match resp {
            Err(e) => Err(e),
            Ok(v) => ids_from_json(v),
        }
    }

    /// The request for the values of `names` on the records `ids`.
    pub fn read(&self, ids: &Vec<u32>, names: &Vec<String>) -> (r: Result<Outbound, Error>)
        ensures
            self.cli.state() is None ==> r == Err::<Outbound, Error>(Error::NotConnected),
            self.cli.state() matches Some(s) ==> {
                &&& r is Ok <==> url_joined(self.cli.endpoints().rpc.base_url@, ODOO_JSONRPC@) is Some
                &&& r matches Ok(o) ==> service_call(o, self.cli.endpoints().rpc.base_url@, ODOO_JSONRPC@, "object"@, "execute_kw"@)
                    && kw_args(args_of(o), s.db@, s.uid, s.username@, self.desc.name@, "read"@)
                    && positional(args_of(o)).len() == 2
                    && is_id_list(positional(args_of(o))[0], ids@)
                    && is_text_list(positional(args_of(o))[1], names@)
            },
    {
        match self.cli.session() {
            None => Err(Error::NotConnected),
            Some(s) => self.cli.api.object_read(s.db.as_str(), s.uid, s.username.as_str(), self.desc.name.as_str(), ids, names),
        }
    }

    /// The rows from the answer to `read`; another shape is a decode error that holds the value.
    pub fn read_result(&self, resp: Result<Json, Error>) -> (r: Result<Vec<Json>, Error>)
        ensures
            match resp {
                Err(e) => r == Err::<Vec<Json>, Error>(e),
                Ok(v) => match v {
                    Json::Array(rows) => r == Ok::<Vec<Json>, Error>(rows),
                    _ => r matches Err(Error::Decode { raw, target }) && raw == v,
                },
            },
    {
        match resp {
            Err(e) => Err(e),
            Ok(Json::Array(rows)) => Ok(rows),
            Ok(v) => Err(Error::Decode { raw: v, target: "Vec<Value>".to_owned() }),
        }
    }

    /// The names of the model's fields, in order.
    pub fn field_names(&self) -> (r: Vec<String>)
        ensures
            r@ == field_names(self.desc.fields@),
    {
        let mut names: Vec<String> = Vec::new();
        let mut i: usize = 0;
        while i < self.desc.fields.len()
            invariant
                0 <= i <= self.desc.fields@.len(),
                names@ == field_names(self.desc.fields@).subrange(0, i as int),
            decreases self.desc.fields.len() - i,
        {
            names.push(self.desc.fields[i].0.clone());
            assert(names@ =~= field_names(self.desc.fields@).subrange(0, i + 1));
            i = i + 1;
        }
        assert(names@ =~= field_names(self.desc.fields@));
        names
    }

    /// The request that reads every field of the model on the records `ids`.
    pub fn browse(&self, ids: &Vec<u32>) -> (r: Result<Outbound, Error>)
        ensures
            self.cli.state() is None ==> r == Err::<Outbound, Error>(Error::NotConnected),
            self.cli.state() matches Some(s) ==> {
                &&& r is Ok <==> url_joined(self.cli.endpoints().rpc.base_url@, ODOO_JSONRPC@) is Some
                &&& r matches Ok(o) ==> service_call(o, self.cli.endpoints().rpc.base_url@, ODOO_JSONRPC@, "object"@, "execute_kw"@)
                    && kw_args(args_of(o), s.db@, s.uid, s.username@, self.desc.name@, "read"@)
                    && positional(args_of(o)).len() == 2
                    && is_id_list(positional(args_of(o))[0], ids@)
                    && is_text_list(positional(args_of(o))[1], field_names(self.desc.fields@))
            },
    {
        let names = self.field_names();
        self.read(ids, &names)
    }

    /// The record set from the answer to `browse`. Each row is paired with the
    /// id it carries, so ids and rows stay aligned by position whatever order
    /// the server chose; a row without an id is a decode error.
    pub fn browse_result(&self, resp: Result<Json, Error>) -> (r: Result<RecordSet<'_>, Error>)
        ensures
            match resp {
                Err(e) => r == Err::<RecordSet<'_>, Error>(e),
                Ok(v) => match v {
                    Json::Array(rows) => match row_ids(rows@) {
                        Some(ids) => r matches Ok(rs) && rs.ids@ == ids && rs.data == rows && rs.model == self,
                        None => r matches Err(Error::Decode { raw, target }) && raw == v,
                    },
                    _ => r matches Err(Error::Decode { raw, target }) && raw == v,
                },
            },
    {
        let rows = match self.read_result(resp) {
            Ok(rows) => rows,
            Err(e) => return Err(e),
        };
        match ids_of_rows(&rows) {
            Some(ids) => Ok(RecordSet { ids, model: self, data: rows }),
            None => Err(Error::Decode { raw: Json::Array(rows), target: "Vec<record>".to_owned() }),
        }
    }

    /// The second step of a search followed by a browse: from the answer to
    /// `search`, the ids found and the request that reads them. Where the
    /// search failed, its error is returned unchanged and nothing is read.
    pub fn search_browse(&self, resp: Result<Json, Error>) -> (r: Result<(Vec<u32>, Outbound), Error>)
        ensures
            match resp {
                Err(e) => r == Err::<(Vec<u32>, Outbound), Error>(e),
                Ok(v) => match id_values(v) {
                    None => r matches Err(Error::Decode { raw, target }) && raw == v,
                    Some(ids) => {
                        &&& self.cli.state() is None ==> r == Err::<(Vec<u32>, Outbound), Error>(Error::NotConnected)
                        &&& self.cli.state() matches Some(s) ==> {
                            &&& r is Ok <==> url_joined(self.cli.endpoints().rpc.base_url@, ODOO_JSONRPC@) is Some
                            &&& r matches Ok(p) ==> p.0@ == ids
                                && service_call(p.1, self.cli.endpoints().rpc.base_url@, ODOO_JSONRPC@, "object"@, "execute_kw"@)
                                && kw_args(args_of(p.1), s.db@, s.uid, s.username@, self.desc.name@, "read"@)
                                && positional(args_of(p.1)).len() == 2
                                && is_id_list(positional(args_of(p.1))[0], ids)
                                && is_text_list(positional(args_of(p.1))[1], field_names(self.desc.fields@))
                        }
                    },
                },
            },
    {
        let ids = match self.search_result(resp) {
            Ok(ids) => ids,
            Err(e) => return Err(e),
        };
        match self.browse(&ids) {
            Ok(o) => Ok((ids, o)),
            Err(e) => Err(e),
        }
    }
}

impl<'a> RecordSet<'a> {
    /// The value of attribute `name` on the first record. An empty record set
    /// fails; an attribute the record lacks gives `None`.
    pub fn get(&self, name: &str) -> (r: Result<Option<&Json>, Error>)
        ensures
            self.data@.len() == 0 ==> r == Err::<Option<&Json>, Error>(Error::EmptyRecordSet),
            self.data@.len() > 0 ==> (r matches Ok(a) && match a {
                Some(v) => lookup(self.data@[0], name@) == Some(*v),
                None => lookup(self.data@[0], name@) is None,
            }),
    {
        if self.data.len() == 0 {
            return Err(Error::EmptyRecordSet);
        }
        Ok(self.data[0].get(name))
    }

    /// The request that calls `method` on the records of this set, with `args`
    /// when there are arguments.
    pub fn call(&self, method: &str, args: Option<Json>, kwargs: Option<Json>) -> (r: Result<Outbound, Error>)
        ensures
            self.model.cli.state() is None ==> r == Err::<Outbound, Error>(Error::NotConnected),
            self.model.cli.state() matches Some(s) ==> {
                &&& r is Ok <==> url_joined(self.model.cli.endpoints().rpc.base_url@, ODOO_JSONRPC@) is Some
                &&& r matches Ok(o) ==> service_call(o, self.model.cli.endpoints().rpc.base_url@, ODOO_JSONRPC@, "object"@, "execute_kw"@)
                    && kw_args(args_of(o), s.db@, s.uid, s.username@, self.model.desc.name@, method@)
                    && call_shape(positional(args_of(o)), Some(&self.ids), args)
            },
    {
        match self.model.cli.session() {
            None => Err(Error::NotConnected),
            Some(s) => self.model.cli.api.recordset_call(
                s.db.as_str(),
                s.uid,
                s.username.as_str(),
                self.model.desc.name.as_str(),
                Some(&self.ids),
                method,
                args,
                kwargs,
            ),
        }
    }
}

/// A search that finds the one id `i`, followed by a read that returns one
/// row carrying that id, gives the ids `[i]` at both steps: the record set has
/// one record, and its attributes are looked up on that row.
pub proof fn law_search_browse_single(found: Json, row: Json, i: u32)
    requires
        found matches Json::Array(a) && a@ == seq![Json::Int(i as i64)],
        u32_of(lookup(row, "id"@)) == Some(i),
    ensures
        id_values(found) == Some(seq![i]),
        row_ids(seq![row]) == Some(seq![i]),
{
    let a = found->Array_0@;
    assert(u32_of(Some(a[0])) == Some(i));
    assert(id_values(found)->0 =~= seq![i]);
    assert(row_ids(seq![row])->0 =~= seq![i]);
}

} // verus!
