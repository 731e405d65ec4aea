use vstd::prelude::*;
use crate::api::{Outbound, service_call, args_of, text, ODOO_JSONRPC, db_service, url_joined};
use crate::client::OdooClient;
use crate::domain::is_text;
use crate::error::Error;
use crate::json::{Json, strs_of, string_views};
use vstd::utf8::encode_utf8;

verus! {

/// The bytes that base64's standard engine decodes from `text`, or `None`
/// where `text` is not valid base64.
pub uninterp spec fn base64_decoded(text: Seq<u8>) -> Option<Seq<u8>>;

/// The text that base64's standard engine encodes `data` as.
pub uninterp spec fn base64_encoded(data: Seq<u8>) -> Seq<char>;

/// Relies on base64::Engine::decode with the standard engine: the outcome
/// depends on the input alone.
#[verifier::external_body]
fn decode_base64(text: &Vec<u8>) -> (r: Option<Vec<u8>>)
    ensures
        match r {
            Some(b) => base64_decoded(text@) == Some(b@),
            None => base64_decoded(text@) is None,
        },
{
    base64::Engine::decode(&base64::engine::general_purpose::STANDARD, text).ok()
}

/// Relies on base64::Engine::encode with the standard engine: the text
/// depends on the input alone.
#[verifier::external_body]
fn encode_base64(data: &Vec<u8>) -> (r: String)
    ensures
        r@ == base64_encoded(data@),
{
    base64::Engine::encode(&base64::engine::general_purpose::STANDARD, data)
}

/// A line without the carriage return that may end it.
pub open spec fn strip_cr(line: Seq<u8>) -> Seq<u8> {
    if line.len() > 0 && line.last() == 13 {
        line.drop_last()
    } else {
        line
    }
}

/// `out` followed by what one line of a dump decodes to; a line that does not
/// decode adds nothing.
pub open spec fn add_line(out: Seq<u8>, line: Seq<u8>) -> Seq<u8> {
    match base64_decoded(strip_cr(line)) {
        Some(b) => out + b,
        None => out,
    }
}

/// The bytes decoded from the complete lines among the first `n` bytes of a
/// dump, and the line still open after them.
pub open spec fn dump_prefix(data: Seq<u8>, n: nat) -> (Seq<u8>, Seq<u8>)
    decreases n,
{
    if n == 0 || n > data.len() {
        (Seq::empty(), Seq::empty())
    } else {
        let (out, line) = dump_prefix(data, (n - 1) as nat);
        if data[n - 1] == 10 {
            (add_line(out, line), Seq::empty())
        } else {
            (out, line.push(data[n - 1]))
        }
    }
}

/// The bytes of a dump: each line decoded on its own, and the lines that do
/// not decode skipped. A last line without a line feed counts when it is not empty.
pub open spec fn dump_decoded(data: Seq<u8>) -> Seq<u8> {
    let (out, line) = dump_prefix(data, data.len());
    if line.len() > 0 {
        add_line(out, line)
    } else {
        out
    }
}

/// Decodes a base64 dump line by line; lines that do not decode are skipped.
pub fn decode_dump(data: &Vec<u8>) -> (r: Vec<u8>)
    ensures
        r@ == dump_decoded(data@),
{
    let mut out: Vec<u8> = Vec::new();
    let mut line: Vec<u8> = Vec::new();
    let mut i: usize = 0;
    while i < data.len()
        invariant
            0 <= i <= data@.len(),
            dump_prefix(data@, i as nat) == (out@, line@),
        decreases data.len() - i,
    {
        if data[i] == 10 {
            append_line(&mut out, &line);
            line = Vec::new();
        } else {
            line.push(data[i]);
        }
        i = i + 1;
    }
    if line.len() > 0 {
        append_line(&mut out, &line);
    }
    out
}

fn append_line(out: &mut Vec<u8>, line: &Vec<u8>)
    ensures
        final(out)@ == add_line(old(out)@, line@),
{
    let mut text = line.clone();
    assert(text@ == line@);
    if text.len() > 0 && text[text.len() - 1] == 13 {
        text.pop();
    }
    assert(text@ == strip_cr(line@));
    match decode_base64(&text) {
        Some(bytes) => {
            let mut k: usize = 0;
            let ghost start = out@;
            while k < bytes.len()
                invariant
                    0 <= k <= bytes@.len(),
                    out@ == start + bytes@.subrange(0, k as int),
                decreases bytes.len() - k,
            {
                out.push(bytes[k]);
                assert(out@ =~= start + bytes@.subrange(0, k + 1));
                k = k + 1;
            }
            assert(bytes@.subrange(0, bytes@.len() as int) =~= bytes@);
        },
        None => {},
    }
}

/// `o` calls `method` of the database service with `n` positional arguments.
pub open spec fn db_call(o: Outbound, base: Seq<char>, method: Seq<char>, n: nat) -> bool {
    &&& service_call(o, base, ODOO_JSONRPC@, "db"@, method)
    &&& args_of(o) is Array
    &&& args_of(o)->Array_0@.len() == n
}

/// The positional arguments of a database service call.
pub open spec fn db_args(o: Outbound) -> Seq<Json> {
    args_of(o)->Array_0@
}

/// Database administration on the server of a client; needs no login.
pub struct DBService<'a> {
    pub cli: &'a OdooClient,
}

impl<'a> DBService<'a> {
    pub fn new(cli: &'a OdooClient) -> (r: Self)
        ensures
            r.cli == cli,
    {
        DBService { cli }
    }

    /// The request for the names of the databases.
    pub fn list(&self) -> (r: Result<Outbound, Error>)
        ensures
            r is Ok <==> url_joined(self.cli.endpoints().rpc.base_url@, ODOO_JSONRPC@) is Some,
            r matches Ok(o) ==> db_call(o, self.cli.endpoints().rpc.base_url@, "list"@, 0),
    {
        self.cli.api().odoo_service_call(&db_service(), "list", Json::Array(Vec::new()))
    }

    /// The database names from the answer to `list`.
    pub fn list_result(&self, resp: Result<Json, Error>) -> (r: Result<Vec<String>, Error>)
        ensures
            match resp {
                Err(e) => r == Err::<Vec<String>, Error>(e),
                Ok(v) => match strs_of(Some(v)) {
                    Some(names) => r matches Ok(got) && string_views(got@) == names,
                    None => r matches Err(Error::Decode { raw, target }) && raw == v,
                },
            },
    {
        match resp {
            Err(e) => Err(e),
            Ok(v) => match v.as_strings() {
                Some(names) => Ok(names),
                None => Err(Error::Decode { raw: v, target: "Vec<String>".to_owned() }),
            },
        }
    }

    /// The request for a zipped dump of `db`.
    pub fn dump(&self, master_password: &str, db: &str) -> (r: Result<Outbound, Error>)
        ensures
            r is Ok <==> url_joined(self.cli.endpoints().rpc.base_url@, ODOO_JSONRPC@) is Some,
            r matches Ok(o) ==> db_call(o, self.cli.endpoints().rpc.base_url@, "dump"@, 3) && is_text(
                db_args(o)[0],
                master_password@,
            ) && is_text(db_args(o)[1], db@) && is_text(db_args(o)[2], "zip"@),
    {
        let mut a: Vec<Json> = Vec::new();
        a.push(text(master_password));
        a.push(text(db));
        a.push(text("zip"));
        self.cli.api().odoo_service_call(&db_service(), "dump", Json::Array(a))
    }

    /// The request that copies `db` to `new_db`.
    pub fn duplicate(&self, master_password: &str, db: &str, new_db: &str) -> (r: Result<Outbound, Error>)
        ensures
            r is Ok <==> url_joined(self.cli.endpoints().rpc.base_url@, ODOO_JSONRPC@) is Some,
            r matches Ok(o) ==> db_call(o, self.cli.endpoints().rpc.base_url@, "duplicate_database"@, 3)
                && is_text(db_args(o)[0], master_password@) && is_text(db_args(o)[1], db@) && is_text(
                db_args(o)[2],
                new_db@,
            ),
    {
        let mut a: Vec<Json> = Vec::new();
        a.push(text(master_password));
        a.push(text(db));
        a.push(text(new_db));
        self.cli.api().odoo_service_call(&db_service(), "duplicate_database", Json::Array(a))
    }

    /// The request that restores `db` from the bytes of a dump, sent as
    /// base64 text; `copy` asks the server to give the restored database a
    /// new identity.
    pub fn restore(&self, master_password: &str, db: &str, data: &Vec<u8>, copy: bool) -> (r: Result<Outbound, Error>)
        ensures
            r is Ok <==> url_joined(self.cli.endpoints().rpc.base_url@, ODOO_JSONRPC@) is Some,
            r matches Ok(o) ==> db_call(o, self.cli.endpoints().rpc.base_url@, "restore"@, 4)
                && is_text(db_args(o)[0], master_password@) && is_text(db_args(o)[1], db@)
                && is_text(db_args(o)[2], base64_encoded(data@)) && db_args(o)[3] == Json::Bool(copy),
    {
        let mut a: Vec<Json> = Vec::new();
        a.push(text(master_password));
        a.push(text(db));
        a.push(Json::Str(encode_base64(data)));
        a.push(Json::Bool(copy));
        self.cli.api().odoo_service_call(&db_service(), "restore", Json::Array(a))
    }

    /// The request that creates `db`, with demonstration data or not.
    pub fn create(&self, master_password: &str, db: &str, demo: bool, lang: &str, admin_password: &str) -> (r: Result<Outbound, Error>)
        ensures
            r is Ok <==> url_joined(self.cli.endpoints().rpc.base_url@, ODOO_JSONRPC@) is Some,
            r matches Ok(o) ==> db_call(o, self.cli.endpoints().rpc.base_url@, "create_database"@, 5)
                && is_text(db_args(o)[0], master_password@) && is_text(db_args(o)[1], db@)
                && db_args(o)[2] == Json::Bool(demo) && is_text(db_args(o)[3], lang@) && is_text(
                db_args(o)[4],
                admin_password@,
            ),
    {
        let mut a: Vec<Json> = Vec::new();
        a.push(text(master_password));
        a.push(text(db));
        a.push(Json::Bool(demo));
        a.push(text(lang));
        a.push(text(admin_password));
        self.cli.api().odoo_service_call(&db_service(), "create_database", Json::Array(a))
    }

    /// The request that deletes `db`.
    pub fn drop(&self, master_password: &str, db: &str) -> (r: Result<Outbound, Error>)
        ensures
            r is Ok <==> url_joined(self.cli.endpoints().rpc.base_url@, ODOO_JSONRPC@) is Some,
            r matches Ok(o) ==> db_call(o, self.cli.endpoints().rpc.base_url@, "drop"@, 2)
                && is_text(db_args(o)[0], master_password@) && is_text(db_args(o)[1], db@),
    {
        let mut a: Vec<Json> = Vec::new();
        a.push(text(master_password));
        a.push(text(db));
        self.cli.api().odoo_service_call(&db_service(), "drop", Json::Array(a))
    }

    /// The bytes of the dump from the answer to `dump`: the base64 text is
    /// decoded line by line and lines that do not decode are skipped.
    pub fn dump_result(&self, resp: Result<Json, Error>) -> (r: Result<Vec<u8>, Error>)
        ensures
            match resp {
                Err(e) => r == Err::<Vec<u8>, Error>(e),
                Ok(v) => match v {
                    Json::Str(t) => r matches Ok(bytes) && bytes@ == dump_decoded(encode_utf8(t@)),
                    _ => r matches Err(Error::Decode { raw, target }) && raw == v,
                },
            },
    {
        match resp {
            Err(e) => Err(e),
            Ok(Json::Str(t)) => {
                let data = vstd::slice::slice_to_vec(t.as_str().as_bytes());
                Ok(decode_dump(&data))
            },
            Ok(v) => Err(Error::Decode { raw: v, target: "String".to_owned() }),
        }
    }
}

} // verus!
