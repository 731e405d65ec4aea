use vstd::prelude::*;
use crate::error::Error;
use crate::json::{Json, lookup, int_of, str_of};

verus! {

/// A text that the server may replace by `false` when it has none.
#[derive(Debug, PartialEq)]
pub enum OString {
    Filled(String),
    Absent(bool),
}

/// `o` holds what `v` says.
pub open spec fn ostring_from(v: Option<Json>, o: OString) -> bool {
    match (v, o) {
        (Some(Json::Str(t)), OString::Filled(s)) => s@ == t@,
        (Some(Json::Bool(b)), OString::Absent(c)) => b == c,
        _ => false,
    }
}

/// `v` is a string or a boolean.
pub open spec fn ostring_shape(v: Option<Json>) -> bool {
    v matches Some(Json::Str(_)) || v matches Some(Json::Bool(_))
}

/// The integer in `v`, when it fits a `u32`.
pub open spec fn u32_of(v: Option<Json>) -> Option<u32> {
    match int_of(v) {
        Some(n) => if 0 <= n <= u32::MAX {
            Some(n as u32)
        } else {
            None
        },
        None => None,
    }
}

/// The integer in `v`, when it fits a `u16`.
pub open spec fn u16_of(v: Option<Json>) -> Option<u16> {
    match int_of(v) {
        Some(n) => if 0 <= n <= u16::MAX {
            Some(n as u16)
        } else {
            None
        },
        None => None,
    }
}

impl OString {
    /// Reads a string or a boolean.
    pub fn from_json(v: Option<&Json>) -> (r: Option<OString>)
        ensures
            r is Some <==> ostring_shape(match v {
                Some(j) => Some(*j),
                None => None,
            }),
            r matches Some(o) ==> ostring_from(
                match v {
                    Some(j) => Some(*j),
                    None => None,
                },
                o,
            ),
    {
        match v {
            Some(Json::Str(t)) => Some(OString::Filled(t.clone())),
            Some(Json::Bool(b)) => Some(OString::Absent(*b)),
            _ => None,
        }
    }
}

fn get_u32(o: &Json, key: &str) -> (r: Option<u32>)
    ensures
        r == u32_of(lookup(*o, key@)),
{
    match o.get_int(key) {
        Some(n) => if 0 <= n && n <= 4294967295 {
            Some(n as u32)
        } else {
            None
        },
        None => None,
    }
}

fn get_u16(o: &Json, key: &str) -> (r: Option<u16>)
    ensures
        r == u16_of(lookup(*o, key@)),
{
    match o.get_int(key) {
        Some(n) => if 0 <= n && n <= 65535 {
            Some(n as u16)
        } else {
            None
        },
        None => None,
    }
}

fn get_ostring(o: &Json, key: &str) -> (r: Option<OString>)
    ensures
        r is Some <==> ostring_shape(lookup(*o, key@)),
        r matches Some(s) ==> ostring_from(lookup(*o, key@), s),
{
    OString::from_json(o.get(key))
}

/// The language, time zone and week markers of a user.
#[derive(Debug, PartialEq)]
pub struct UserContext {
    pub current_week: OString,
    pub current_week2: OString,
    pub lang: OString,
    pub tz: OString,
}

pub open spec fn user_context_shape(v: Json) -> bool {
    &&& ostring_shape(lookup(v, "current_week"@))
    &&& ostring_shape(lookup(v, "current_week2"@))
    &&& ostring_shape(lookup(v, "lang"@))
    &&& ostring_shape(lookup(v, "tz"@))
}

pub open spec fn user_context_from(v: Json, c: UserContext) -> bool {
    &&& ostring_from(lookup(v, "current_week"@), c.current_week)
    &&& ostring_from(lookup(v, "current_week2"@), c.current_week2)
    &&& ostring_from(lookup(v, "lang"@), c.lang)
    &&& ostring_from(lookup(v, "tz"@), c.tz)
}

impl UserContext {
    pub fn from_json(v: &Json) -> (r: Option<UserContext>)
        ensures
            r is Some <==> user_context_shape(*v),
            r matches Some(c) ==> user_context_from(*v, c),
    {
        let current_week = match get_ostring(v, "current_week") { Some(s) => s, None => return None };
        let current_week2 = match get_ostring(v, "current_week2") { Some(s) => s, None => return None };
        let lang = match get_ostring(v, "lang") { Some(s) => s, None => return None };
        let tz = match get_ostring(v, "tz") { Some(s) => s, None => return None };
        Some(UserContext { current_week, current_week2, lang, tz })
    }
}

/// The session record that a successful login returns.
#[derive(Debug, PartialEq)]
pub struct SessionInfo {
    pub company_id: u32,
    pub db: String,
    pub partner_id: u32,
    pub registered_contract: OString,
    pub session_id: String,
    pub uid: u32,
    pub user_context: UserContext,
    pub username: String,
}

pub open spec fn session_shape(v: Json) -> bool {
    &&& u32_of(lookup(v, "company_id"@)) is Some
    &&& str_of(lookup(v, "db"@)) is Some
    &&& u32_of(lookup(v, "partner_id"@)) is Some
    &&& ostring_shape(lookup(v, "registered_contract"@))
    &&& str_of(lookup(v, "session_id"@)) is Some
    &&& u32_of(lookup(v, "uid"@)) is Some
    &&& lookup(v, "user_context"@) matches Some(c) && user_context_shape(c)
    &&& str_of(lookup(v, "username"@)) is Some
}

pub open spec fn session_from(v: Json, s: SessionInfo) -> bool {
    &&& u32_of(lookup(v, "company_id"@)) == Some(s.company_id)
    &&& str_of(lookup(v, "db"@)) == Some(s.db@)
    &&& u32_of(lookup(v, "partner_id"@)) == Some(s.partner_id)
    &&& ostring_from(lookup(v, "registered_contract"@), s.registered_contract)
    &&& str_of(lookup(v, "session_id"@)) == Some(s.session_id@)
    &&& u32_of(lookup(v, "uid"@)) == Some(s.uid)
    &&& lookup(v, "user_context"@) matches Some(c) && user_context_from(c, s.user_context)
    &&& str_of(lookup(v, "username"@)) == Some(s.username@)
}

impl SessionInfo {
    /// Reads the session record of a login result; another shape is a decode
    /// error that holds the value.
    pub fn from_json(v: Json) -> (r: Result<SessionInfo, Error>)
        ensures
            r is Ok <==> session_shape(v),
            r matches Ok(s) ==> session_from(v, s),
            r matches Err(e) ==> (e matches Error::Decode { raw, target } && raw == v),
    {
        match SessionInfo::read(&v) {
            Some(s) => Ok(s),
            None => Err(Error::Decode { raw: v, target: "SessionInfo".to_owned() }),
        }
    }

    fn read(v: &Json) -> (r: Option<SessionInfo>)
        ensures
            r is Some <==> session_shape(*v),
            r matches Some(s) ==> session_from(*v, s),
    {
        let company_id = match get_u32(v, "company_id") { Some(n) => n, None => return None };
        let db = match v.get_str("db") { Some(t) => t, None => return None };
        let partner_id = match get_u32(v, "partner_id") { Some(n) => n, None => return None };
        let registered_contract = match get_ostring(v, "registered_contract") { Some(s) => s, None => return None };
        let session_id = match v.get_str("session_id") { Some(t) => t, None => return None };
        let uid = match get_u32(v, "uid") { Some(n) => n, None => return None };
        let user_context = match v.get("user_context") {
            Some(c) => match UserContext::from_json(c) {
                Some(u) => u,
                None => return None,
            },
            None => return None,
        };
        let username = match v.get_str("username") { Some(t) => t, None => return None };
        Some(SessionInfo {
            company_id,
            db,
            partner_id,
            registered_contract,
            session_id,
            uid,
            user_context,
            username,
        })
    }
}

/// The version numbers, release level and serial of a server build.
pub type VersionTuple = (u16, u16, u16, String, u16, String);

/// What the version endpoint reports.
#[derive(Debug, PartialEq)]
pub struct VersionInfo {
    pub protocol_version: u16,
    pub server_serial: OString,
    pub server_version: OString,
    pub server_version_info: Option<VersionTuple>,
}

/// `t` holds what the array `a` says.
pub open spec fn version_tuple_from(a: Seq<Json>, t: VersionTuple) -> bool {
    &&& a.len() == 6
    &&& u16_of(Some(a[0])) == Some(t.0)
    &&& u16_of(Some(a[1])) == Some(t.1)
    &&& u16_of(Some(a[2])) == Some(t.2)
    &&& str_of(Some(a[3])) == Some(t.3@)
    &&& u16_of(Some(a[4])) == Some(t.4)
    &&& str_of(Some(a[5])) == Some(t.5@)
}

pub open spec fn version_tuple_shape(a: Seq<Json>) -> bool {
    &&& a.len() == 6
    &&& u16_of(Some(a[0])) is Some
    &&& u16_of(Some(a[1])) is Some
    &&& u16_of(Some(a[2])) is Some
    &&& str_of(Some(a[3])) is Some
    &&& u16_of(Some(a[4])) is Some
    &&& str_of(Some(a[5])) is Some
}

/// The version tuple member is absent, null, or a well-formed tuple.
pub open spec fn version_info_member_shape(v: Option<Json>) -> bool {
    match v {
        None => true,
        Some(Json::Null) => true,
        Some(Json::Array(a)) => version_tuple_shape(a@),
        _ => false,
    }
}

pub open spec fn version_shape(v: Json) -> bool {
    &&& u16_of(lookup(v, "protocol_version"@)) is Some
    &&& ostring_shape(lookup(v, "server_serie"@))
    &&& ostring_shape(lookup(v, "server_version"@))
    &&& version_info_member_shape(lookup(v, "server_version_info"@))
}

pub open spec fn version_from(v: Json, vi: VersionInfo) -> bool {
    &&& u16_of(lookup(v, "protocol_version"@)) == Some(vi.protocol_version)
    &&& ostring_from(lookup(v, "server_serie"@), vi.server_serial)
    &&& ostring_from(lookup(v, "server_version"@), vi.server_version)
    &&& match lookup(v, "server_version_info"@) {
        Some(Json::Array(a)) => vi.server_version_info matches Some(t) && version_tuple_from(a@, t),
        _ => vi.server_version_info is None,
    }
}

fn version_tuple(items: &Vec<Json>) -> (r: Option<VersionTuple>)
    ensures
        r is Some <==> version_tuple_shape(items@),
        r matches Some(t) ==> version_tuple_from(items@, t),
{
    if items.len() != 6 {
        return None;
    }
    let n0 = match &items[0] { Json::Int(n) => if 0 <= *n && *n <= 65535 { *n as u16 } else { return None }, _ => return None };
    let n1 = match &items[1] { Json::Int(n) => if 0 <= *n && *n <= 65535 { *n as u16 } else { return None }, _ => return None };
    let n2 = match &items[2] { Json::Int(n) => if 0 <= *n && *n <= 65535 { *n as u16 } else { return None }, _ => return None };
    let level = match &items[3] { Json::Str(t) => t.clone(), _ => return None };
    let n4 = match &items[4] { Json::Int(n) => if 0 <= *n && *n <= 65535 { *n as u16 } else { return None }, _ => return None };
    let serial = match &items[5] { Json::Str(t) => t.clone(), _ => return None };
    Some((n0, n1, n2, level, n4, serial))
}

impl VersionInfo {
    /// Reads the version report; another shape is a decode error that holds the value.
    pub fn from_json(v: Json) -> (r: Result<VersionInfo, Error>)
        ensures
            r is Ok <==> version_shape(v),
            r matches Ok(vi) ==> version_from(v, vi),
            r matches Err(e) ==> (e matches Error::Decode { raw, target } && raw == v),
    {
        match VersionInfo::read(&v) {
            Some(vi) => Ok(vi),
            None => Err(Error::Decode { raw: v, target: "VersionInfo".to_owned() }),
        }
    }

    fn read(v: &Json) -> (r: Option<VersionInfo>)
        ensures
            r is Some <==> version_shape(*v),
            r matches Some(vi) ==> version_from(*v, vi),
    {
        let protocol_version = match get_u16(v, "protocol_version") { Some(n) => n, None => return None };
        let server_serial = match get_ostring(v, "server_serie") { Some(s) => s, None => return None };
        let server_version = match get_ostring(v, "server_version") { Some(s) => s, None => return None };
        let server_version_info = match v.get("server_version_info") {
            None => None,
            Some(Json::Null) => None,
            Some(Json::Array(items)) => match version_tuple(items) {
                Some(t) => Some(t),
                None => return None,
            },
            _ => return None,
        };
        Some(VersionInfo { protocol_version, server_serial, server_version, server_version_info })
    }
}

} // verus!
