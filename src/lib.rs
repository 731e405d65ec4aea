//! Client library for a JSON-RPC business-object server: request envelopes,
//! response classification, session state, schema reflection, search domains,
//! record sets and database administration.
//!
//! The library prepares every request and reads every answer; sending a
//! request over HTTP is left to the caller, who hands the answer back.

pub mod admin;
pub mod api;
pub mod client;
pub mod config;
pub mod domain;
pub mod error;
pub mod json;
pub mod rpc;
pub mod schema;
pub mod session;

pub use admin::{decode_dump, DBService};
pub use api::{
    db_service, login_service, logout_service, object_service, OdooApi, OdooService, Outbound,
    ODOO_JSONRPC, ODOO_LOGIN, ODOO_LOGOUT, ODOO_SERVER_VERSION,
};
pub use client::{ids_from_json, Model, OdooClient, RecordSet};
pub use config::{base_url, DEFAULT_PORT};
pub use domain::{clause, domain, Operator};
pub use error::{Error, OdooError, ServerError};
pub use json::Json;
pub use rpc::{classify_response, OdooRpc, RpcRequest, JSONRPC_20};
pub use schema::{
    methods_from_json, FieldDescriptor, FieldPick, Method, MethodKind, ObjectDescriptor,
};
pub use session::{OString, SessionInfo, UserContext, VersionInfo, VersionTuple};
