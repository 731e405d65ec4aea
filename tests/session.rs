use roudoudou::{Error, Json, OString, OdooApi, OdooClient, OdooRpc, SessionInfo, VersionInfo};

const SESSION: &str = r#"{"company_id":1,"db":"ota8","partner_id":3,"registered_contract":false,"session_id":"abc","uid":2,"user_context":{"current_week":"2108","current_week2":"2109","lang":"en_US","tz":"Europe/Paris"},"username":"admin"}"#;

fn client() -> OdooClient {
    OdooClient::new(OdooApi::new(OdooRpc::new("http://localhost:8069".to_owned())).unwrap())
}

fn connected() -> OdooClient {
    let mut cli = client();
    cli.complete_login(Ok(Json::from_text(SESSION).unwrap())).unwrap();
    cli
}

#[test]
fn api_endpoints_are_joined() {
    let api = OdooApi::new(OdooRpc::new("http://localhost:8069".to_owned())).unwrap();
    assert_eq!(api.version_url, "http://localhost:8069/web/webclient/version_info");
    assert_eq!(api.login_url, "http://localhost:8069/web/session/authenticate");
    assert_eq!(api.logout_url, "http://localhost:8069/web/session/destroy");
}

#[test]
fn api_rejects_relative_base() {
    let r = OdooApi::new(OdooRpc::new("not a url".to_owned()));
    assert!(matches!(r, Err(Error::InvalidUrl(_))));
}

#[test]
fn login_request_carries_credentials() {
    let o = client().login("ota8", "admin", "secret").unwrap();
    assert_eq!(o.url, "http://localhost:8069/web/session/authenticate");
    assert_eq!(o.request.method, "call");
    assert_eq!(o.request.params.get("db"), Some(&Json::Str("ota8".to_owned())));
    assert_eq!(o.request.params.get("login"), Some(&Json::Str("admin".to_owned())));
    assert_eq!(o.request.params.get("password"), Some(&Json::Str("secret".to_owned())));
}

#[test]
fn login_connects_with_session() {
    let cli = connected();
    assert!(cli.is_connected());
    let s: &SessionInfo = cli.session().unwrap();
    assert_eq!(s.uid, 2);
    assert_eq!(s.db, "ota8");
    assert_eq!(s.username, "admin");
    assert_eq!(s.registered_contract, OString::Absent(false));
    assert_eq!(s.user_context.lang, OString::Filled("en_US".to_owned()));
}

#[test]
fn login_when_connected_is_client_state_error() {
    let cli = connected();
    assert_eq!(cli.login("ota8", "admin", "admin"), Err(Error::ClientState("already connected".to_owned())));
    assert_eq!(cli.login("", "", ""), Err(Error::ClientState("already connected".to_owned())));
    let mut cli = connected();
    let again = cli.complete_login(Ok(Json::from_text(SESSION).unwrap()));
    assert!(matches!(again, Err(Error::ClientState(_))));
}

#[test]
fn failed_login_stays_disconnected() {
    let mut cli = client();
    let r = cli.complete_login(Err(Error::Transport("refused".to_owned())));
    assert_eq!(r, Err(Error::Transport("refused".to_owned())));
    assert!(!cli.is_connected());
    let r = cli.complete_login(Ok(Json::Bool(false)));
    assert!(matches!(r, Err(Error::Decode { .. })));
    assert!(!cli.is_connected());
}

#[test]
fn operations_before_login_are_not_connected() {
    let cli = client();
    assert_eq!(cli.get_model("stock.label"), Err(Error::NotConnected));
    assert!(matches!(cli.model_from("stock.label", Ok(Json::Object(vec![]))), Err(Error::NotConnected)));
}

#[test]
fn logout_disconnects_whatever_the_answer() {
    let mut cli = connected();
    let o = cli.logout().unwrap();
    assert_eq!(o.url, "http://localhost:8069/web/session/destroy");
    let r = cli.complete_logout(Err(Error::Transport("reset".to_owned())));
    assert_eq!(r, Err(Error::Transport("reset".to_owned())));
    assert!(!cli.is_connected());
}

#[test]
fn logout_when_disconnected_is_client_state_error() {
    let mut cli = client();
    assert_eq!(cli.logout(), Err(Error::ClientState("not connected".to_owned())));
    assert!(matches!(cli.complete_logout(Ok(Json::Null)), Err(Error::ClientState(_))));
}

#[test]
fn version_info_decodes() {
    let v = Json::from_text(
        r#"{"server_version_info":[9,0,0,"final",0,"c"],"server_serie":"9.0","server_version":"9.0c","protocol_version":1}"#,
    )
    .unwrap();
    let info = VersionInfo::from_json(v).unwrap();
    assert_eq!(info.protocol_version, 1);
    assert_eq!(info.server_serial, OString::Filled("9.0".to_owned()));
    assert_eq!(info.server_version, OString::Filled("9.0c".to_owned()));
    assert_eq!(
        info.server_version_info,
        Some((9, 0, 0, "final".to_owned(), 0, "c".to_owned()))
    );
}

#[test]
fn version_request_goes_to_version_endpoint() {
    let o = client().api().version_info();
    assert_eq!(o.url, "http://localhost:8069/web/webclient/version_info");
    assert_eq!(o.request.params, Json::Object(vec![]));
}
