use roudoudou::{Error, Json, OdooApi, OdooClient, OdooRpc, Outbound};

const SESSION: &str = r#"{"company_id":1,"db":"ota8","partner_id":3,"registered_contract":false,"session_id":"abc","uid":2,"user_context":{"current_week":"2108","current_week2":"2109","lang":"en_US","tz":"Europe/Paris"},"username":"admin"}"#;

const FIELDS: &str = r#"{"name":{"change_default":false,"company_dependent":false,"depends":[],"help":null,"manual":false,"readonly":false,"required":true,"searchable":true,"sortable":true,"store":true,"string":"Name","type":"char"},"state":{"change_default":false,"company_dependent":false,"depends":[],"help":null,"manual":false,"readonly":0,"required":false,"searchable":true,"sortable":true,"store":true,"string":"State","type":"selection"}}"#;

fn connected() -> OdooClient {
    let mut cli = OdooClient::new(OdooApi::new(OdooRpc::new("http://localhost:8069".to_owned())).unwrap());
    cli.complete_login(Ok(Json::from_text(SESSION).unwrap())).unwrap();
    cli
}

fn s(t: &str) -> Json {
    Json::Str(t.to_owned())
}

fn exec_args(o: &Outbound) -> &Vec<Json> {
    match o.request.params.get("args") {
        Some(Json::Array(a)) => a,
        other => panic!("unexpected args: {:?}", other),
    }
}

fn positional(o: &Outbound) -> &Json {
    &exec_args(o)[5]
}

#[test]
fn fields_get_request_names_object() {
    let cli = connected();
    let o = cli.get_model("stock.label").unwrap();
    assert_eq!(o.url, "http://localhost:8069/jsonrpc");
    assert_eq!(o.request.params.get("service"), Some(&s("object")));
    assert_eq!(o.request.params.get("method"), Some(&s("execute")));
    assert_eq!(
        exec_args(&o),
        &vec![s("ota8"), Json::Int(2), s("admin"), s("stock.label"), s("fields_get")]
    );
}

#[test]
fn search_then_browse_one_record() {
    let cli = connected();
    let model = cli.model_from("stock.label", Ok(Json::from_text(FIELDS).unwrap())).unwrap();
    let search = model.search(Json::from_text(r#"[["name","=","A0014"]]"#).unwrap()).unwrap();
    assert_eq!(exec_args(&search)[4], s("search"));
    let (ids, read) = model.search_browse(Ok(Json::from_text("[14]").unwrap())).unwrap();
    assert_eq!(ids, vec![14]);
    assert_eq!(
        positional(&read),
        &Json::Array(vec![
            Json::Array(vec![Json::Int(14)]),
            Json::Array(vec![s("name"), s("state")]),
        ])
    );
    let rows = Json::from_text(r#"[{"id":14,"name":"A0014","state":"new"}]"#).unwrap();
    let records = model.browse_result(Ok(rows)).unwrap();
    assert_eq!(records.ids.len(), 1);
    assert_eq!(records.get("name"), Ok(Some(&s("A0014"))));
    assert_eq!(records.get("missing"), Ok(None));
}

#[test]
fn search_error_stops_browse() {
    let cli = connected();
    let model = cli.model_from("stock.label", Ok(Json::from_text(FIELDS).unwrap())).unwrap();
    let r = model.search_browse(Err(Error::Transport("down".to_owned())));
    assert_eq!(r, Err(Error::Transport("down".to_owned())));
}

#[test]
fn browse_pairs_ids_with_rows() {
    let cli = connected();
    let model = cli.model_from("stock.label", Ok(Json::from_text(FIELDS).unwrap())).unwrap();
    let rows = Json::from_text(r#"[{"id":7,"name":"B"},{"id":3,"name":"A"}]"#).unwrap();
    let records = model.browse_result(Ok(rows)).unwrap();
    assert_eq!(records.ids, vec![7, 3]);
    let bad = Json::from_text(r#"[{"name":"no id"}]"#).unwrap();
    assert!(matches!(model.browse_result(Ok(bad)), Err(Error::Decode { .. })));
}

#[test]
fn empty_record_set_attribute_fails() {
    let cli = connected();
    let model = cli.model_from("stock.label", Ok(Json::from_text(FIELDS).unwrap())).unwrap();
    let records = model.browse_result(Ok(Json::Array(vec![]))).unwrap();
    assert_eq!(records.get("name"), Err(Error::EmptyRecordSet));
}

#[test]
fn search_result_rejects_non_ids() {
    let cli = connected();
    let model = cli.model_from("stock.label", Ok(Json::from_text(FIELDS).unwrap())).unwrap();
    assert_eq!(model.search_result(Ok(Json::from_text("[1,2,3]").unwrap())), Ok(vec![1, 2, 3]));
    assert!(matches!(model.search_result(Ok(Json::from_text("[-1]").unwrap())), Err(Error::Decode { .. })));
}

#[test]
fn call_argument_shapes() {
    let cli = connected();
    let model = cli.model_from("stock.label", Ok(Json::from_text(FIELDS).unwrap())).unwrap();
    let records = model.browse_result(Ok(Json::from_text(r#"[{"id":5}]"#).unwrap())).unwrap();
    let args = || Some(s("payload"));

    let both = records.call("servicing_ota_update", args(), None).unwrap();
    assert_eq!(positional(&both), &Json::Array(vec![Json::Array(vec![Json::Int(5)]), s("payload")]));
    assert_eq!(exec_args(&both)[4], s("servicing_ota_update"));

    let ids_only = records.call("servicing_ota_query", None, None).unwrap();
    assert_eq!(positional(&ids_only), &Json::Array(vec![Json::Array(vec![Json::Int(5)])]));

    let args_only = model.call("servicing_ota_update", args(), None).unwrap();
    assert_eq!(positional(&args_only), &Json::Array(vec![s("payload")]));

    let neither = model.call("get_public_methods", None, None).unwrap();
    assert_eq!(positional(&neither), &Json::Array(vec![]));

    assert_eq!(neither, model.get_methods().unwrap());
    let ctx = exec_args(&neither)[6].get("context").unwrap();
    assert_eq!(ctx.get("lang"), Some(&s("en_US")));
    assert_eq!(ctx.get("tz"), Some(&s("Europe/Paris")));
    assert_eq!(ctx.get("uid"), Some(&Json::Int(1)));
}

#[test]
fn methods_result_passes_errors() {
    let cli = connected();
    let model = cli.model_from("stock.label", Ok(Json::from_text(FIELDS).unwrap())).unwrap();
    assert_eq!(model.methods_result(Err(Error::NotConnected)), Err(Error::NotConnected));
}
