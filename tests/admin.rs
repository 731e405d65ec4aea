use roudoudou::{decode_dump, DBService, Error, Json, OdooApi, OdooClient, OdooRpc};

fn client() -> OdooClient {
    OdooClient::new(OdooApi::new(OdooRpc::new("http://localhost:8069".to_owned())).unwrap())
}

fn s(t: &str) -> Json {
    Json::Str(t.to_owned())
}

fn args(o: &roudoudou::Outbound) -> Json {
    Json::from_text(&o.request.params.get("args").unwrap().to_text()).unwrap()
}

#[test]
fn dump_decodes_each_line() {
    // "hello" and " world" in base64, one per line, the second ending in CRLF
    let data = b"aGVsbG8=\nIHdvcmxk\r\n".to_vec();
    assert_eq!(decode_dump(&data), b"hello world".to_vec());
}

#[test]
fn dump_skips_lines_that_do_not_decode() {
    let data = b"aGVsbG8=\n!!!\nIHdvcmxk".to_vec();
    assert_eq!(decode_dump(&data), b"hello world".to_vec());
    assert_eq!(decode_dump(&Vec::new()), Vec::<u8>::new());
}

#[test]
fn dump_result_reads_text() {
    let cli = client();
    let db = DBService::new(&cli);
    assert_eq!(db.dump_result(Ok(s("aGk="))), Ok(b"hi".to_vec()));
    assert!(matches!(db.dump_result(Ok(Json::Int(1))), Err(Error::Decode { .. })));
}

#[test]
fn db_requests() {
    let cli = client();
    let db = DBService::new(&cli);
    let o = db.list().unwrap();
    assert_eq!(o.url, "http://localhost:8069/jsonrpc");
    assert_eq!(o.request.params.get("service"), Some(&s("db")));
    assert_eq!(o.request.params.get("method"), Some(&s("list")));
    assert_eq!(args(&o), Json::Array(vec![]));
    let o = db.dump("master", "prod").unwrap();
    assert_eq!(args(&o), Json::Array(vec![s("master"), s("prod"), s("zip")]));
    let o = db.drop("master", "prod").unwrap();
    assert_eq!(o.request.params.get("method"), Some(&s("drop")));
    let o = db.duplicate("master", "prod", "prod2").unwrap();
    assert_eq!(args(&o), Json::Array(vec![s("master"), s("prod"), s("prod2")]));
    let o = db.create("master", "new", true, "en_US", "admin").unwrap();
    assert_eq!(
        args(&o),
        Json::Array(vec![s("master"), s("new"), Json::Bool(true), s("en_US"), s("admin")])
    );
}

#[test]
fn restore_sends_base64() {
    let cli = client();
    let db = DBService::new(&cli);
    let o = db.restore("master", "prod", &b"hello".to_vec(), false).unwrap();
    assert_eq!(o.request.params.get("method"), Some(&s("restore")));
    assert_eq!(
        args(&o),
        Json::Array(vec![s("master"), s("prod"), s("aGVsbG8="), Json::Bool(false)])
    );
}

#[test]
fn list_result_reads_names() {
    let cli = client();
    let db = DBService::new(&cli);
    let v = Json::from_text(r#"["ota8","test"]"#).unwrap();
    assert_eq!(db.list_result(Ok(v)), Ok(vec!["ota8".to_owned(), "test".to_owned()]));
}
