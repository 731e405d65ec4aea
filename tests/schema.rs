use roudoudou::{methods_from_json, Error, FieldDescriptor, Json, Method, MethodKind, ObjectDescriptor};

fn meta(readonly: &str) -> Json {
    let text = format!(
        r#"{{"change_default":false,"company_dependent":false,"depends":["a","b"],"help":"Help text","manual":false,"readonly":{},"required":true,"searchable":true,"sortable":false,"store":true,"string":"Name","type":"char"}}"#,
        readonly
    );
    Json::from_text(&text).unwrap()
}

#[test]
fn strict_field_decodes() {
    let d = FieldDescriptor::from_json(meta("true")).unwrap();
    assert!(d.readonly);
    assert!(d.required);
    assert!(d.searchable);
    assert!(!d.sortable);
    assert_eq!(d.depends, vec!["a".to_owned(), "b".to_owned()]);
    assert_eq!(d.help, Json::Str("Help text".to_owned()));
    assert_eq!(d.string, "Name");
    assert_eq!(d.type_, "char");
}

#[test]
fn strict_field_rejects_numeric_readonly() {
    let m = meta("0");
    let back = FieldDescriptor::from_json(m).unwrap_err();
    assert_eq!(back, meta("0"));
}

#[test]
fn lenient_zero_readonly_is_false() {
    let d = FieldDescriptor::from_json_lenient(meta("0")).unwrap();
    assert!(!d.readonly);
    assert_eq!(d.string, "Name");
    assert_eq!(d.depends.len(), 2);
}

#[test]
fn lenient_nonzero_readonly_is_true() {
    assert!(FieldDescriptor::from_json_lenient(meta("1")).unwrap().readonly);
    assert!(FieldDescriptor::from_json_lenient(meta("-7")).unwrap().readonly);
    assert!(FieldDescriptor::from_json_lenient(meta("0.5")).unwrap().readonly);
}

#[test]
fn lenient_skips_other_failures() {
    assert_eq!(FieldDescriptor::from_json_lenient(meta(r#""yes""#)), None);
    let missing = Json::from_text(r#"{"readonly":0,"type":"char"}"#).unwrap();
    assert_eq!(FieldDescriptor::from_json_lenient(missing), None);
}

#[test]
fn missing_help_is_skipped() {
    let text = r#"{"change_default":false,"company_dependent":false,"depends":[],"manual":false,"readonly":false,"required":false,"searchable":false,"sortable":false,"store":false,"string":"X","type":"many2one"}"#;
    assert!(FieldDescriptor::from_json(Json::from_text(text).unwrap()).is_err());
    assert_eq!(FieldDescriptor::from_json_lenient(Json::from_text(text).unwrap()), None);
}

#[test]
fn null_help_is_kept() {
    let text = r#"{"change_default":false,"company_dependent":false,"depends":[],"help":null,"manual":false,"readonly":false,"required":false,"searchable":false,"sortable":false,"store":false,"string":"X","type":"many2one"}"#;
    let d = FieldDescriptor::from_json(Json::from_text(text).unwrap()).unwrap();
    assert_eq!(d.help, Json::Null);
}

#[test]
fn repeated_name_is_read_from_first_member() {
    let first = meta("0");
    let second = meta("true");
    let bad = Json::Int(0);
    let v = Json::Object(vec![
        ("a".to_owned(), bad),
        ("b".to_owned(), first),
        ("a".to_owned(), second),
    ]);
    let d = ObjectDescriptor::from_fields("x", v).unwrap();
    let names: Vec<&str> = d.fields.iter().map(|(n, _)| n.as_str()).collect();
    assert_eq!(names, vec!["b"]);
    assert!(!d.fields[0].1.readonly);
}

fn fields_answer() -> Json {
    let good = r#"{"change_default":false,"company_dependent":false,"depends":[],"help":null,"manual":false,"readonly":false,"required":true,"searchable":true,"sortable":true,"store":true,"string":"Name","type":"char"}"#;
    let rel = r#"{"change_default":false,"company_dependent":false,"depends":[],"help":null,"manual":false,"readonly":1,"required":false,"searchable":false,"sortable":true,"store":true,"string":"Partner","type":"many2one"}"#;
    let text = format!(r#"{{"broken":{{"type":"char"}},"name":{},"partner_id":{}}}"#, good, rel);
    Json::from_text(&text).unwrap()
}

#[test]
fn descriptor_keeps_decodable_fields() {
    let d = ObjectDescriptor::from_fields("res.partner", fields_answer()).unwrap();
    assert_eq!(d.name, "res.partner");
    let names: Vec<&str> = d.fields.iter().map(|(n, _)| n.as_str()).collect();
    assert_eq!(names, vec!["name", "partner_id"]);
    assert!(d.fields[1].1.readonly);
}

#[test]
fn descriptor_of_non_map_is_decode_error() {
    match ObjectDescriptor::from_fields("x", Json::Int(3)) {
        Err(Error::Decode { raw, .. }) => assert_eq!(raw, Json::Int(3)),
        other => panic!("unexpected: {:?}", other),
    }
}

#[test]
fn descriptor_listings() {
    let d = ObjectDescriptor::from_fields("res.partner", fields_answer()).unwrap();
    let names = |v: Vec<(&String, &FieldDescriptor)>| v.iter().map(|(n, _)| n.to_string()).collect::<Vec<_>>();
    assert_eq!(names(d.get_searchable_fields()), vec!["name"]);
    assert_eq!(names(d.get_required_fields()), vec!["name"]);
    assert_eq!(names(d.get_relational_fields()), vec!["partner_id"]);
    assert_eq!(names(d.get_scalar_fields()), vec!["name"]);
}

fn meth(name: &str, kind: MethodKind) -> Method {
    Method { name: name.to_owned(), kind }
}

#[test]
fn methods_keep_server_order_stock_label() {
    let v = Json::from_text(
        r#"[{"name":"batch_compute_traceability","kind":"multi"},{"name":"create","kind":"model"},{"name":"close","kind":"one"},{"name":"build_traceability","kind":"multi"}]"#,
    )
    .unwrap();
    assert_eq!(
        methods_from_json(v).unwrap(),
        vec![
            meth("batch_compute_traceability", MethodKind::Multi),
            meth("create", MethodKind::Model),
            meth("close", MethodKind::One),
            meth("build_traceability", MethodKind::Multi),
        ]
    );
}

#[test]
fn methods_keep_server_order_res_users() {
    let v = Json::from_text(
        r#"[{"name":"toggle_active","kind":"multi"},{"name":"check_can_login","kind":"Model"},{"name":"search","kind":"model"}]"#,
    )
    .unwrap();
    assert_eq!(
        methods_from_json(v).unwrap(),
        vec![
            meth("toggle_active", MethodKind::Multi),
            meth("check_can_login", MethodKind::Model),
            meth("search", MethodKind::Model),
        ]
    );
}

#[test]
fn methods_with_unknown_kind_fail() {
    let v = Json::from_text(r#"[{"name":"a","kind":"multi"},{"name":"b","kind":"static"}]"#).unwrap();
    assert!(matches!(methods_from_json(v), Err(Error::Decode { .. })));
}
