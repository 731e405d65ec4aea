use roudoudou::{clause, domain, Json, Operator};

fn s(t: &str) -> Json {
    Json::Str(t.to_owned())
}

fn triple(field: &str, op: &str, lit: Json) -> Json {
    Json::Array(vec![s(field), s(op), lit])
}

#[test]
fn test_macros() {
    assert_eq!(domain(vec![]), Json::Array(vec![]));
    assert_eq!(
        domain(vec![clause("foo", Operator::Eq, Json::Bool(true))]),
        Json::Array(vec![triple("foo", "=", Json::Bool(true))])
    );
    assert_eq!(
        domain(vec![clause("foo", Operator::Ne, Json::Int(1))]),
        Json::Array(vec![triple("foo", "!=", Json::Int(1))])
    );
    assert_eq!(
        domain(vec![clause("foo", Operator::Le, s("hello"))]),
        Json::Array(vec![triple("foo", "<=", s("hello"))])
    );
    assert_eq!(
        domain(vec![clause("foo", Operator::Ge, Json::Num("3.5".to_owned()))]).to_text(),
        r#"[["foo",">=",3.5]]"#
    );
    assert_eq!(
        domain(vec![clause("foo", Operator::Lt, Json::Bool(true))]),
        Json::Array(vec![triple("foo", "<", Json::Bool(true))])
    );
    assert_eq!(
        domain(vec![clause("foo", Operator::Gt, Json::Bool(true))]),
        Json::Array(vec![triple("foo", ">", Json::Bool(true))])
    );
    let a = domain(vec![
        clause("foo", Operator::Eq, Json::Int(1)),
        clause("bar", Operator::Eq, Json::Int(2)),
    ]);
    assert_eq!(a.to_text(), r#"[["foo","=",1],["bar","=",2]]"#);
    assert_eq!(
        domain(vec![
            clause("foo", Operator::Lt, Json::Bool(true)),
            clause("bar", Operator::Ne, s("zorgl")),
        ]),
        Json::Array(vec![
            triple("foo", "<", Json::Bool(true)),
            triple("bar", "!=", s("zorgl")),
        ])
    );
}

#[test]
fn empty_domain_is_empty_list() {
    assert_eq!(domain(vec![]).to_text(), "[]");
}

#[test]
fn each_operator_has_its_symbol() {
    let cases = [
        (Operator::Eq, "="),
        (Operator::Ne, "!="),
        (Operator::Lt, "<"),
        (Operator::Le, "<="),
        (Operator::Gt, ">"),
        (Operator::Ge, ">="),
    ];
    for (op, sym) in cases {
        assert_eq!(op.symbol(), sym);
        assert_eq!(
            domain(vec![clause("foo", op, Json::Bool(true))]),
            Json::Array(vec![triple("foo", sym, Json::Bool(true))])
        );
    }
}

#[test]
fn clause_prints_as_triple() {
    assert_eq!(
        clause("name", Operator::Eq, s("A0014")).to_text(),
        r#"["name","=","A0014"]"#
    );
}
