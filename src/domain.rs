use vstd::prelude::*;
use crate::json::Json;

verus! {

/// The comparison of a search clause.
#[derive(Debug, Clone, Copy, PartialEq, Eq, Structural)]
pub enum Operator {
    Eq,
    Ne,
    Lt,
    Le,
    Gt,
    Ge,
}

/// The symbol the server reads for each comparison.
pub open spec fn symbol_of(op: Operator) -> Seq<char> {
    match op {
        Operator::Eq => "="@,
        Operator::Ne => "!="@,
        Operator::Lt => "<"@,
        Operator::Le => "<="@,
        Operator::Gt => ">"@,
        Operator::Ge => ">="@,
    }
}

/// `j` is the string `t`.
pub open spec fn is_text(j: Json, t: Seq<char>) -> bool {
    j matches Json::Str(s) && s@ == t
}

impl Operator {
    /// The symbol of this comparison.
    pub fn symbol(self) -> (r: &'static str)
        ensures
            r@ == symbol_of(self),
    {
        match self {
            Operator::Eq => "=",
            Operator::Ne => "!=",
            Operator::Lt => "<",
            Operator::Le => "<=",
            Operator::Gt => ">",
            Operator::Ge => ">=",
        }
    }
}

/// The search clause `(field, symbol, literal)`.
pub fn clause(field: &str, op: Operator, literal: Json) -> (r: Json)
    ensures
        r matches Json::Array(a) && a@.len() == 3 && is_text(a@[0], field@) && is_text(a@[1], symbol_of(op))
            && a@[2] == literal,
{
    let mut a: Vec<Json> = Vec::new();
    a.push(Json::Str(field.to_owned()));
    a.push(Json::Str(op.symbol().to_owned()));
    a.push(literal);
    Json::Array(a)
}

/// The search domain that holds all of `clauses`, in order; the server reads
/// it as their conjunction, and an empty domain as no filter.
pub fn domain(clauses: Vec<Json>) -> (r: Json)
    ensures
        r matches Json::Array(a) && a@ == clauses@,
{
    Json::Array(clauses)
}

} // verus!
