use vstd::prelude::*;
use crate::error::Error;
use crate::json::{
    Json, lookup, member, bool_of, str_of, strs_of, string_views, same_but, replace_member,
};

verus! {

/// Metadata of one attribute of a remote object.
#[derive(Debug, PartialEq)]
pub struct FieldDescriptor {
    pub change_default: bool,
    pub company_dependent: bool,
    pub depends: Vec<String>,
    pub help: Json,
    pub manual: bool,
    pub readonly: bool,
    pub required: bool,
    pub searchable: bool,
    pub sortable: bool,
    pub store: bool,
    pub string: String,
    pub type_: String,
}

/// Every member of field metadata but `readonly` has its expected type.
pub open spec fn field_rest_shape(o: Json) -> bool {
    &&& bool_of(lookup(o, "change_default"@)) is Some
    &&& bool_of(lookup(o, "company_dependent"@)) is Some
    &&& strs_of(lookup(o, "depends"@)) is Some
    &&& bool_of(lookup(o, "manual"@)) is Some
    &&& bool_of(lookup(o, "required"@)) is Some
    &&& bool_of(lookup(o, "searchable"@)) is Some
    &&& bool_of(lookup(o, "sortable"@)) is Some
    &&& bool_of(lookup(o, "store"@)) is Some
    &&& str_of(lookup(o, "string"@)) is Some
    &&& str_of(lookup(o, "type"@)) is Some
    &&& lookup(o, "help"@) is Some
}

/// Field metadata that decodes as it stands.
pub open spec fn field_shape(o: Json) -> bool {
    field_rest_shape(o) && bool_of(lookup(o, "readonly"@)) is Some
}

/// The help text member, of any type; it must be present.
pub open spec fn help_of(o: Json) -> Option<Json> {
    lookup(o, "help"@)
}

/// `d` holds what `o` says, with `readonly` as given.
pub open spec fn field_from(o: Json, d: FieldDescriptor, readonly: bool) -> bool {
    &&& bool_of(lookup(o, "change_default"@)) == Some(d.change_default)
    &&& bool_of(lookup(o, "company_dependent"@)) == Some(d.company_dependent)
    &&& strs_of(lookup(o, "depends"@)) == Some(string_views(d.depends@))
    &&& help_of(o) == Some(d.help)
    &&& bool_of(lookup(o, "manual"@)) == Some(d.manual)
    &&& d.readonly == readonly
    &&& bool_of(lookup(o, "required"@)) == Some(d.required)
    &&& bool_of(lookup(o, "searchable"@)) == Some(d.searchable)
    &&& bool_of(lookup(o, "sortable"@)) == Some(d.sortable)
    &&& bool_of(lookup(o, "store"@)) == Some(d.store)
    &&& str_of(lookup(o, "string"@)) == Some(d.string@)
    &&& str_of(lookup(o, "type"@)) == Some(d.type_@)
}

/// The flag that a numeric `readonly` stands for: zero is false, any other number true.
pub open spec fn numeric_flag(v: Option<Json>) -> Option<bool> {
    match v {
        Some(Json::Int(n)) => Some(n != 0),
        Some(Json::Num(_)) => Some(true),
        _ => None,
    }
}

/// The `readonly` flag that lenient decoding gives to field metadata, or `None`
/// where the field is skipped.
pub open spec fn lenient_readonly(o: Json) -> Option<bool> {
    if !field_rest_shape(o) {
        None
    } else {
        match bool_of(lookup(o, "readonly"@)) {
            Some(b) => Some(b),
            None => numeric_flag(lookup(o, "readonly"@)),
        }
    }
}

proof fn lemma_rest_shape_kept(a: Json, b: Json)
    requires
        same_but(a, b, "readonly"@),
    ensures
        field_rest_shape(a) == field_rest_shape(b),
        help_of(a) == help_of(b),
        forall|d: FieldDescriptor, ro: bool| field_from(a, d, ro) == field_from(b, d, ro),
{
    reveal_strlit("readonly");
    reveal_strlit("change_default");
    reveal_strlit("company_dependent");
    reveal_strlit("depends");
    reveal_strlit("help");
    reveal_strlit("manual");
    reveal_strlit("required");
    reveal_strlit("searchable");
    reveal_strlit("sortable");
    reveal_strlit("store");
    reveal_strlit("string");
    reveal_strlit("type");
    assert("change_default"@.len() != "readonly"@.len());
    assert(lookup(a, "change_default"@) == lookup(b, "change_default"@));
    assert("company_dependent"@.len() != "readonly"@.len());
    assert(lookup(a, "company_dependent"@) == lookup(b, "company_dependent"@));
    assert(lookup(a, "depends"@) == lookup(b, "depends"@));
    assert(lookup(a, "help"@) == lookup(b, "help"@));
    assert(lookup(a, "manual"@) == lookup(b, "manual"@));
    assert("required"@[2] != "readonly"@[2]);
    assert(lookup(a, "required"@) == lookup(b, "required"@));
    assert(lookup(a, "searchable"@) == lookup(b, "searchable"@));
    assert("sortable"@[0] != "readonly"@[0]);
    assert(lookup(a, "sortable"@) == lookup(b, "sortable"@));
    assert(lookup(a, "store"@) == lookup(b, "store"@));
    assert(lookup(a, "string"@) == lookup(b, "string"@));
    assert(lookup(a, "type"@) == lookup(b, "type"@));
}

impl FieldDescriptor {
    /// Decodes field metadata as it stands; where it does not decode, the
    /// value is handed back unchanged.
    pub fn from_json(o: Json) -> (r: Result<FieldDescriptor, Json>)
        ensures
            r is Ok <==> field_shape(o),
            r matches Ok(d) ==> field_from(o, d, d.readonly) && bool_of(lookup(o, "readonly"@)) == Some(d.readonly),
            r matches Err(back) ==> back == o,
    {
        let change_default = match o.get_bool("change_default") { Some(b) => b, None => return Err(o) };
        let company_dependent = match o.get_bool("company_dependent") { Some(b) => b, None => return Err(o) };
        let depends = match o.get_strs("depends") { Some(v) => v, None => return Err(o) };
        let manual = match o.get_bool("manual") { Some(b) => b, None => return Err(o) };
        let readonly = match o.get_bool("readonly") { Some(b) => b, None => return Err(o) };
        let required = match o.get_bool("required") { Some(b) => b, None => return Err(o) };
        let searchable = match o.get_bool("searchable") { Some(b) => b, None => return Err(o) };
        let sortable = match o.get_bool("sortable") { Some(b) => b, None => return Err(o) };
        let store = match o.get_bool("store") { Some(b) => b, None => return Err(o) };
        let string = match o.get_str("string") { Some(t) => t, None => return Err(o) };
        let type_ = match o.get_str("type") { Some(t) => t, None => return Err(o) };
        if o.get("help").is_none() {
            return Err(o);
        }
        let help = match o.into_member("help") {
            Some(h) => h,
            None => {
                assert(false);
                Json::Null
            },
        };
        Ok(FieldDescriptor {
            change_default,
            company_dependent,
            depends,
            help,
            manual,
            readonly,
            required,
            searchable,
            sortable,
            store,
            string,
            type_,
        })
    }

    /// Decodes field metadata, tolerating a `readonly` flag written as a number:
    /// zero becomes false and any other number true. Metadata that still does
    /// not decode gives `None`.
    pub fn from_json_lenient(o: Json) -> (r: Option<FieldDescriptor>)
        ensures
            r is Some <==> lenient_readonly(o) is Some,
            r matches Some(d) ==> lenient_readonly(o) == Some(d.readonly) && field_from(o, d, d.readonly),
            field_rest_shape(o) ==> (lookup(o, "readonly"@) matches Some(Json::Int(n)) ==> (r matches Some(d)
                && d.readonly == (n != 0))),
    {
        match FieldDescriptor::from_json(o) {
            Ok(d) => Some(d),
            Err(o) => {
                let flag = match o.get("readonly") {
                    Some(Json::Int(n)) => *n != 0,
                    Some(Json::Num(_)) => true,
                    _ => return None,
                };
                let ghost o0 = o;
                let changed = replace_member(o, "readonly", Json::Bool(flag));
                proof {
                    lemma_rest_shape_kept(changed, o0);
                }
                match FieldDescriptor::from_json(changed) {
                    Ok(d) => Some(d),
                    Err(_) => None,
                }
            },
        }
    }
}

/// Metadata of a remote object: its name and the fields that decoded, in
/// the order the server listed them.
#[derive(Debug, PartialEq)]
pub struct ObjectDescriptor {
    pub name: String,
    pub fields: Vec<(String, FieldDescriptor)>,
}

/// No member before position `i` has the name of member `i`.
pub open spec fn first_named(m: Seq<(String, Json)>, i: int) -> bool {
    forall|j: int| 0 <= j < i ==> m[j].0@ != m[i].0@
}

/// Positions, among the first `n` members, of the fields that are kept: the
/// first member of each name, where lenient decoding accepts it.
pub open spec fn kept(m: Seq<(String, Json)>, n: nat) -> Seq<int>
    decreases n,
{
    if n == 0 || n > m.len() {
        Seq::empty()
    } else {
        let p = kept(m, (n - 1) as nat);
        if lenient_readonly(m[n - 1].1) is Some && first_named(m, n - 1) {
            p.push(n - 1)
        } else {
            p
        }
    }
}

/// `fields` holds, in order, the decoded fields among the first `n` members of `m`.
pub open spec fn fields_from(m: Seq<(String, Json)>, n: nat, fields: Seq<(String, FieldDescriptor)>) -> bool {
    let k = kept(m, n);
    &&& fields.len() == k.len()
    &&& forall|j: int|
        0 <= j < k.len() ==> {
            &&& (#[trigger] fields[j]).0@ == m[k[j]].0@
            &&& lenient_readonly(m[k[j]].1) == Some(fields[j].1.readonly)
            &&& field_from(m[k[j]].1, fields[j].1, fields[j].1.readonly)
        }
}

/// Which fields a listing of a descriptor picks.
pub enum FieldPick {
    Searchable,
    Required,
    Relational,
    Scalar,
}

/// The field's type is a relation to other records.
pub open spec fn is_relational(d: FieldDescriptor) -> bool {
    d.type_@ == "one2many"@ || d.type_@ == "many2one"@ || d.type_@ == "many2many"@
}

/// `p` picks the field `d`.
pub open spec fn picks(p: FieldPick, d: FieldDescriptor) -> bool {
    match p {
        FieldPick::Searchable => d.searchable,
        FieldPick::Required => d.required,
        FieldPick::Relational => is_relational(d),
        FieldPick::Scalar => !is_relational(d),
    }
}

/// Positions, among the first `n` fields, of those that `p` picks.
pub open spec fn picked(f: Seq<(String, FieldDescriptor)>, p: FieldPick, n: nat) -> Seq<int>
    decreases n,
{
    if n == 0 || n > f.len() {
        Seq::empty()
    } else {
        let q = picked(f, p, (n - 1) as nat);
        if picks(p, f[n - 1].1) {
            q.push(n - 1)
        } else {
            q
        }
    }
}

/// `r` lists, in order, the fields among the first `n` of `f` that `p` picks.
pub open spec fn listing(f: Seq<(String, FieldDescriptor)>, p: FieldPick, n: nat, r: Seq<(&String, &FieldDescriptor)>) -> bool {
    let k = picked(f, p, n);
    &&& r.len() == k.len()
    &&& forall|j: int| 0 <= j < k.len() ==> *(#[trigger] r[j]).0 == f[k[j]].0 && *r[j].1 == f[k[j]].1
}

proof fn lemma_kept_bounded(m: Seq<(String, Json)>, n: nat)
    requires
        n <= m.len(),
    ensures
        forall|j: int| 0 <= j < kept(m, n).len() ==> 0 <= #[trigger] kept(m, n)[j] < n,
    decreases n,
{
    if n > 0 {
        lemma_kept_bounded(m, (n - 1) as nat);
        let q = kept(m, (n - 1) as nat);
        assert forall|j: int| 0 <= j < kept(m, n).len() implies 0 <= #[trigger] kept(m, n)[j] < n by {
            if j < q.len() {
                assert(kept(m, n)[j] == q[j]);
            }
        }
    }
}

proof fn lemma_picked_bounded(f: Seq<(String, FieldDescriptor)>, p: FieldPick, n: nat)
    requires
        n <= f.len(),
    ensures
        forall|j: int| 0 <= j < picked(f, p, n).len() ==> 0 <= #[trigger] picked(f, p, n)[j] < n,
    decreases n,
{
    if n > 0 {
        lemma_picked_bounded(f, p, (n - 1) as nat);
        let q = picked(f, p, (n - 1) as nat);
        assert forall|j: int| 0 <= j < picked(f, p, n).len() implies 0 <= #[trigger] picked(f, p, n)[j] < n by {
            if j < q.len() {
                assert(picked(f, p, n)[j] == q[j]);
            }
        }
    }
}

fn is_relational_type(t: &String) -> (r: bool)
    ensures
        r == (t@ == "one2many"@ || t@ == "many2one"@ || t@ == "many2many"@),
{
    *t == "one2many".to_owned() || *t == "many2one".to_owned() || *t == "many2many".to_owned()
}

proof fn lemma_member_index(m: Seq<(String, Json)>, key: Seq<char>)
    requires
        member(m, key) is Some,
    ensures
        exists|i: int|
            0 <= i < m.len() && (#[trigger] m[i]).0@ == key && m[i].1 == member(m, key)->0
                && forall|j: int| 0 <= j < i ==> m[j].0@ != key,
    decreases m.len(),
{
    if m[0].0@ != key {
        lemma_member_index(m.drop_first(), key);
        let i = choose|i: int|
            0 <= i < m.drop_first().len() && (#[trigger] m.drop_first()[i]).0@ == key
                && m.drop_first()[i].1 == member(m.drop_first(), key)->0
                && forall|j: int| 0 <= j < i ==> m.drop_first()[j].0@ != key;
        assert(m[i + 1] == m.drop_first()[i]);
        assert forall|j: int| 0 <= j < i + 1 implies m[j].0@ != key by {
            if j > 0 {
                assert(m[j] == m.drop_first()[j - 1]);
            }
        }
    } else {
        assert(m[0].0@ == key);
    }
}

proof fn lemma_kept_contains(m: Seq<(String, Json)>, n: nat, i: int)
    requires
        0 <= i < n <= m.len(),
        lenient_readonly(m[i].1) is Some,
        first_named(m, i),
    ensures
        exists|k: int| 0 <= k < kept(m, n).len() && #[trigger] kept(m, n)[k] == i,
    decreases n,
{
    let p = kept(m, (n - 1) as nat);
    if i == n - 1 {
        assert(kept(m, n)[p.len() as int] == i);
    } else {
        lemma_kept_contains(m, (n - 1) as nat, i);
        let k = choose|k: int| 0 <= k < p.len() && #[trigger] p[k] == i;
        assert(kept(m, n)[k] == p[k]);
    }
}

/// Metadata whose only defect is a `readonly` flag written as an integer
/// still gives its field in a descriptor, complete, with `readonly` false for
/// zero and true for any other number.
pub proof fn law_numeric_readonly_kept(
    m: Seq<(String, Json)>,
    fields: Seq<(String, FieldDescriptor)>,
    name: Seq<char>,
    n: i64,
)
    requires
        fields_from(m, m.len() as nat, fields),
        member(m, name) matches Some(o) && field_rest_shape(o) && lookup(o, "readonly"@) == Some(Json::Int(n)),
    ensures
        exists|k: int|
            0 <= k < fields.len() && (#[trigger] fields[k]).0@ == name && fields[k].1.readonly == (n != 0)
                && field_from(member(m, name)->0, fields[k].1, n != 0),
{
    lemma_member_index(m, name);
    let i = choose|i: int|
        0 <= i < m.len() && (#[trigger] m[i]).0@ == name && m[i].1 == member(m, name)->0
            && forall|j: int| 0 <= j < i ==> m[j].0@ != name;
    assert(lenient_readonly(m[i].1) == Some(n != 0));
    lemma_kept_contains(m, m.len() as nat, i);
    let k = choose|k: int| 0 <= k < kept(m, m.len() as nat).len() && #[trigger] kept(m, m.len() as nat)[k] == i;
    assert(fields[k].0@ == name);
}

/// `seen` holds the names of the first members of `m`, in order.
spec fn names_seen(seen: Seq<String>, m: Seq<(String, Json)>) -> bool {
    &&& seen.len() <= m.len()
    &&& forall|j: int| 0 <= j < seen.len() ==> (#[trigger] seen[j])@ == m[j].0@
}

fn contains_name(seen: &Vec<String>, name: &String) -> (r: bool)
    ensures
        r == exists|j: int| 0 <= j < seen@.len() && (#[trigger] seen@[j])@ == name@,
{
    let mut i: usize = 0;
    while i < seen.len()
        invariant
            0 <= i <= seen@.len(),
            forall|j: int| 0 <= j < i ==> (#[trigger] seen@[j])@ != name@,
        decreases seen.len() - i,
    {
        if seen[i] == *name {
            return true;
        }
        i = i + 1;
    }
    false
}

impl ObjectDescriptor {
    /// Every field name occurs once.
    pub open spec fn wf(&self) -> bool {
        forall|j: int, k: int|
            0 <= j < k < self.fields@.len() ==> (#[trigger] self.fields@[j]).0@ != (#[trigger] self.fields@[k]).0@
    }

    /// Builds the descriptor of `object` from the name-to-metadata map the
    /// server returned. Each field is decoded on its own and skipped where it
    /// does not decode; a name given twice is read from its first member, as
    /// lookups read it. A value that is not a map is a decode error.
    pub fn from_fields(object: &str, values: Json) -> (r: Result<ObjectDescriptor, Error>)
        ensures
            match values {
                Json::Object(m) => r matches Ok(d) && d.name@ == object@ && fields_from(m@, m@.len() as nat, d.fields@)
                    && d.wf(),
                _ => r matches Err(Error::Decode { raw, target }) && raw == values,
            },
    {
        match values {
            Json::Object(mut entries) => {
                let ghost m0 = entries@;
                let mut fields: Vec<(String, FieldDescriptor)> = Vec::new();
                let mut seen: Vec<String> = Vec::new();
                let ghost mut i: nat = 0;
                assert(entries@ =~= m0.subrange(0, m0.len() as int));
                while entries.len() > 0
                    invariant
                        i <= m0.len(),
                        entries@ =~= m0.subrange(i as int, m0.len() as int),
                        fields_from(m0, i, fields@),
                        seen@.len() == i,
                        names_seen(seen@, m0),
                        forall|j: int, k: int|
                            0 <= j < k < fields@.len() ==> (#[trigger] fields@[j]).0@ != (#[trigger] fields@[k]).0@,
                    decreases entries.len(),
                {
                    let (name, meta) = entries.remove(0);
                    proof {
                        assert(m0[i as int] == (name, meta));
                        lemma_kept_bounded(m0, i);
                    }
                    let ghost before = fields@;
                    let repeated = contains_name(&seen, &name);
                    proof {
                        if !repeated {
                            assert forall|j: int| 0 <= j < i implies m0[j].0@ != m0[i as int].0@ by {
                                assert(seen@[j]@ == m0[j].0@);
                            }
                        } else {
                            let j = choose|j: int| 0 <= j < seen@.len() && (#[trigger] seen@[j])@ == name@;
                            assert(m0[j].0@ == m0[i as int].0@);
                        }
                    }
                    seen.push(name.clone());
                    if !repeated {
                        match FieldDescriptor::from_json_lenient(meta) {
                            Some(d) => {
                                proof {
                                    let k = kept(m0, i);
                                    assert forall|j: int| 0 <= j < fields@.len() implies fields@[j].0@ != name@ by {
                                        assert(0 <= k[j] < i);
                                    }
                                }
                                fields.push((name, d));
                            },
                            None => {},
                        }
                    }
                    proof {
                        let k = kept(m0, i);
                        assert(kept(m0, (i + 1) as nat) == if lenient_readonly(m0[i as int].1) is Some && first_named(m0, i as int) {
                            k.push(i as int)
                        } else {
                            k
                        });
                        assert forall|j: int| 0 <= j < k.len() implies fields@[j] == before[j] by {}
                        i = i + 1;
                    }
                }
                Ok(ObjectDescriptor { name: object.to_owned(), fields })
            },
            _ => Err(Error::Decode { raw: values, target: "Map<String, FieldDescriptor>".to_owned() }),
        }
    }

    /// The fields that `p` picks, in order.
    pub fn pick_fields(&self, p: FieldPick) -> (r: Vec<(&String, &FieldDescriptor)>)
        ensures
            listing(self.fields@, p, self.fields@.len() as nat, r@),
    {
        let mut r: Vec<(&String, &FieldDescriptor)> = Vec::new();
        let mut i: usize = 0;
        while i < self.fields.len()
            invariant
                0 <= i <= self.fields@.len(),
                listing(self.fields@, p, i as nat, r@),
            decreases self.fields.len() - i,
        {
            let entry = &self.fields[i];
            let take = match p {
                FieldPick::Searchable => entry.1.searchable,
                FieldPick::Required => entry.1.required,
                FieldPick::Relational => is_relational_type(&entry.1.type_),
                FieldPick::Scalar => !is_relational_type(&entry.1.type_),
            };
            let ghost before = r@;
            proof {
                lemma_picked_bounded(self.fields@, p, i as nat);
            }
            if take {
                r.push((&entry.0, &entry.1));
            }
            proof {
                let k = picked(self.fields@, p, i as nat);
                assert(picked(self.fields@, p, (i + 1) as nat) == if picks(p, self.fields@[i as int].1) {
                    k.push(i as int)
                } else {
                    k
                });
                assert forall|j: int| 0 <= j < k.len() implies r@[j] == before[j] by {}
            }
            i = i + 1;
        }
        r
    }

    /// The fields that can be searched on.
    pub fn get_searchable_fields(&self) -> (r: Vec<(&String, &FieldDescriptor)>)
        ensures
            listing(self.fields@, FieldPick::Searchable, self.fields@.len() as nat, r@),
    {
        self.pick_fields(FieldPick::Searchable)
    }

    /// The fields that must be given.
    pub fn get_required_fields(&self) -> (r: Vec<(&String, &FieldDescriptor)>)
        ensures
            listing(self.fields@, FieldPick::Required, self.fields@.len() as nat, r@),
    {
        self.pick_fields(FieldPick::Required)
    }

    /// The fields that relate to other records.
    pub fn get_relational_fields(&self) -> (r: Vec<(&String, &FieldDescriptor)>)
        ensures
            listing(self.fields@, FieldPick::Relational, self.fields@.len() as nat, r@),
    {
        self.pick_fields(FieldPick::Relational)
    }

    /// The fields that hold plain values.
    pub fn get_scalar_fields(&self) -> (r: Vec<(&String, &FieldDescriptor)>)
        ensures
            listing(self.fields@, FieldPick::Scalar, self.fields@.len() as nat, r@),
    {
        self.pick_fields(FieldPick::Scalar)
    }
}

/// How a remote method expects to be called: with no record ids, with a
/// list of ids, or with exactly one id.
#[derive(Debug, Clone, Copy, PartialEq, Eq, Structural)]
pub enum MethodKind {
    Multi,
    Model,
    One,
}

/// A remote method and its call kind.
#[derive(Debug, PartialEq)]
pub struct Method {
    pub name: String,
    pub kind: MethodKind,
}

/// The call kind a name stands for; lower case and capitalised names are both read.
pub open spec fn kind_named(t: Seq<char>) -> Option<MethodKind> {
    if t == "multi"@ || t == "Multi"@ {
        Some(MethodKind::Multi)
    } else if t == "model"@ || t == "Model"@ {
        Some(MethodKind::Model)
    } else if t == "one"@ || t == "One"@ {
        Some(MethodKind::One)
    } else {
        None
    }
}

/// `m` holds what `o` says.
pub open spec fn method_from(o: Json, m: Method) -> bool {
    &&& str_of(lookup(o, "name"@)) == Some(m.name@)
    &&& str_of(lookup(o, "kind"@)) matches Some(k) && kind_named(k) == Some(m.kind)
}

/// `o` describes a method.
pub open spec fn method_shape(o: Json) -> bool {
    &&& str_of(lookup(o, "name"@)) is Some
    &&& str_of(lookup(o, "kind"@)) matches Some(k) && kind_named(k) is Some
}

/// `ms` holds, item for item and in the same order, the methods that `items` describe.
pub open spec fn methods_from(items: Seq<Json>, ms: Seq<Method>) -> bool {
    &&& ms.len() == items.len()
    &&& forall|i: int| 0 <= i < items.len() ==> method_from(#[trigger] items[i], ms[i])
}

impl MethodKind {
    /// The call kind named by `t`.
    pub fn from_name(t: &String) -> (r: Option<MethodKind>)
        ensures
            r == kind_named(t@),
    {
        if *t == "multi".to_owned() || *t == "Multi".to_owned() {
            Some(MethodKind::Multi)
        } else if *t == "model".to_owned() || *t == "Model".to_owned() {
            Some(MethodKind::Model)
        } else if *t == "one".to_owned() || *t == "One".to_owned() {
            Some(MethodKind::One)
        } else {
            None
        }
    }
}

impl Method {
    /// Reads one method description.
    pub fn from_json(o: &Json) -> (r: Option<Method>)
        ensures
            r is Some <==> method_shape(*o),
            r matches Some(m) ==> method_from(*o, m),
    {
        let name = match o.get_str("name") {
            Some(t) => t,
            None => return None,
        };
        let kind = match o.get_str("kind") {
            Some(t) => match MethodKind::from_name(&t) {
                Some(k) => k,
                None => return None,
            },
            None => return None,
        };
        Some(Method { name, kind })
    }
}

/// Reads a list of method descriptions, keeping their order. A value that is
/// not such a list is a decode error that holds it.
pub fn methods_from_json(v: Json) -> (r: Result<Vec<Method>, Error>)
    ensures
        match v {
            Json::Array(items) => if forall|i: int| 0 <= i < items@.len() ==> method_shape(#[trigger] items@[i]) {
                r matches Ok(ms) && methods_from(items@, ms@)
            } else {
                r matches Err(Error::Decode { raw, target }) && raw == v
            },
            _ => r matches Err(Error::Decode { raw, target }) && raw == v,
        },
{
    let mut ms: Vec<Method> = Vec::new();
    match &v {
        Json::Array(items) => {
            let mut i: usize = 0;
            while i < items.len()
                invariant
                    0 <= i <= items@.len(),
                    ms@.len() == i,
                    v == Json::Array(*items),
                    forall|j: int| 0 <= j < i ==> method_shape(#[trigger] items@[j]),
                    forall|j: int| 0 <= j < i ==> method_from(#[trigger] items@[j], ms@[j]),
                decreases items.len() - i,
            {
                match Method::from_json(&items[i]) {
                    Some(m) => ms.push(m),
                    None => {
                        assert(!method_shape(items@[i as int]));
                        assert(!(forall|j: int| 0 <= j < items@.len() ==> method_shape(#[trigger] items@[j])));
                        assert(v matches Json::Array(its) && its@ == items@);
                        return Err(Error::Decode { raw: v, target: "Vec<Method>".to_owned() });
                    },
                }
                i = i + 1;
            }
        },
        _ => {
            return Err(Error::Decode { raw: v, target: "Vec<Method>".to_owned() });
        },
    }
    Ok(ms)
}

/// Decoded methods follow the server's list item for item and in its order:
/// the method at each position has the name listed there, and the kind that
/// the listed kind names ("model", "multi", "one").
pub proof fn law_methods_keep_order(items: Seq<Json>, ms: Seq<Method>)
    requires
        methods_from(items, ms),
    ensures
        ms.len() == items.len(),
        forall|i: int|
            0 <= i < items.len() ==> str_of(lookup(#[trigger] items[i], "name"@)) == Some(ms[i].name@),
        forall|i: int|
            0 <= i < items.len() ==> (#[trigger] str_of(lookup(items[i], "kind"@))) == Some("model"@) ==> ms[i].kind
                == MethodKind::Model,
        forall|i: int|
            0 <= i < items.len() ==> (#[trigger] str_of(lookup(items[i], "kind"@))) == Some("multi"@) ==> ms[i].kind
                == MethodKind::Multi,
        forall|i: int|
            0 <= i < items.len() ==> (#[trigger] str_of(lookup(items[i], "kind"@))) == Some("one"@) ==> ms[i].kind
                == MethodKind::One,
{
    assert forall|i: int| 0 <= i < items.len() implies str_of(lookup(#[trigger] items[i], "name"@)) == Some(ms[i].name@) by {
        assert(method_from(items[i], ms[i]));
    }
    reveal_strlit("model");
    reveal_strlit("Model");
    reveal_strlit("multi");
    reveal_strlit("Multi");
    reveal_strlit("one");
    reveal_strlit("One");
    assert forall|i: int| 0 <= i < items.len() implies (#[trigger] str_of(lookup(items[i], "kind"@))) == Some("one"@) ==> ms[i].kind
        == MethodKind::One by {
        assert(method_from(items[i], ms[i]));
        assert("one"@ != "multi"@ && "one"@ != "Multi"@ && "one"@ != "model"@ && "one"@ != "Model"@) by {
            assert("one"@.len() != "multi"@.len());
            assert("one"@.len() != "model"@.len());
        }
    }
    assert forall|i: int| 0 <= i < items.len() implies (#[trigger] str_of(lookup(items[i], "kind"@))) == Some("model"@) ==> ms[i].kind
        == MethodKind::Model by {
        assert(method_from(items[i], ms[i]));
        assert("model"@ != "multi"@ && "model"@ != "Multi"@) by {
            assert("model"@[1] != "multi"@[1]);
            assert("model"@[0] != "Multi"@[0]);
        }
    }
    assert forall|i: int| 0 <= i < items.len() implies (#[trigger] str_of(lookup(items[i], "kind"@))) == Some("multi"@) ==> ms[i].kind
        == MethodKind::Multi by {
        assert(method_from(items[i], ms[i]));
    }
}

} // verus!
