use vstd::prelude::*;

verus! {

/// A JSON value as the library reads and writes it.
#[derive(Debug, PartialEq)]
pub enum Json {
    Null,
    Bool(bool),
    /// A number that is an integer within the range of `i64`.
    Int(i64),
    /// Any other number, kept as its decimal text. A text that is not a JSON
    /// number is written out as `null`.
    Num(String),
    Str(String),
    Array(Vec<Json>),
    /// Members in the order the value holds them.
    Object(Vec<(String, Json)>),
}

/// The value under `key` in a member list: the first member with that name.
pub open spec fn member(entries: Seq<(String, Json)>, key: Seq<char>) -> Option<Json>
    decreases entries.len(),
{
    if entries.len() == 0 {
        None
    } else if entries[0].0@ == key {
        Some(entries[0].1)
    } else {
        member(entries.drop_first(), key)
    }
}

/// The value under `key` when `v` is an object; `None` for any other value.
pub open spec fn lookup(v: Json, key: Seq<char>) -> Option<Json> {
    match v {
        Json::Object(entries) => member(entries@, key),
        _ => None,
    }
}

proof fn lemma_member_step(entries: Seq<(String, Json)>, i: int, key: Seq<char>)
    requires
        0 <= i < entries.len(),
        entries[i].0@ != key,
    ensures
        member(entries.subrange(i, entries.len() as int), key) == member(
            entries.subrange(i + 1, entries.len() as int),
            key,
        ),
{
    assert(entries.subrange(i, entries.len() as int).drop_first() =~= entries.subrange(
        i + 1,
        entries.len() as int,
    ));
}

/// Index of the first member named `key`.
fn find_member(entries: &Vec<(String, Json)>, key: &str) -> (r: Option<usize>)
    ensures
        match r {
            Some(i) => i < entries@.len() && entries@[i as int].0@ == key@ && member(entries@, key@)
                == Some(entries@[i as int].1) && forall|j: int|
                0 <= j < i ==> (#[trigger] entries@[j]).0@ != key@,
            None => member(entries@, key@) is None,
        },
{
    let k = key.to_owned();
    let mut i: usize = 0;
    assert(entries@.subrange(0, entries@.len() as int) =~= entries@);
    while i < entries.len()
        invariant
            0 <= i <= entries@.len(),
            k@ == key@,
            forall|j: int| 0 <= j < i ==> (#[trigger] entries@[j]).0@ != key@,
            member(entries@, key@) == member(
                entries@.subrange(i as int, entries@.len() as int),
                key@,
            ),
        decreases entries.len() - i,
    {
        if entries[i].0 == k {
            assert(entries@.subrange(i as int, entries@.len() as int)[0] == entries@[i as int]);
            return Some(i);
        }
        proof {
            lemma_member_step(entries@, i as int, key@);
        }
        i = i + 1;
    }
    None
}

proof fn lemma_member_update(entries: Seq<(String, Json)>, i: int, e: (String, Json), key: Seq<char>, other: Seq<char>)
    requires
        0 <= i < entries.len(),
        entries[i].0@ == key,
        e.0@ == key,
        forall|j: int| 0 <= j < i ==> (#[trigger] entries[j]).0@ != key,
    ensures
        member(entries.update(i, e), key) == Some(e.1),
        other != key ==> member(entries.update(i, e), other) == member(entries, other),
    decreases i,
{
    let n = entries.update(i, e);
    if i == 0 {
        assert(n.drop_first() =~= entries.drop_first());
    } else {
        assert(entries[0].0@ != key);
        assert(n.drop_first() =~= entries.drop_first().update(i - 1, e));
        assert forall|j: int| 0 <= j < i - 1 implies (#[trigger] entries.drop_first()[j]).0@ != key by {
            assert(entries.drop_first()[j] == entries[j + 1]);
        }
        lemma_member_update(entries.drop_first(), i - 1, e, key, other);
    }
}

/// `a` and `b` agree on every member but `key`.
pub open spec fn same_but(a: Json, b: Json, key: Seq<char>) -> bool {
    forall|k: Seq<char>| k != key ==> #[trigger] lookup(a, k) == lookup(b, k)
}

/// Replaces the value of the member `key`, which must be present.
pub(crate) fn replace_member(o: Json, key: &str, v: Json) -> (r: Json)
    requires
        lookup(o, key@) is Some,
    ensures
        lookup(r, key@) == Some(v),
        same_but(r, o, key@),
{
    match o {
        Json::Object(mut entries) => match find_member(&entries, key) {
            Some(i) => {
                let ghost old_entries = entries@;
                let k = key.to_owned();
                entries[i] = (k, v);
                proof {
                    assert forall|other: Seq<char>| other != key@ implies #[trigger] member(entries@, other) == member(old_entries, other) by {
                        lemma_member_update(old_entries, i as int, entries@[i as int], key@, other);
                    }
                    lemma_member_update(old_entries, i as int, entries@[i as int], key@, key@);
                }
                Json::Object(entries)
            },
            None => {
                assert(false);
                Json::Null
            },
        },
        _ => {
            assert(false);
            Json::Null
        },
    }
}

impl Json {
    /// The value under `key` when this is an object.
    pub fn get(&self, key: &str) -> (r: Option<&Json>)
        ensures
            match r {
                Some(v) => lookup(*self, key@) == Some(*v),
                None => lookup(*self, key@) is None,
            },
    {
        match self {
            Json::Object(entries) => match find_member(entries, key) {
                Some(i) => Some(&entries[i].1),
                None => None,
            },
            _ => None,
        }
    }

    /// Takes the value under `key` out of this object, dropping the rest.
    pub fn into_member(self, key: &str) -> (r: Option<Json>)
        ensures
            r == lookup(self, key@),
    {
        match self {
            Json::Object(mut entries) => match find_member(&entries, key) {
                Some(i) => Some(entries.remove(i).1),
                None => None,
            },
            _ => None,
        }
    }
}

/// The boolean held by `v`, if it holds one.
pub open spec fn bool_of(v: Option<Json>) -> Option<bool> {
    match v {
        Some(Json::Bool(b)) => Some(b),
        _ => None,
    }
}

/// The integer held by `v`, if it holds an integer within the range of `i64`.
pub open spec fn int_of(v: Option<Json>) -> Option<int> {
    match v {
        Some(Json::Int(n)) => Some(n as int),
        _ => None,
    }
}

/// The text held by `v`, if it holds a string.
pub open spec fn str_of(v: Option<Json>) -> Option<Seq<char>> {
    match v {
        Some(Json::Str(t)) => Some(t@),
        _ => None,
    }
}

/// Every item is a string.
pub open spec fn all_strings(items: Seq<Json>) -> bool {
    forall|i: int| 0 <= i < items.len() ==> (#[trigger] items[i]) is Str
}

/// The texts of a list of strings.
pub open spec fn texts(items: Seq<Json>) -> Seq<Seq<char>> {
    Seq::new(items.len(), |i: int| items[i]->Str_0@)
}

/// The texts held by `v`, if it holds an array of strings.
pub open spec fn strs_of(v: Option<Json>) -> Option<Seq<Seq<char>>> {
    match v {
        Some(Json::Array(items)) => if all_strings(items@) {
            Some(texts(items@))
        } else {
            None
        },
        _ => None,
    }
}

/// The views of a list of strings.
pub open spec fn string_views(items: Seq<String>) -> Seq<Seq<char>> {
    Seq::new(items.len(), |i: int| items[i]@)
}

impl Json {
    /// This value as a list of strings, if it is an array of strings.
    pub fn as_strings(&self) -> (r: Option<Vec<String>>)
        ensures
            match r {
                Some(v) => strs_of(Some(*self)) == Some(string_views(v@)),
                None => strs_of(Some(*self)) is None,
            },
    {
        match self {
            Json::Array(items) => {
                let mut out: Vec<String> = Vec::new();
                let mut i: usize = 0;
                while i < items.len()
                    invariant
                        0 <= i <= items@.len(),
                        out@.len() == i,
                        *self == Json::Array(*items),
                        forall|j: int| 0 <= j < i ==> (#[trigger] items@[j]) is Str,
                        forall|j: int| 0 <= j < i ==> items@[j]->Str_0@ == (#[trigger] out@[j])@,
                    decreases items.len() - i,
                {
                    match &items[i] {
                        Json::Str(t) => out.push(t.clone()),
                        _ => {
                            assert(!(items@[i as int] is Str));
                            return None;
                        },
                    }
                    i = i + 1;
                }
                assert(texts(items@) =~= string_views(out@));
                Some(out)
            },
            _ => None,
        }
    }

    /// The boolean under `key`, if there is one.
    pub fn get_bool(&self, key: &str) -> (r: Option<bool>)
        ensures
            r == bool_of(lookup(*self, key@)),
    {
        match self.get(key) {
            Some(Json::Bool(b)) => Some(*b),
            _ => None,
        }
    }

    /// The integer under `key`, if there is one within the range of `i64`.
    pub fn get_int(&self, key: &str) -> (r: Option<i64>)
        ensures
            match r {
                Some(n) => int_of(lookup(*self, key@)) == Some(n as int),
                None => int_of(lookup(*self, key@)) is None,
            },
    {
        match self.get(key) {
            Some(Json::Int(n)) => Some(*n),
            _ => None,
        }
    }

    /// The text under `key`, if there is a string there.
    pub fn get_str(&self, key: &str) -> (r: Option<String>)
        ensures
            match r {
                Some(t) => str_of(lookup(*self, key@)) == Some(t@),
                None => str_of(lookup(*self, key@)) is None,
            },
    {
        match self.get(key) {
            Some(Json::Str(t)) => Some(t.clone()),
            _ => None,
        }
    }

    /// The texts under `key`, if there is an array of strings there.
    pub fn get_strs(&self, key: &str) -> (r: Option<Vec<String>>)
        ensures
            match r {
                Some(v) => strs_of(lookup(*self, key@)) == Some(string_views(v@)),
                None => strs_of(lookup(*self, key@)) is None,
            },
    {
        match self.get(key) {
            Some(v) => v.as_strings(),
            None => None,
        }
    }
}

/// serde_json's value, declared so that the conversions below can name it
/// in their signatures.
#[verifier::external_type_specification]
#[verifier::external_body]
pub struct ExValue(serde_json::Value);

/// The value that serde_json reads from `text`, or `None` where the text is not JSON.
pub uninterp spec fn json_parsed(text: Seq<char>) -> Option<Json>;

/// The JSON text that serde_json writes for `v`.
pub uninterp spec fn json_printed(v: Json) -> Seq<char>;

/// Conversion of a serde_json value into the library's value, variant for variant.
#[verifier::external_body]
fn from_serde(v: serde_json::Value) -> Json {
    match v {
        serde_json::Value::Null => Json::Null,
        serde_json::Value::Bool(b) => Json::Bool(b),
        serde_json::Value::Number(n) => match n.as_i64() {
            Some(i) => Json::Int(i),
            None => Json::Num(n.to_string()),
        },
        serde_json::Value::String(t) => Json::Str(t),
        serde_json::Value::Array(a) => Json::Array(a.into_iter().map(from_serde).collect()),
        serde_json::Value::Object(m) => Json::Object(
            m.into_iter().map(|(k, x)| (k, from_serde(x))).collect(),
        ),
    }
}

/// Conversion of the library's value into a serde_json value, variant for variant.
#[verifier::external_body]
fn to_serde(v: &Json) -> serde_json::Value {
    match v {
        Json::Null => serde_json::Value::Null,
        Json::Bool(b) => serde_json::Value::Bool(*b),
        Json::Int(i) => serde_json::Value::from(*i),
        Json::Num(t) => t.parse::<serde_json::Number>().map_or(serde_json::Value::Null, serde_json::Value::Number),
        Json::Str(t) => serde_json::Value::String(t.clone()),
        Json::Array(a) => serde_json::Value::Array(a.iter().map(to_serde).collect()),
        Json::Object(m) => serde_json::Value::Object(
            m.iter().map(|(k, x)| (k.clone(), to_serde(x))).collect(),
        ),
    }
}

/// Relies on serde_json::from_str, read into serde_json::Value: the outcome
/// depends on the text alone.
#[verifier::external_body]
pub(crate) fn parse_json(text: &str) -> (r: Option<Json>)
    ensures
        r == json_parsed(text@),
{
    serde_json::from_str::<serde_json::Value>(text).ok().map(from_serde)
}

/// Relies on serde_json::to_string on a serde_json::Value: the text depends on
/// the value alone.
#[verifier::external_body]
pub(crate) fn print_json(v: &Json) -> (r: String)
    ensures
        r@ == json_printed(*v),
{
    serde_json::to_string(&to_serde(v)).unwrap_or_default()
}

impl Json {
    /// Reads JSON text; `None` where the text is not JSON.
    pub fn from_text(text: &str) -> (r: Option<Json>)
        ensures
            r == json_parsed(text@),
    {
        parse_json(text)
    }

    /// This value as JSON text.
    pub fn to_text(&self) -> (r: String)
        ensures
            r@ == json_printed(*self),
    {
        print_json(self)
    }
}

} // verus!
