//! JSON documents as plain data.

use vstd::prelude::*;

verus! {

/// One `"key": value` pair of a JSON object.
#[derive(Debug, PartialEq, Eq)]
pub struct Member {
    pub key: String,
    pub value: Json,
}

/// A JSON document.
#[derive(Debug, PartialEq, Eq)]
pub enum Json {
    Null,
    Bool(bool),
    /// A number, as text: the way `serde_json` prints it.
    Number(String),
    Text(String),
    Array(Vec<Json>),
    /// The members of an object. A document that was read from text lists each
    /// name once, in the order in which `serde_json` keeps them.
    Object(Vec<Member>),
}

/// The mathematical value of a [`Json`] document.
pub enum JsonModel {
    Null,
    Bool(bool),
    Number(Seq<char>),
    Text(Seq<char>),
    Array(Seq<JsonModel>),
    Object(Seq<(Seq<char>, JsonModel)>),
}

impl View for Json {
    type V = JsonModel;

    open spec fn view(&self) -> JsonModel {
        model_of(*self)
    }
}

/// The value of a document: strings as their characters, arrays and objects in order.
pub open spec fn model_of(json: Json) -> JsonModel
    decreases json,
{
    match json {
        Json::Null => JsonModel::Null,
        Json::Bool(b) => JsonModel::Bool(b),
        Json::Number(n) => JsonModel::Number(n@),
        Json::Text(s) => JsonModel::Text(s@),
        Json::Array(items) => JsonModel::Array(
            Seq::new(
                items@.len(),
                |i: int|
                    if 0 <= i < items@.len() {
                        model_of(items@[i])
                    } else {
                        JsonModel::Null
                    },
            ),
        ),
        Json::Object(members) => JsonModel::Object(
            Seq::new(
                members@.len(),
                |i: int|
                    if 0 <= i < members@.len() {
                        (members@[i].key@, model_of(members@[i].value))
                    } else {
                        (Seq::empty(), JsonModel::Null)
                    },
            ),
        ),
    }
}

impl JsonModel {
    /// The text of a string document.
    pub open spec fn text(self) -> Option<Seq<char>> {
        match self {
            JsonModel::Text(s) => Some(s),
            _ => None,
        }
    }

    /// The elements of an array document.
    pub open spec fn items(self) -> Option<Seq<JsonModel>> {
        match self {
            JsonModel::Array(items) => Some(items),
            _ => None,
        }
    }

    /// The members of an object document.
    pub open spec fn members(self) -> Option<Seq<(Seq<char>, JsonModel)>> {
        match self {
            JsonModel::Object(members) => Some(members),
            _ => None,
        }
    }

    /// The value stored under `key`, when this is an object that has the key.
    pub open spec fn field(self, key: Seq<char>) -> Option<JsonModel> {
        match self {
            JsonModel::Object(members) => lookup(members, key),
            _ => None,
        }
    }

    /// Whether no object of the document, at any depth, has two members of one
    /// name.
    pub open spec fn well_formed(self) -> bool
        decreases self,
    {
        match self {
            JsonModel::Array(items) => forall|i: int|
                0 <= i < items.len() ==> (#[trigger] items[i]).well_formed(),
            JsonModel::Object(members) => distinct_keys(members) && forall|i: int|
                0 <= i < members.len() ==> (#[trigger] members[i]).1.well_formed(),
            _ => true,
        }
    }

    /// The text stored under `key`, when this is an object that holds a string there.
    pub open spec fn text_field(self, key: Seq<char>) -> Option<Seq<char>> {
        match self.field(key) {
            Some(value) => value.text(),
            None => None,
        }
    }
}

/// Whether no two members have the same name.
pub open spec fn distinct_keys<T>(members: Seq<(Seq<char>, T)>) -> bool {
    forall|i: int, j: int|
        0 <= i < j < members.len() ==> (#[trigger] members[i]).0 != (#[trigger] members[j]).0
}

/// Whether a member is named `key`.
pub open spec fn has_key<T>(members: Seq<(Seq<char>, T)>, key: Seq<char>) -> bool {
    exists|i: int| 0 <= i < members.len() && (#[trigger] members[i]).0 == key
}

/// The value of the first member named `key`.
pub open spec fn lookup(members: Seq<(Seq<char>, JsonModel)>, key: Seq<char>) -> Option<JsonModel>
    decreases members.len(),
{
    if members.len() == 0 {
        None
    } else if members[0].0 == key {
        Some(members[0].1)
    } else {
        lookup(members.drop_first(), key)
    }
}

/// What `serde_json` reads from a byte string: the document, or nothing where the
/// bytes are not one JSON value.
pub uninterp spec fn document_of(bytes: Seq<u8>) -> Option<JsonModel>;

/// The document that a `serde_json::Value` holds: arrays in order, objects as the
/// value's own map walks them, numbers as printed.
pub uninterp spec fn value_model(value: serde_json::Value) -> JsonModel;

#[verifier::external_type_specification]
#[verifier::external_body]
pub struct ExValue(serde_json::Value);

#[verifier::external_type_specification]
#[verifier::external_body]
pub struct ExError(serde_json::Error);

/// Calls `serde_json::from_slice` for a `serde_json::Value`. Trusted: the outcome
/// depends on the bytes alone, so it is the named document of these bytes, and an
/// error is returned exactly where there is none.
#[verifier::external_body]
fn read_value(bytes: &[u8]) -> (r: Result<serde_json::Value, serde_json::Error>)
    ensures
        r matches Ok(v) ==> document_of(bytes@) == Some(value_model(v)),
        r is Err ==> document_of(bytes@) is None,
{
    serde_json::from_slice::<serde_json::Value>(bytes)
}

/// Copies a `serde_json::Value` into a [`Json`], variant by variant. Trusted: the
/// copy holds the document that the value holds, and, an object of `serde_json`
/// being a map, none of its objects has two members of one name.
#[verifier::external_body]
fn lift(value: &serde_json::Value) -> (j: Json)
    ensures
        j@ == value_model(*value),
        j@.well_formed(),
{
    match value {
        serde_json::Value::Null => Json::Null,
        serde_json::Value::Bool(b) => Json::Bool(*b),
        serde_json::Value::Number(n) => Json::Number(n.to_string()),
        serde_json::Value::String(s) => Json::Text(s.clone()),
        serde_json::Value::Array(items) => Json::Array(items.iter().map(lift).collect()),
        serde_json::Value::Object(map) => Json::Object(
            map.iter().map(|(k, v)| Member { key: k.clone(), value: lift(v) }).collect(),
        ),
    }
}

/// Compares two string slices with `==` of `str`. Trusted: the slices are equal
/// exactly when they hold the same characters.
#[verifier::external_body]
pub(crate) fn same_text(a: &str, b: &str) -> (r: bool)
    ensures
        r == (a@ == b@),
{
    a == b
}

impl Json {
    /// Reads one JSON document from `bytes`. Where an object of the text names a
    /// member twice, the document holds it once.
    pub fn parse(bytes: &[u8]) -> (r: Option<Json>)
        ensures
            r matches Some(j) ==> document_of(bytes@) == Some(j@) && j@.well_formed(),
            r is None ==> document_of(bytes@) is None,
    {
        match read_value(bytes) {
            Ok(value) => Some(lift(&value)),
            Err(_) => None,
        }
    }

    /// The text of a string document.
    pub fn as_str(&self) -> (r: Option<&str>)
        ensures
            r matches Some(s) ==> self@.text() == Some(s@),
            r is None ==> self@.text() is None,
    {
        match self {
            Json::Text(s) => Some(s.as_str()),
            _ => None,
        }
    }

    /// The elements of an array document.
    pub fn as_array(&self) -> (r: Option<&Vec<Json>>)
        ensures
            r matches Some(items) ==> self@.items() == Some(docs_view(items@)),
            r is None ==> self@.items() is None,
    {
        match self {
            Json::Array(items) => {
                assert(self@.items().unwrap() =~= docs_view(items@));
                Some(items)
            },
            _ => None,
        }
    }

    /// The members of an object document.
    pub fn as_object(&self) -> (r: Option<&Vec<Member>>)
        ensures
            r matches Some(members) ==> self@.members() == Some(members_view(members@)),
            r is None ==> self@.members() is None,
    {
        match self {
            Json::Object(members) => {
                proof {
                    lemma_object_members(*members);
                }
                Some(members)
            },
            _ => None,
        }
    }

    /// The value stored under `key`: the first member of that name.
    pub fn get(&self, key: &str) -> (r: Option<&Json>)
        ensures
            r matches Some(j) ==> self@.field(key@) == Some(j@),
            r is None ==> self@.field(key@) is None,
    {
        match self {
            Json::Object(members) => {
                let ghost all = members_view(members@);
                proof {
                    lemma_object_members(*members);
                    assert(all.skip(0) =~= all);
                }
                let mut i: usize = 0;
                while i < members.len()
                    invariant
                        i <= members.len(),
                        all == members_view(members@),
                        self@ == JsonModel::Object(all),
                        lookup(all, key@) == lookup(all.skip(i as int), key@),
                    decreases members.len() - i,
                {
                    assert(all.skip(i as int).drop_first() =~= all.skip(i as int + 1));
                    assert(all.skip(i as int)[0] == all[i as int]);
                    if same_text(members[i].key.as_str(), key) {
                        return Some(&members[i].value);
                    }
                    i += 1;
                }
                None
            },
            _ => None,
        }
    }

    /// The text stored under `key`.
    pub fn get_str(&self, key: &str) -> (r: Option<&str>)
        ensures
            r matches Some(s) ==> self@.text_field(key@) == Some(s@),
            r is None ==> self@.text_field(key@) is None,
    {
        match self.get(key) {
            Some(value) => value.as_str(),
            None => None,
        }
    }
}

/// What is found among members that are well formed is well formed.
pub proof fn lemma_lookup_well_formed(members: Seq<(Seq<char>, JsonModel)>, key: Seq<char>)
    requires
        forall|i: int| 0 <= i < members.len() ==> (#[trigger] members[i]).1.well_formed(),
    ensures
        lookup(members, key) matches Some(value) ==> value.well_formed(),
    decreases members.len(),
{
    if members.len() > 0 && members[0].0 != key {
        let rest = members.drop_first();
        assert forall|i: int| 0 <= i < rest.len() implies (#[trigger] rest[i]).1.well_formed() by {
            assert(rest[i] == members[i + 1]);
        }
        lemma_lookup_well_formed(rest, key);
    }
}

/// A field of a well-formed document is well formed.
pub proof fn lemma_field_well_formed(document: JsonModel, key: Seq<char>)
    requires
        document.well_formed(),
    ensures
        document.field(key) matches Some(value) ==> value.well_formed(),
{
    if let JsonModel::Object(members) = document {
        lemma_lookup_well_formed(members, key);
    }
}

proof fn lemma_object_members(members: Vec<Member>)
    ensures
        Json::Object(members)@ == JsonModel::Object(members_view(members@)),
{
    assert(Json::Object(members)@->Object_0 =~= members_view(members@));
}

/// The members of an object as pairs of a name and a document.
pub open spec fn members_view(members: Seq<Member>) -> Seq<(Seq<char>, JsonModel)> {
    Seq::new(members.len(), |i: int| (members[i].key@, members[i].value@))
}

/// The characters of a list of fields, in the list's order.
pub open spec fn fields_view(fields: Seq<(String, String)>) -> Seq<(Seq<char>, Seq<char>)> {
    Seq::new(fields.len(), |i: int| (fields[i].0@, fields[i].1@))
}

/// The object whose members are `fields`, each value a string.
pub open spec fn object_of(fields: Seq<(Seq<char>, Seq<char>)>) -> JsonModel {
    JsonModel::Object(Seq::new(fields.len(), |i: int| (fields[i].0, JsonModel::Text(fields[i].1))))
}

/// The values of a list of documents, in the list's order.
pub open spec fn docs_view(items: Seq<Json>) -> Seq<JsonModel> {
    Seq::new(items.len(), |i: int| items[i]@)
}

} // verus!
