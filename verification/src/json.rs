//! The JSON bodies that the node answers with.
use vstd::prelude::*;

verus! {

/// A JSON value, as far as the node's answers need one.
#[derive(Debug, PartialEq, Eq)]
pub enum Json {
    Bool(bool),
    Number(u64),
    Text(String),
    List(Vec<Json>),
    Object(Vec<(String, Json)>),
}

/// The mathematical counterpart of [`Json`].
pub enum JsonModel {
    Bool(bool),
    Number(u64),
    Text(Seq<char>),
    List(Seq<JsonModel>),
    Object(Seq<(Seq<char>, JsonModel)>),
}

impl Json {
    /// The value that this stands for.
    pub open spec fn model(self) -> JsonModel
        decreases self,
    {
        match self {
            Json::Bool(b) => JsonModel::Bool(b),
            Json::Number(n) => JsonModel::Number(n),
            Json::Text(s) => JsonModel::Text(s@),
            Json::List(items) => JsonModel::List(
                Seq::new(
                    items@.len(),
                    |i: int|
                        if 0 <= i < items@.len() {
                            items@[i].model()
                        } else {
                            arbitrary()
                        },
                ),
            ),
            Json::Object(fields) => JsonModel::Object(
                Seq::new(
                    fields@.len(),
                    |i: int|
                        if 0 <= i < fields@.len() {
                            (fields@[i].0@, fields@[i].1.model())
                        } else {
                            arbitrary()
                        },
                ),
            ),
        }
    }
}

impl JsonModel {
    /// Whether this is an object with `value`, and nothing else, under `name`.
    pub open spec fn shows(self, name: Seq<char>, value: JsonModel) -> bool {
        &&& self matches JsonModel::Object(members)
        &&& members.contains((name, value))
        &&& forall|i: int|
            0 <= i < members.len() && (#[trigger] members[i]).0 == name ==> members[i].1 == value
    }

    /// The number of members of this object.
    pub open spec fn size(self) -> nat {
        self->Object_0.len()
    }
}

impl View for Json {
    type V = JsonModel;

    open spec fn view(&self) -> JsonModel {
        self.model()
    }
}

/// The models of `items`, in order.
pub open spec fn models(items: Seq<Json>) -> Seq<JsonModel> {
    items.map_values(|item: Json| item@)
}

/// A JSON string.
pub fn text(s: &str) -> (r: Json)
    ensures
        r@ == JsonModel::Text(s@),
{
    Json::Text(s.to_owned())
}

/// A JSON number.
pub fn number(n: u64) -> (r: Json)
    ensures
        r@ == JsonModel::Number(n),
{
    Json::Number(n)
}

/// A JSON truth value.
pub fn truth(b: bool) -> (r: Json)
    ensures
        r@ == JsonModel::Bool(b),
{
    Json::Bool(b)
}

/// A JSON array.
pub fn list(items: Vec<Json>) -> (r: Json)
    ensures
        r@ == JsonModel::List(models(items@)),
{
    let r = Json::List(items);
    assert(r@->List_0 =~= models(items@));
    r
}

/// The members of a JSON object under construction, in order.
pub struct Fields {
    entries: Vec<(String, Json)>,
}

impl View for Fields {
    type V = Seq<(Seq<char>, JsonModel)>;

    closed spec fn view(&self) -> Seq<(Seq<char>, JsonModel)> {
        self.entries@.map_values(|entry: (String, Json)| (entry.0@, entry.1@))
    }
}

impl Fields {
    /// No members.
    pub fn new() -> (r: Fields)
        ensures
            r@ == Seq::<(Seq<char>, JsonModel)>::empty(),
    {
        let r = Fields { entries: Vec::new() };
        assert(r@ =~= Seq::<(Seq<char>, JsonModel)>::empty());
        r
    }

    /// Adds the member `key: value` behind the others.
    pub fn with(self, key: &str, value: Json) -> (r: Fields)
        ensures
            r@ == self@.push((key@, value@)),
    {
        let mut entries = self.entries;
        entries.push((key.to_owned(), value));
        let r = Fields { entries };
        assert(r@ =~= self@.push((key@, value@)));
        r
    }

    /// The object with these members.
    pub fn object(self) -> (r: Json)
        ensures
            r@ == JsonModel::Object(self@),
    {
        let r = Json::Object(self.entries);
        assert(r@->Object_0 =~= self@);
        r
    }
}

} // verus!
