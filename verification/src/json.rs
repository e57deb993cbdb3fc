//! JSON values and the bytes that `serde_json` writes for them.

use vstd::prelude::*;

use crate::text::same_text;

verus! {

/// A number as `serde_json` holds it.
#[verifier::external_type_specification]
#[verifier::external_body]
pub struct ExNumber(serde_json::Number);

/// The form in which `serde_json` takes a JSON value.
#[verifier::external_type_specification]
#[verifier::external_body]
pub struct ExValue(serde_json::Value);

/// The form in which `serde_json` takes the members of an object.
#[verifier::external_type_specification]
#[verifier::external_body]
#[verifier::reject_recursive_types(K)]
#[verifier::reject_recursive_types(V)]
pub struct ExMembers<K, V>(serde_json::Map<K, V>);

/// The error of `serde_json`.
#[verifier::external_type_specification]
#[verifier::external_body]
pub struct ExJsonError(serde_json::Error);

/// A JSON value.
///
/// A member name that an object repeats stands for its last value, as in an object that
/// `serde_json` has read.
#[derive(Debug)]
pub enum Json {
    Null,
    Bool(bool),
    Unsigned(u64),
    Signed(i64),
    /// A number as `serde_json` holds it, such as one in floating point.
    Number(serde_json::Number),
    Text(String),
    Array(Vec<Json>),
    Object(Vec<(String, Json)>),
}

/// What a number says.
pub enum NumberView {
    Integer(int),
    /// A number that `serde_json` does not hold as an integer.
    Other(serde_json::Number),
}

/// What a [`Json`] says: the members of an object have no order.
pub enum JsonTree {
    Null,
    Bool(bool),
    Number(NumberView),
    Text(Seq<char>),
    Array(Seq<JsonTree>),
    Object(Map<Seq<char>, JsonTree>),
}

/// The value of `json`.
pub open spec fn tree(json: Json) -> JsonTree
    decreases json,
{
    match json {
        Json::Null => JsonTree::Null,
        Json::Bool(b) => JsonTree::Bool(b),
        Json::Unsigned(n) => JsonTree::Number(NumberView::Integer(n as int)),
        Json::Signed(n) => JsonTree::Number(NumberView::Integer(n as int)),
        Json::Number(n) => JsonTree::Number(number_view(n)),
        Json::Text(s) => JsonTree::Text(s@),
        Json::Array(items) => JsonTree::Array(trees(items@)),
        Json::Object(entries) => JsonTree::Object(members(entries@)),
    }
}

/// The values of `items`, in their order.
pub open spec fn trees(items: Seq<Json>) -> Seq<JsonTree>
    decreases items,
{
    if items.len() == 0 {
        Seq::empty()
    } else {
        trees(items.drop_last()).push(tree(items.last()))
    }
}

/// The members that `entries` make up: a later entry replaces an earlier one of its name.
pub open spec fn members(entries: Seq<(String, Json)>) -> Map<Seq<char>, JsonTree>
    decreases entries,
{
    if entries.len() == 0 {
        Map::empty()
    } else {
        members(entries.drop_last()).insert(entries.last().0@, tree(entries.last().1))
    }
}

impl View for Json {
    type V = JsonTree;

    open spec fn view(&self) -> JsonTree {
        tree(*self)
    }
}

impl JsonTree {
    /// The member `name`, if this is an object that has it.
    pub open spec fn member(self, name: Seq<char>) -> Option<JsonTree> {
        match self {
            JsonTree::Object(members) => if members.contains_key(name) {
                Some(members[name])
            } else {
                None
            },
            _ => None,
        }
    }

    /// The member `name`, if this is an object in which it is a string.
    pub open spec fn text_member(self, name: Seq<char>) -> Option<Seq<char>> {
        match self.member(name) {
            Some(JsonTree::Text(s)) => Some(s),
            _ => None,
        }
    }
}

/// What an optional value says.
pub open spec fn optional_tree(json: Option<Json>) -> Option<JsonTree> {
    match json {
        Some(j) => Some(j@),
        None => None,
    }
}

/// The values of items are the values of each of them.
pub proof fn lemma_trees(items: Seq<Json>)
    ensures
        trees(items).len() == items.len(),
        forall|i: int| 0 <= i < items.len() ==> #[trigger] trees(items)[i] == tree(items[i]),
    decreases items.len(),
{
    if items.len() > 0 {
        lemma_trees(items.drop_last());
    }
}

/// Entries of other names do not change what a name stands for.
proof fn lemma_members_without(entries: Seq<(String, Json)>, from: int, name: Seq<char>)
    requires
        0 <= from <= entries.len(),
        forall|k: int| from <= k < entries.len() ==> (#[trigger] entries[k]).0@ != name,
    ensures
        members(entries).contains_key(name) == members(entries.take(from)).contains_key(name),
        members(entries).contains_key(name) ==> members(entries)[name] == members(
            entries.take(from),
        )[name],
    decreases entries.len() - from,
{
    if from == entries.len() {
        assert(entries.take(from) =~= entries);
    } else {
        assert(entries.drop_last().take(from) =~= entries.take(from));
        assert(entries[entries.len() - 1].0@ != name);
        lemma_members_without(entries.drop_last(), from, name);
    }
}

/// Adds a member to an object in the making.
pub fn put_member(entries: &mut Vec<(String, Json)>, name: &str, value: Json)
    ensures
        members(final(entries)@) == members(old(entries)@).insert(name@, value@),
{
    entries.push((name.to_owned(), value));
    assert(entries@.drop_last() =~= old(entries)@);
}

impl Json {
    /// The member `name`, if this is an object that has it.
    pub fn get(&self, name: &str) -> (found: Option<&Json>)
        ensures
            found is Some == (self@.member(name@) is Some),
            found is Some ==> found->0@ == self@.member(name@)->0,
    {
        match self {
            Json::Object(entries) => {
                let mut i: usize = entries.len();
                while i > 0
                    invariant
                        i <= entries.len(),
                        forall|k: int| i <= k < entries.len() ==> (#[trigger] entries@[k]).0@ != name@,
                        self@ == JsonTree::Object(members(entries@)),
                    decreases i,
                {
                    i = i - 1;
                    let entry = &entries[i];
                    if same_text(entry.0.as_str(), name) {
                        proof {
                            lemma_members_without(entries@, i + 1, name@);
                            assert(entries@.take(i + 1).drop_last() =~= entries@.take(i as int));
                        }
                        return Some(&entry.1);
                    }
                }
                proof {
                    lemma_members_without(entries@, 0, name@);
                    assert(entries@.take(0) =~= Seq::empty());
                }
                None
            },
            _ => None,
        }
    }

    /// The text, if this is a string.
    pub fn as_str(&self) -> (text: Option<&str>)
        ensures
            text is Some == (self@ is Text),
            text is Some ==> self@ == JsonTree::Text(text->0@),
    {
        match self {
            Json::Text(s) => Some(s.as_str()),
            _ => None,
        }
    }

    /// The truth value, if this is one.
    pub fn as_bool(&self) -> (truth: Option<bool>)
        ensures
            truth == (match self@ {
                JsonTree::Bool(b) => Some(b),
                _ => None,
            }),
    {
        match self {
            Json::Bool(b) => Some(*b),
            _ => None,
        }
    }

    /// The items, if this is an array.
    pub fn as_array(&self) -> (items: Option<&Vec<Json>>)
        ensures
            items is Some == (self@ is Array),
            items is Some ==> self@ == JsonTree::Array(trees(items->0@)),
    {
        match self {
            Json::Array(items) => Some(items),
            _ => None,
        }
    }

    /// Whether this is an object.
    pub fn is_object(&self) -> (r: bool)
        ensures
            r == (self@ is Object),
    {
        match self {
            Json::Object(_) => true,
            _ => false,
        }
    }

    /// The JSON text of this value, as `serde_json` writes it.
    pub fn to_bytes(&self) -> (bytes: Vec<u8>)
        ensures
            bytes@ == json_bytes(self@),
    {
        let value = self.to_value();
        value_to_vec(&value).unwrap()
    }
}

/// Calls `Clone::clone` of `serde_json::Number`: the clone is the same number.
pub assume_specification[ <serde_json::Number as Clone>::clone ](
    number: &serde_json::Number,
) -> (copy: serde_json::Number)
    ensures
        copy == *number,
;

impl Clone for Json {
    fn clone(&self) -> (copy: Self)
        ensures
            copy@ == self@,
        decreases self,
    {
        match self {
            Json::Null => Json::Null,
            Json::Bool(b) => Json::Bool(*b),
            Json::Unsigned(n) => Json::Unsigned(*n),
            Json::Signed(n) => Json::Signed(*n),
            Json::Number(n) => Json::Number(n.clone()),
            Json::Text(s) => Json::Text(s.clone()),
            Json::Array(items) => {
                let mut copies: Vec<Json> = Vec::new();
                let mut i: usize = 0;
                while i < items.len()
                    invariant
                        i <= items.len(),
                        decreases_to!(self => items@),
                        trees(copies@) == trees(items@.take(i as int)),
                    decreases items.len() - i,
                {
                    let copy = items[i].clone();
                    proof {
                        assert(copies@.push(copy).drop_last() =~= copies@);
                        assert(items@.take(i + 1).drop_last() =~= items@.take(i as int));
                    }
                    copies.push(copy);
                    i = i + 1;
                }
                assert(items@.take(items@.len() as int) =~= items@);
                Json::Array(copies)
            },
            Json::Object(entries) => {
                let mut copies: Vec<(String, Json)> = Vec::new();
                let mut i: usize = 0;
                while i < entries.len()
                    invariant
                        i <= entries.len(),
                        decreases_to!(self => entries@),
                        members(copies@) == members(entries@.take(i as int)),
                    decreases entries.len() - i,
                {
                    let copy = (entries[i].0.clone(), entries[i].1.clone());
                    proof {
                        assert(copies@.push(copy).drop_last() =~= copies@);
                        assert(entries@.take(i + 1).drop_last() =~= entries@.take(i as int));
                    }
                    copies.push(copy);
                    i = i + 1;
                }
                assert(entries@.take(entries@.len() as int) =~= entries@);
                Json::Object(copies)
            },
        }
    }
}

/// What a number of `serde_json` says.
pub uninterp spec fn number_view(number: serde_json::Number) -> NumberView;

/// What a JSON value in the form of `serde_json` says.
pub uninterp spec fn value_tree(value: serde_json::Value) -> JsonTree;

/// The bytes that `serde_json::to_vec` writes for a JSON value.
pub uninterp spec fn json_bytes(tree: JsonTree) -> Seq<u8>;

/// What JSON values in the form of `serde_json` say, in their order.
pub open spec fn value_trees(items: Seq<serde_json::Value>) -> Seq<JsonTree> {
    items.map_values(|value: serde_json::Value| value_tree(value))
}

/// What the members of an object in the form of `serde_json` say.
pub uninterp spec fn map_members(
    map: serde_json::Map<String, serde_json::Value>,
) -> Map<Seq<char>, JsonTree>;

/// Calls `serde_json::to_vec`. Nothing in a JSON value makes it fail, and the bytes depend on
/// what the value says alone: the members of an object are kept and written in the order of
/// their names.
#[verifier::external_body]
fn value_to_vec(value: &serde_json::Value) -> (bytes: Result<Vec<u8>, serde_json::Error>)
    ensures
        bytes is Ok,
        bytes->Ok_0@ == json_bytes(value_tree(*value)),
{
    serde_json::to_vec(value)
}

/// Makes a `serde_json::Value::Null`, which says null.
#[verifier::external_body]
fn null_value() -> (value: serde_json::Value)
    ensures
        value_tree(value) == JsonTree::Null,
{
    serde_json::Value::Null
}

/// Calls `serde_json::Value::from` for a truth value, which the result says.
#[verifier::external_body]
fn bool_value(b: bool) -> (value: serde_json::Value)
    ensures
        value_tree(value) == JsonTree::Bool(b),
{
    serde_json::Value::from(b)
}

/// Calls `serde_json::Value::from` for a `u64`, which the result says.
#[verifier::external_body]
fn unsigned_value(n: u64) -> (value: serde_json::Value)
    ensures
        value_tree(value) == JsonTree::Number(NumberView::Integer(n as int)),
{
    serde_json::Value::from(n)
}

/// Calls `serde_json::Value::from` for an `i64`, which the result says.
#[verifier::external_body]
fn signed_value(n: i64) -> (value: serde_json::Value)
    ensures
        value_tree(value) == JsonTree::Number(NumberView::Integer(n as int)),
{
    serde_json::Value::from(n)
}

/// Calls `serde_json::Value::from` for a number, which the result says.
#[verifier::external_body]
fn number_value(n: serde_json::Number) -> (value: serde_json::Value)
    ensures
        value_tree(value) == JsonTree::Number(number_view(n)),
{
    serde_json::Value::from(n)
}

/// Calls `serde_json::Value::from` for a string, which the result says.
#[verifier::external_body]
fn text_value(s: String) -> (value: serde_json::Value)
    ensures
        value_tree(value) == JsonTree::Text(s@),
{
    serde_json::Value::from(s)
}

/// Calls `serde_json::Value::from` for a vector: the result is the array of its items.
#[verifier::external_body]
fn array_value(items: Vec<serde_json::Value>) -> (value: serde_json::Value)
    ensures
        value_tree(value) == JsonTree::Array(value_trees(items@)),
{
    serde_json::Value::from(items)
}

/// Calls `serde_json::Map::new`, which makes a map without members.
#[verifier::external_body]
fn no_members() -> (map: serde_json::Map<String, serde_json::Value>)
    ensures
        map_members(map) =~= Map::empty(),
{
    serde_json::Map::new()
}

/// Calls `serde_json::Map::insert`, which gives the member `name` the value `value`. Where there was
/// such a member, its value is replaced and handed back.
#[verifier::external_body]
fn insert_member(
    map: &mut serde_json::Map<String, serde_json::Value>,
    name: String,
    value: serde_json::Value,
) -> (replaced: Option<serde_json::Value>)
    ensures
        map_members(*final(map)) == map_members(*old(map)).insert(name@, value_tree(value)),
        replaced is Some == map_members(*old(map)).contains_key(name@),
        replaced is Some ==> value_tree(replaced->0) == map_members(*old(map))[name@],
{
    map.insert(name, value)
}

/// Makes a `serde_json::Value::Object`, which says its members.
#[verifier::external_body]
fn object_value(map: serde_json::Map<String, serde_json::Value>) -> (value: serde_json::Value)
    ensures
        value_tree(value) == JsonTree::Object(map_members(map)),
{
    serde_json::Value::Object(map)
}

impl Json {
    /// This value in the form of `serde_json`.
    pub fn to_value(&self) -> (value: serde_json::Value)
        ensures
            value_tree(value) == self@,
        decreases self,
    {
        match self {
            Json::Null => null_value(),
            Json::Bool(b) => bool_value(*b),
            Json::Unsigned(n) => unsigned_value(*n),
            Json::Signed(n) => signed_value(*n),
            Json::Number(n) => number_value(n.clone()),
            Json::Text(s) => text_value(s.clone()),
            Json::Array(items) => {
                let mut values: Vec<serde_json::Value> = Vec::new();
                let mut i: usize = 0;
                while i < items.len()
                    invariant
                        i <= items.len(),
                        decreases_to!(self => items@),
                        value_trees(values@) == trees(items@.take(i as int)),
                    decreases items.len() - i,
                {
                    let value = items[i].to_value();
                    proof {
                        assert(value_trees(values@.push(value)) =~= value_trees(values@).push(
                            value_tree(value),
                        ));
                        assert(items@.take(i + 1).drop_last() =~= items@.take(i as int));
                    }
                    values.push(value);
                    i = i + 1;
                }
                assert(items@.take(items@.len() as int) =~= items@);
                array_value(values)
            },
            Json::Object(entries) => {
                let mut values = no_members();
                let mut i: usize = 0;
                while i < entries.len()
                    invariant
                        i <= entries.len(),
                        decreases_to!(self => entries@),
                        map_members(values) == members(entries@.take(i as int)),
                    decreases entries.len() - i,
                {
                    let value = entries[i].1.to_value();
                    assert(entries@.take(i + 1).drop_last() =~= entries@.take(i as int));
                    insert_member(&mut values, entries[i].0.clone(), value);
                    i = i + 1;
                }
                assert(entries@.take(entries@.len() as int) =~= entries@);
                object_value(values)
            },
        }
    }
}

} // verus!
