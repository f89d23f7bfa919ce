//! JSON documents as plain data, and the parser that produces them.

use vstd::prelude::*;

verus! {

/// The mathematical value of a JSON document.
pub ghost enum JsonTree {
    Null,
    Bool(bool),
    /// A number, by its decimal text.
    Number(Seq<char>),
    Text(Seq<char>),
    Array(Seq<JsonTree>),
    /// The members of an object, each a name and a value, in the order held.
    Object(Seq<(Seq<char>, JsonTree)>),
}

/// One member of a JSON object.
#[derive(Debug, PartialEq, Eq)]
pub struct Member {
    pub name: String,
    pub value: JsonValue,
}

/// A JSON document held as plain data.
#[derive(Debug, PartialEq, Eq)]
pub enum JsonValue {
    Null,
    Bool(bool),
    /// A number, by its decimal text.
    Number(String),
    Text(String),
    Array(Vec<JsonValue>),
    Object(Vec<Member>),
}

/// The documents that a sequence of values stands for.
pub open spec fn item_trees(items: Seq<JsonValue>) -> Seq<JsonTree>
    decreases items,
{
    Seq::new(
        items.len(),
        |i: int|
            if 0 <= i < items.len() {
                items[i]@
            } else {
                JsonTree::Null
            },
    )
}

/// The names and documents that a sequence of members stands for.
pub open spec fn member_trees(members: Seq<Member>) -> Seq<(Seq<char>, JsonTree)>
    decreases members,
{
    Seq::new(
        members.len(),
        |i: int|
            if 0 <= i < members.len() {
                (members[i].name@, members[i].value@)
            } else {
                (Seq::empty(), JsonTree::Null)
            },
    )
}

impl View for JsonValue {
    type V = JsonTree;

    open spec fn view(&self) -> JsonTree
        decreases self,
    {
        match self {
            JsonValue::Null => JsonTree::Null,
            JsonValue::Bool(b) => JsonTree::Bool(*b),
            JsonValue::Number(digits) => JsonTree::Number(digits@),
            JsonValue::Text(text) => JsonTree::Text(text@),
            JsonValue::Array(items) => JsonTree::Array(item_trees(items@)),
            JsonValue::Object(members) => JsonTree::Object(member_trees(members@)),
        }
    }
}

/// Whether member `i` of an object carries `name`.
pub open spec fn named(members: Seq<(Seq<char>, JsonTree)>, name: Seq<char>, i: int) -> bool {
    0 <= i < members.len() && members[i].0 == name
}

/// What an object holds under one name.
pub ghost enum Field {
    /// No member carries the name.
    Absent,
    /// Exactly one member carries the name, with this value.
    Single(JsonTree),
    /// Two or more members carry the name.
    Repeated,
}

/// What the members of an object hold under `name`.
pub open spec fn field(members: Seq<(Seq<char>, JsonTree)>, name: Seq<char>) -> Field {
    if forall|i: int| !named(members, name, i) {
        Field::Absent
    } else {
        let i = choose|i: int| named(members, name, i);
        if forall|j: int| named(members, name, j) ==> j == i {
            Field::Single(members[i].1)
        } else {
            Field::Repeated
        }
    }
}

/// Whether exactly one member of an object carries `name`, and with `value`.
pub open spec fn holds_once(
    members: Seq<(Seq<char>, JsonTree)>,
    name: Seq<char>,
    value: JsonTree,
) -> bool {
    exists|i: int|
        {
            &&& #[trigger] named(members, name, i)
            &&& members[i].1 == value
            &&& forall|j: int| named(members, name, j) ==> j == i
        }
}

/// Whether no member of an object carries `name`.
pub open spec fn holds_none(members: Seq<(Seq<char>, JsonTree)>, name: Seq<char>) -> bool {
    forall|i: int| !named(members, name, i)
}

/// A name that one member alone carries is found with that member's value.
pub proof fn lemma_field_held_once(
    members: Seq<(Seq<char>, JsonTree)>,
    name: Seq<char>,
    value: JsonTree,
)
    requires
        holds_once(members, name, value),
    ensures
        field(members, name) == Field::Single(value),
{
    let i = choose|i: int|
        {
            &&& #[trigger] named(members, name, i)
            &&& members[i].1 == value
            &&& forall|j: int| named(members, name, j) ==> j == i
        };
    let k = choose|k: int| named(members, name, k);
    assert(named(members, name, k));
    assert(k == i);
}

/// A name that no member carries is found absent.
pub proof fn lemma_field_held_by_none(members: Seq<(Seq<char>, JsonTree)>, name: Seq<char>)
    requires
        holds_none(members, name),
    ensures
        field(members, name) == Field::Absent,
{
}

/// What a lookup in an object found under one name.
#[derive(Debug, Clone, Copy, PartialEq, Eq)]
pub enum Found<'a> {
    Absent,
    Single(&'a JsonValue),
    Repeated,
}

impl<'a> View for Found<'a> {
    type V = Field;

    open spec fn view(&self) -> Field {
        match self {
            Found::Absent => Field::Absent,
            Found::Single(value) => Field::Single(value@),
            Found::Repeated => Field::Repeated,
        }
    }
}

/// Looks `name` up among the members of an object.
pub fn find<'a>(members: &'a Vec<Member>, name: &str) -> (found: Found<'a>)
    ensures
        found@ == field(member_trees(members@), name@),
{
    let ghost trees = member_trees(members@);
    let key = String::from_str(name);
    let mut first: Option<usize> = None;
    let mut repeated = false;
    let mut i: usize = 0;
    while i < members.len()
        invariant
            i <= members.len(),
            key@ == name@,
            trees == member_trees(members@),
            first is None ==> !repeated && forall|j: int| 0 <= j < i ==> !named(trees, name@, j),
            first is Some ==> first->Some_0 < i && named(trees, name@, first->Some_0 as int),
            first is Some && !repeated ==> forall|j: int|
                0 <= j < i && named(trees, name@, j) ==> j == first->Some_0,
            repeated ==> exists|j: int|
                0 <= j < i && named(trees, name@, j) && j != first->Some_0,
        decreases members.len() - i,
    {
        if members[i].name == key {
            assert(named(trees, name@, i as int));
            if first.is_some() {
                repeated = true;
            } else {
                first = Some(i);
            }
        }
        i += 1;
    }
    match first {
        None => Found::Absent,
        Some(k) => {
            if repeated {
                Found::Repeated
            } else {
                assert(named(trees, name@, k as int));
                assert(forall|j: int| named(trees, name@, j) ==> j == k);
                Found::Single(&members[k].value)
            }
        },
    }
}

/// The string that an object holds under `name`: `None` unless exactly one
/// member carries the name and its value is a string.
pub open spec fn required_text(members: Seq<(Seq<char>, JsonTree)>, name: Seq<char>) -> Option<
    Seq<char>,
> {
    match field(members, name) {
        Field::Single(JsonTree::Text(text)) => Some(text),
        _ => None,
    }
}

/// The string that an object may hold under `name`. A missing member and a
/// null both stand for no string; `None` where the name is repeated or its
/// value is neither a string nor null.
pub open spec fn optional_text(members: Seq<(Seq<char>, JsonTree)>, name: Seq<char>) -> Option<
    Option<Seq<char>>,
> {
    match field(members, name) {
        Field::Absent => Some(None),
        Field::Single(JsonTree::Null) => Some(None),
        Field::Single(JsonTree::Text(text)) => Some(Some(text)),
        _ => None,
    }
}

/// Reads the string that an object must hold under `name`.
pub fn read_required_text(members: &Vec<Member>, name: &str) -> (r: Option<String>)
    ensures
        r.deep_view() == required_text(member_trees(members@), name@),
{
    match find(members, name) {
        Found::Single(value) => match value {
            JsonValue::Text(text) => Some(text.clone()),
            _ => None,
        },
        _ => None,
    }
}

/// Reads the string that an object may hold under `name`.
pub fn read_optional_text(members: &Vec<Member>, name: &str) -> (r: Option<Option<String>>)
    ensures
        r.deep_view() == optional_text(member_trees(members@), name@),
{
    match find(members, name) {
        Found::Absent => Some(None),
        Found::Single(value) => match value {
            JsonValue::Null => Some(None),
            JsonValue::Text(text) => Some(Some(text.clone())),
            _ => None,
        },
        Found::Repeated => None,
    }
}

/// `serde_json::Error`, carried and never read.
#[verifier::external_type_specification]
#[verifier::external_body]
pub struct ExJsonError(serde_json::Error);

/// `serde_json::Value`, the parser's own tree of a document.
#[verifier::external_type_specification]
#[verifier::external_body]
pub struct ExJsonDocument(serde_json::Value);

/// What `serde_json::from_slice` makes of a body read as one JSON value:
/// `None` where it reports an error. Which bytes give which document is the
/// parser's business and is stated nowhere here.
pub uninterp spec fn json_document(body: Seq<u8>) -> Option<JsonTree>;

/// What a `serde_json::Value` holds: null, a boolean, a number by the text
/// that `serde_json::Number` prints, a string, the items of an array in
/// order, or the members of an object in the order in which its map yields
/// them.
pub uninterp spec fn value_tree(value: serde_json::Value) -> JsonTree;

/// Calls `serde_json::from_slice` at the type `serde_json::Value`. Trusted:
/// the outcome depends on the bytes alone; it is `Ok` exactly where the
/// bytes have a document, and the value then holds that document.
#[verifier::external_body]
fn from_slice(body: &[u8]) -> (r: Result<serde_json::Value, serde_json::Error>)
    ensures
        r is Ok <==> json_document(body@) is Some,
        r is Ok ==> value_tree(r->Ok_0) == json_document(body@)->Some_0,
{
    serde_json::from_slice::<serde_json::Value>(body)
}

/// Moves a `serde_json::Value` into a `JsonValue`, variant by variant, with
/// `Number::to_string` for a number. Trusted: the result stands for what the
/// value holds.
#[verifier::external_body]
fn lift(value: serde_json::Value) -> (r: JsonValue)
    ensures
        r@ == value_tree(value),
{
    match value {
        serde_json::Value::Null => JsonValue::Null,
        serde_json::Value::Bool(b) => JsonValue::Bool(b),
        serde_json::Value::Number(n) => JsonValue::Number(n.to_string()),
        serde_json::Value::String(text) => JsonValue::Text(text),
        serde_json::Value::Array(items) => JsonValue::Array(items.into_iter().map(lift).collect()),
        serde_json::Value::Object(map) => JsonValue::Object(
            map.into_iter().map(|(name, value)| Member { name, value: lift(value) }).collect(),
        ),
    }
}

/// Reads a body as one JSON document.
pub fn parse_document(body: &[u8]) -> (r: Option<JsonValue>)
    ensures
        r is Some <==> json_document(body@) is Some,
        r is Some ==> r->Some_0@ == json_document(body@)->Some_0,
{
    match from_slice(body) {
        Ok(value) => Some(lift(value)),
        Err(_) => None,
    }
}

} // verus!
