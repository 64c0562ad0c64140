//! JSON documents as plain values.
use crate::text;
use vstd::prelude::*;

verus! {

/// A number of a JSON document: its value where it fits in an unsigned or in a signed
/// 64-bit integer, and its notation.
#[derive(Debug)]
pub struct JsonNumber {
    pub unsigned: Option<u64>,
    pub signed: Option<i64>,
    pub notation: String,
}

/// A JSON document.
#[derive(Debug)]
pub enum JsonValue {
    Null,
    Bool(bool),
    Number(JsonNumber),
    Str(String),
    Array(Vec<JsonValue>),
    /// The members in the order in which they are kept.
    Object(Vec<(String, JsonValue)>),
}

/// What a JSON number is.
pub struct NumberTree {
    pub unsigned: Option<u64>,
    pub signed: Option<i64>,
    pub notation: Seq<char>,
}

/// What a JSON document is.
pub enum JsonTree {
    Null,
    Bool(bool),
    Number(NumberTree),
    Str(Seq<char>),
    Array(Seq<JsonTree>),
    Object(Seq<(Seq<char>, JsonTree)>),
}

impl View for JsonNumber {
    type V = NumberTree;

    open spec fn view(&self) -> NumberTree {
        NumberTree {
            unsigned: self.unsigned,
            signed: self.signed,
            notation: self.notation@,
        }
    }
}

impl JsonValue {
    /// The document that the value holds.
    pub open spec fn tree(self) -> JsonTree
        decreases self,
    {
        match self {
            JsonValue::Null => JsonTree::Null,
            JsonValue::Bool(b) => JsonTree::Bool(b),
            JsonValue::Number(n) => JsonTree::Number(n@),
            JsonValue::Str(s) => JsonTree::Str(s@),
            JsonValue::Array(a) => JsonTree::Array(
                Seq::new(
                    a@.len(),
                    |i: int|
                        if 0 <= i < a@.len() {
                            a@[i].tree()
                        } else {
                            JsonTree::Null
                        },
                ),
            ),
            JsonValue::Object(m) => JsonTree::Object(
                Seq::new(
                    m@.len(),
                    |i: int|
                        if 0 <= i < m@.len() {
                            (m@[i].0@, m@[i].1.tree())
                        } else {
                            (seq![], JsonTree::Null)
                        },
                ),
            ),
        }
    }
}

impl View for JsonValue {
    type V = JsonTree;

    open spec fn view(&self) -> JsonTree {
        self.tree()
    }
}

/// `serde_json::Value`, a parsed document.
#[verifier::external_type_specification]
#[verifier::external_body]
pub struct ExValue(serde_json::Value);

/// `serde_json::Number`, a number of a parsed document.
#[verifier::external_type_specification]
#[verifier::external_body]
pub struct ExNumber(serde_json::Number);

/// `serde_json::Map`, the members of an object of a parsed document.
#[verifier::external_type_specification]
#[verifier::external_body]
#[verifier::reject_recursive_types(K)]
#[verifier::reject_recursive_types(V)]
pub struct ExMap<K, V>(serde_json::Map<K, V>);

/// The document that a `serde_json::Value` holds.
pub uninterp spec fn value_tree(value: serde_json::Value) -> JsonTree;

/// What `serde_json::Number::as_u64` answers.
pub uninterp spec fn number_as_u64(number: serde_json::Number) -> Option<u64>;

/// What `serde_json::Number::as_i64` answers.
pub uninterp spec fn number_as_i64(number: serde_json::Number) -> Option<i64>;

/// The words of a `serde_json::Number`.
pub uninterp spec fn number_text(number: serde_json::Number) -> Seq<char>;

/// The members that a `serde_json::Map` holds, in the order in which it is walked.
pub uninterp spec fn map_members(
    map: serde_json::Map<String, serde_json::Value>,
) -> Seq<(Seq<char>, serde_json::Value)>;

/// What `serde_json::from_reader` makes of a text: the document, or the words of the error.
pub uninterp spec fn document(content: Seq<u8>) -> Result<JsonTree, Seq<char>>;

/// The topmost level of a `serde_json::Value`.
enum JsonNode<'a> {
    Null,
    Bool(bool),
    Number(&'a serde_json::Number),
    Str(&'a String),
    Array(&'a Vec<serde_json::Value>),
    Object(&'a serde_json::Map<String, serde_json::Value>),
}

/// What a number of a parsed document is.
spec fn number_tree(number: serde_json::Number) -> NumberTree {
    NumberTree {
        unsigned: number_as_u64(number),
        signed: number_as_i64(number),
        notation: number_text(number),
    }
}

/// The documents of the members.
spec fn member_trees(members: Seq<(Seq<char>, serde_json::Value)>) -> Seq<(Seq<char>, JsonTree)> {
    members.map_values(|e: (Seq<char>, serde_json::Value)| (e.0, value_tree(e.1)))
}

/// The document of a node.
spec fn node_tree(node: JsonNode) -> JsonTree {
    match node {
        JsonNode::Null => JsonTree::Null,
        JsonNode::Bool(b) => JsonTree::Bool(b),
        JsonNode::Number(n) => JsonTree::Number(number_tree(*n)),
        JsonNode::Str(s) => JsonTree::Str(s@),
        JsonNode::Array(a) => JsonTree::Array(a@.map_values(|v: serde_json::Value| value_tree(v))),
        JsonNode::Object(m) => JsonTree::Object(member_trees(map_members(*m))),
    }
}

/// Tells the variants of `serde_json::Value` apart. The document of the value is the
/// scalar that it holds, the documents of its elements, or those of its members with
/// their names.
#[verifier::external_body]
fn value_node<'a>(value: &'a serde_json::Value) -> (r: JsonNode<'a>)
    ensures
        node_tree(r) == value_tree(*value),
{
    match value {
        serde_json::Value::Null => JsonNode::Null,
        serde_json::Value::Bool(b) => JsonNode::Bool(*b),
        serde_json::Value::Number(n) => JsonNode::Number(n),
        serde_json::Value::String(s) => JsonNode::Str(s),
        serde_json::Value::Array(a) => JsonNode::Array(a),
        serde_json::Value::Object(m) => JsonNode::Object(m),
    }
}

/// Calls `serde_json::Number::as_u64`.
#[verifier::external_body]
fn number_unsigned(number: &serde_json::Number) -> (r: Option<u64>)
    ensures
        r == number_as_u64(*number),
{
    number.as_u64()
}

/// Calls `serde_json::Number::as_i64`.
#[verifier::external_body]
fn number_signed(number: &serde_json::Number) -> (r: Option<i64>)
    ensures
        r == number_as_i64(*number),
{
    number.as_i64()
}

/// Calls `to_string` of `serde_json::Number`.
#[verifier::external_body]
fn number_notation(number: &serde_json::Number) -> (r: String)
    ensures
        r@ == number_text(*number),
{
    number.to_string()
}

/// The names and values of the members.
spec fn entry_views(entries: Seq<(&String, &serde_json::Value)>) -> Seq<
    (Seq<char>, serde_json::Value),
> {
    entries.map_values(|e: (&String, &serde_json::Value)| (e.0@, *e.1))
}

/// Calls `serde_json::Map::iter`: each member with its name, in the order of the walk.
#[verifier::external_body]
fn map_entries<'a>(map: &'a serde_json::Map<String, serde_json::Value>) -> (r: Vec<
    (&'a String, &'a serde_json::Value),
>)
    ensures
        entry_views(r@) == map_members(*map),
{
    map.iter().collect()
}

/// Calls `serde_json::from_reader` on the bytes for a `serde_json::Value`. The result is the
/// document that the bytes spell, or the words of the error that is reported for them.
#[verifier::external_body]
fn value_from_reader(content: &[u8]) -> (r: Result<serde_json::Value, String>)
    ensures
        r is Ok <==> document(content@) is Ok,
        r matches Ok(v) ==> value_tree(v) == document(content@)->Ok_0,
        r matches Err(e) ==> e@ == document(content@)->Err_0,
{
    serde_json::from_reader(content).map_err(|e| e.to_string())
}

/// The plain value of a `serde_json::Value`.
fn plain_value(value: &serde_json::Value) -> (r: JsonValue)
    ensures
        r@ == value_tree(*value),
    decreases value_tree(*value),
{
    match value_node(value) {
        JsonNode::Null => JsonValue::Null,
        JsonNode::Bool(b) => JsonValue::Bool(b),
        JsonNode::Number(n) => JsonValue::Number(
            JsonNumber {
                unsigned: number_unsigned(n),
                signed: number_signed(n),
                notation: number_notation(n),
            },
        ),
        JsonNode::Str(s) => JsonValue::Str(s.clone()),
        JsonNode::Array(a) => {
            let ghost trees = a@.map_values(|v: serde_json::Value| value_tree(v));
            let mut out: Vec<JsonValue> = Vec::new();
            let mut i: usize = 0;
            while i < a.len()
                invariant
                    i <= a@.len(),
                    out@.len() == i,
                    value_tree(*value) == JsonTree::Array(trees),
                    trees == a@.map_values(|v: serde_json::Value| value_tree(v)),
                    forall|j: int| 0 <= j < i ==> (#[trigger] out@[j]).tree() == trees[j],
                decreases a@.len() - i,
            {
                assert(trees[i as int] == value_tree(a@[i as int]));
                assert(decreases_to!(value_tree(*value) => value_tree(*value)->Array_0));
                assert(decreases_to!(trees => trees[i as int]));
                out.push(plain_value(&a[i]));
                i = i + 1;
            }
            let r = JsonValue::Array(out);
            assert(r.tree()->Array_0 =~= trees);
            r
        },
        JsonNode::Object(map) => {
            let m = map_entries(map);
            let ghost trees = member_trees(entry_views(m@));
            let mut out: Vec<(String, JsonValue)> = Vec::new();
            let mut i: usize = 0;
            while i < m.len()
                invariant
                    i <= m@.len(),
                    out@.len() == i,
                    value_tree(*value) == JsonTree::Object(trees),
                    trees == member_trees(entry_views(m@)),
                    forall|j: int|
                        0 <= j < i ==> (#[trigger] out@[j]).0@ == trees[j].0 && out@[j].1.tree()
                            == trees[j].1,
                decreases m@.len() - i,
            {
                let (name, member) = m[i];
                assert(trees[i as int] == (name@, value_tree(*member)));
                assert(decreases_to!(value_tree(*value) => value_tree(*value)->Object_0));
                assert(decreases_to!(trees => trees[i as int]));
                assert(decreases_to!(trees[i as int] => trees[i as int].1));
                out.push((name.clone(), plain_value(member)));
                i = i + 1;
            }
            let r = JsonValue::Object(out);
            assert(r.tree()->Object_0 =~= trees);
            r
        },
    }
}

/// Parses a JSON text.
pub fn parse(content: &[u8]) -> (r: Result<JsonValue, String>)
    ensures
        r is Ok <==> document(content@) is Ok,
        r matches Ok(v) ==> v@ == document(content@)->Ok_0,
        r matches Err(e) ==> e@ == document(content@)->Err_0,
{
    match value_from_reader(content) {
        Ok(value) => Ok(plain_value(&value)),
        Err(e) => Err(e),
    }
}

/// The first member of the given name.
pub open spec fn member_in(members: Seq<(Seq<char>, JsonTree)>, name: Seq<char>) -> Option<JsonTree>
    decreases members.len(),
{
    if members.len() == 0 {
        None
    } else if members[0].0 == name {
        Some(members[0].1)
    } else {
        member_in(members.skip(1), name)
    }
}

/// A member of another name leaves the member of a name as it is, wherever it stands.
pub proof fn other_member_is_kept(
    before: Seq<(Seq<char>, JsonTree)>,
    name: Seq<char>,
    value: JsonTree,
    after: Seq<(Seq<char>, JsonTree)>,
    other: Seq<char>,
)
    requires
        name != other,
    ensures
        member_in(before.push((name, value)) + after, other) == member_in(before + after, other),
    decreases before.len(),
{
    let more = before.push((name, value)) + after;
    let less = before + after;
    if before.len() == 0 {
        assert(more.skip(1) =~= less);
    } else {
        assert(more.skip(1) =~= before.skip(1).push((name, value)) + after);
        assert(less.skip(1) =~= before.skip(1) + after);
        assert(more[0] == before[0] && less[0] == before[0]);
        other_member_is_kept(before.skip(1), name, value, after, other);
    }
}

/// The member of an object; nothing else has members.
pub open spec fn member(t: JsonTree, name: Seq<char>) -> Option<JsonTree> {
    match t {
        JsonTree::Object(members) => member_in(members, name),
        _ => None,
    }
}

impl JsonValue {
    /// The member of the given name, if the value is an object that has one.
    pub fn get(&self, name: &str) -> (r: Option<&JsonValue>)
        ensures
            r is Some <==> member(self@, name@) is Some,
            r matches Some(v) ==> v@ == member(self@, name@)->0,
    {
        match self {
            JsonValue::Object(m) => {
                let ghost members = self.tree()->Object_0;
                let mut i: usize = 0;
                assert(members.skip(0) =~= members);
                while i < m.len()
                    invariant
                        i <= m@.len(),
                        members.len() == m@.len(),
                        forall|j: int|
                            0 <= j < m@.len() ==> #[trigger] members[j] == (
                                m@[j].0@,
                                m@[j].1.tree(),
                            ),
                        self@ == JsonTree::Object(members),
                        member_in(members, name@) == member_in(members.skip(i as int), name@),
                    decreases m@.len() - i,
                {
                    let ghost rest = members.skip(i as int);
                    assert(rest[0] == members[i as int]);
                    assert(rest.skip(1) =~= members.skip(i + 1));
                    if text::str_eq(m[i].0.as_str(), name) {
                        return Some(&m[i].1);
                    }
                    i = i + 1;
                }
                None
            },
            _ => None,
        }
    }

    /// The member of the given name, taken out of the value, if it is an object that has one.
    pub fn take(self, name: &str) -> (r: Option<JsonValue>)
        ensures
            r is Some <==> member(self@, name@) is Some,
            r matches Some(v) ==> v@ == member(self@, name@)->0,
    {
        let ghost whole = self@;
        match self {
            JsonValue::Object(mut m) => {
                let ghost members = whole->Object_0;
                let mut i: usize = 0;
                assert(members.skip(0) =~= members);
                while i < m.len()
                    invariant
                        i <= m@.len(),
                        members.len() == m@.len(),
                        forall|j: int|
                            0 <= j < m@.len() ==> #[trigger] members[j] == (
                                m@[j].0@,
                                m@[j].1.tree(),
                            ),
                        whole == JsonTree::Object(members),
                        whole == self@,
                        member_in(members, name@) == member_in(members.skip(i as int), name@),
                    decreases m@.len() - i,
                {
                    let ghost rest = members.skip(i as int);
                    assert(rest[0] == members[i as int]);
                    assert(rest.skip(1) =~= members.skip(i + 1));
                    if text::str_eq(m[i].0.as_str(), name) {
                        return Some(m.remove(i).1);
                    }
                    i = i + 1;
                }
                None
            },
            _ => None,
        }
    }

    /// The elements of an array.
    pub fn into_array(self) -> (r: Option<Vec<JsonValue>>)
        ensures
            r is Some <==> self@ is Array,
            r matches Some(a) ==> JsonTree::Array(trees(a@)) == self@,
    {
        let ghost whole = self@;
        match self {
            JsonValue::Array(a) => {
                assert(whole->Array_0 =~= trees(a@));
                Some(a)
            },
            _ => None,
        }
    }
}

/// The documents that the values hold.
pub open spec fn trees(values: Seq<JsonValue>) -> Seq<JsonTree> {
    values.map_values(|v: JsonValue| v@)
}

/// The member of a name is the first one that has it; there is none exactly if no member has
/// the name.
pub proof fn member_is_the_first(members: Seq<(Seq<char>, JsonTree)>, name: Seq<char>)
    ensures
        match member_in(members, name) {
            Some(v) => exists|i: int|
                #![trigger members[i]]
                0 <= i < members.len() && members[i] == (name, v) && forall|j: int|
                    0 <= j < i ==> (#[trigger] members[j]).0 != name,
            None => forall|j: int| 0 <= j < members.len() ==> (#[trigger] members[j]).0 != name,
        },
    decreases members.len(),
{
    if members.len() > 0 {
        if members[0].0 == name {
            assert(members[0] == (name, members[0].1));
        } else {
            let rest = members.skip(1);
            member_is_the_first(rest, name);
            match member_in(rest, name) {
                Some(v) => {
                    let i = choose|i: int|
                        #![trigger rest[i]]
                        0 <= i < rest.len() && rest[i] == (name, v) && forall|j: int|
                            0 <= j < i ==> (#[trigger] rest[j]).0 != name;
                    assert(members[i + 1] == rest[i]);
                    assert forall|j: int| 0 <= j < i + 1 implies (#[trigger] members[j]).0
                        != name by {
                        if j > 0 {
                            assert(rest[j - 1] == members[j]);
                        }
                    }
                },
                None => {
                    assert forall|j: int| 0 <= j < members.len() implies (#[trigger] members[j]).0
                        != name by {
                        if j > 0 {
                            assert(rest[j - 1] == members[j]);
                        }
                    }
                },
            }
        }
    }
}

/// Only an object has members, and it has those that it lists.
pub proof fn only_objects_have_members(t: JsonTree, name: Seq<char>)
    ensures
        member(t, name) is Some ==> t is Object,
        t matches JsonTree::Object(members) ==> member(t, name) == member_in(members, name),
{
}

/// What a value is shows in what it holds: a scalar as it is, the elements of a list and the
/// members of an object in their order.
pub proof fn value_shows_what_it_holds(
    b: bool,
    n: JsonNumber,
    s: String,
    a: Vec<JsonValue>,
    m: Vec<(String, JsonValue)>,
)
    ensures
        JsonValue::Null@ == JsonTree::Null,
        JsonValue::Bool(b)@ == JsonTree::Bool(b),
        JsonValue::Number(n)@ == JsonTree::Number(n@),
        n@.unsigned == n.unsigned,
        n@.signed == n.signed,
        n@.notation == n.notation@,
        JsonValue::Str(s)@ == JsonTree::Str(s@),
        JsonValue::Array(a)@ matches JsonTree::Array(elements) && elements.len() == a@.len()
            && forall|i: int| 0 <= i < a@.len() ==> #[trigger] elements[i] == a@[i]@,
        JsonValue::Object(m)@ matches JsonTree::Object(members) && members.len() == m@.len()
            && forall|i: int|
            0 <= i < m@.len() ==> #[trigger] members[i] == (m@[i].0@, m@[i].1@),
{
}

} // verus!
