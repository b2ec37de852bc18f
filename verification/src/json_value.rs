use vstd::prelude::*;

use crate::json::{json_quoted, json_string};
use crate::text::same_text;

verus! {

/// A JSON document as the library reads it. A number keeps the decimal text
/// that the JSON reader printed for it; an object keeps its members in order.
#[derive(Debug)]
pub enum JsonValue {
    Null,
    Bool(bool),
    Number(String),
    String(String),
    Array(Vec<JsonValue>),
    Object(Vec<(String, JsonValue)>),
}

/// A JSON text that could not be read.
#[derive(Debug, Clone, Copy, PartialEq, Eq, Structural)]
pub struct MalformedJson;

/// Nesting depth: 0 for a scalar, one more than the deepest member for an
/// array or object (1 when empty).
pub open spec fn json_depth(v: JsonValue) -> nat
    decreases v, 0nat,
{
    match v {
        JsonValue::Array(items) => 1 + items_depth(items@, items@.len()),
        JsonValue::Object(members) => 1 + members_depth(members@, members@.len()),
        _ => 0,
    }
}

/// The deepest of the first `n` items (0 when `n` is 0).
pub open spec fn items_depth(items: Seq<JsonValue>, n: nat) -> nat
    decreases items, n,
{
    if n == 0 || n > items.len() {
        0
    } else {
        let rest = items_depth(items, (n - 1) as nat);
        let here = json_depth(items[n - 1]);
        if here > rest {
            here
        } else {
            rest
        }
    }
}

/// The deepest of the first `n` member values (0 when `n` is 0).
pub open spec fn members_depth(members: Seq<(String, JsonValue)>, n: nat) -> nat
    decreases members, n,
{
    if n == 0 || n > members.len() {
        0
    } else {
        let rest = members_depth(members, (n - 1) as nat);
        let here = json_depth(members[n - 1].1);
        if here > rest {
            here
        } else {
            rest
        }
    }
}

/// The deepest nesting level reached below a value held at depth `current`:
/// `current` for a scalar, and one level more per array or object entered.
pub fn json_max_depth(value: &JsonValue, current: usize) -> (depth: usize)
    requires
        current + json_depth(*value) <= usize::MAX,
    ensures
        depth == current + json_depth(*value),
    decreases *value,
{
    match value {
        JsonValue::Array(items) => {
            let mut deepest: usize = 0;
            let mut index: usize = 0;
            while index < items.len()
                invariant
                    0 <= index <= items@.len(),
                    *value == JsonValue::Array(*items),
                    current + json_depth(*value) <= usize::MAX,
                    deepest == items_depth(items@, index as nat),
                decreases items.len() - index,
            {
                proof {
                    lemma_items_depth_bound(items@, (index + 1) as nat, items@.len());
                    assert(decreases_to!(*value => *items));
                    assert(decreases_to!(*items => items[index as int]));
                }
                let here = json_max_depth(&items[index], current + 1) - (current + 1);
                if here > deepest {
                    deepest = here;
                }
                index = index + 1;
            }
            current + 1 + deepest
        },
        JsonValue::Object(members) => {
            let mut deepest: usize = 0;
            let mut index: usize = 0;
            while index < members.len()
                invariant
                    0 <= index <= members@.len(),
                    *value == JsonValue::Object(*members),
                    current + json_depth(*value) <= usize::MAX,
                    deepest == members_depth(members@, index as nat),
                decreases members.len() - index,
            {
                proof {
                    lemma_members_depth_bound(members@, (index + 1) as nat, members@.len());
                    assert(decreases_to!(*value => *members));
                    assert(decreases_to!(*members => members[index as int]));
                }
                let here = json_max_depth(&members[index].1, current + 1) - (current + 1);
                if here > deepest {
                    deepest = here;
                }
                index = index + 1;
            }
            current + 1 + deepest
        },
        _ => current,
    }
}

/// The deepest of a prefix is at most the deepest of a longer prefix.
proof fn lemma_items_depth_bound(items: Seq<JsonValue>, n: nat, m: nat)
    requires
        n <= m <= items.len(),
    ensures
        items_depth(items, n) <= items_depth(items, m),
        n > 0 ==> json_depth(items[n - 1]) <= items_depth(items, m),
    decreases m - n,
{
    if n < m {
        lemma_items_depth_bound(items, n, (m - 1) as nat);
        if n > 0 {
            lemma_items_depth_bound(items, n, (m - 1) as nat);
        }
    }
}

/// The deepest of a prefix is at most the deepest of a longer prefix.
proof fn lemma_members_depth_bound(members: Seq<(String, JsonValue)>, n: nat, m: nat)
    requires
        n <= m <= members.len(),
    ensures
        members_depth(members, n) <= members_depth(members, m),
        n > 0 ==> json_depth(members[n - 1].1) <= members_depth(members, m),
    decreases m - n,
{
    if n < m {
        lemma_members_depth_bound(members, n, (m - 1) as nat);
    }
}

/// The index of the first member named `key`, if any.
pub open spec fn member_index(members: Seq<(String, JsonValue)>, key: Seq<char>) -> Option<int>
    decreases members.len(),
{
    if members.len() == 0 {
        None
    } else if members[0].0@ == key {
        Some(0)
    } else {
        match member_index(members.drop_first(), key) {
            Some(i) => Some(i + 1),
            None => None,
        }
    }
}

/// The value of the first member named `key`, if any.
pub open spec fn member_value(members: Seq<(String, JsonValue)>, key: Seq<char>) -> Option<JsonValue> {
    match member_index(members, key) {
        Some(i) => Some(members[i].1),
        None => None,
    }
}

/// Where `member_index` points.
pub proof fn lemma_member_index(members: Seq<(String, JsonValue)>, key: Seq<char>)
    ensures
        member_index(members, key) is Some ==> ({
            let i = member_index(members, key)->0;
            &&& 0 <= i < members.len()
            &&& members[i].0@ == key
            &&& forall|j: int| 0 <= j < i ==> members[j].0@ != key
        }),
        member_index(members, key) is None ==> forall|j: int|
            0 <= j < members.len() ==> members[j].0@ != key,
    decreases members.len(),
{
    if members.len() > 0 {
        lemma_member_index(members.drop_first(), key);
        if members[0].0@ != key {
            assert forall|j: int| 1 <= j < members.len() implies members[j] == members.drop_first()[j
                - 1] by {}
        }
    }
}

/// The value of the first member of `members` named `key`.
pub fn find_member<'a>(members: &'a Vec<(String, JsonValue)>, key: &str) -> (r: Option<&'a JsonValue>)
    ensures
        r is Some <==> member_value(members@, key@) is Some,
        r is Some ==> *r->0 == member_value(members@, key@)->0,
{
    proof {
        lemma_member_index(members@, key@);
    }
    let mut index: usize = 0;
    while index < members.len()
        invariant
            0 <= index <= members@.len(),
            forall|j: int| 0 <= j < index ==> members@[j].0@ != key@,
        decreases members.len() - index,
    {
        if same_text(members[index].0.as_str(), key) {
            proof {
                lemma_member_index(members@, key@);
                let i = member_index(members@, key@);
                assert(members@[index as int].0@ == key@);
                if i is Some {
                    if i->0 < index {
                        assert(members@[i->0].0@ != key@);
                    } else if i->0 > index {
                        assert(members@[index as int].0@ != key@);
                    }
                }
            }
            return Some(&members[index].1);
        }
        index = index + 1;
    }
    None
}

impl JsonValue {
    /// The members of an object.
    pub fn as_object(&self) -> (r: Option<&Vec<(String, JsonValue)>>)
        ensures
            r is Some <==> *self is Object,
            r is Some ==> *self == JsonValue::Object(*r->0),
    {
        match self {
            JsonValue::Object(members) => Some(members),
            _ => None,
        }
    }

    /// The text of a string.
    pub fn as_str(&self) -> (r: Option<&str>)
        ensures
            r is Some <==> *self is String,
            r is Some ==> r->0@ == self->String_0@,
    {
        match self {
            JsonValue::String(text) => Some(text.as_str()),
            _ => None,
        }
    }

    /// The value of the member named `key`, for an object.
    pub fn get(&self, key: &str) -> (r: Option<&JsonValue>)
        ensures
            !(*self is Object) ==> r is None,
            *self is Object ==> (r is Some <==> member_value(self->Object_0@, key@) is Some),
            (*self is Object && r is Some) ==> *r->0 == member_value(self->Object_0@, key@)->0,
    {
        match self {
            JsonValue::Object(members) => find_member(members, key),
            _ => None,
        }
    }
}

// ---------------------------------------------------------------------------
// Compact JSON text
// ---------------------------------------------------------------------------

/// The compact JSON text of a value, members in the order they are held.
pub open spec fn json_text(v: JsonValue) -> Seq<char>
    decreases v, 0nat,
{
    match v {
        JsonValue::Null => "null"@,
        JsonValue::Bool(b) => if b {
            "true"@
        } else {
            "false"@
        },
        JsonValue::Number(n) => n@,
        JsonValue::String(s) => json_quoted(s@),
        JsonValue::Array(items) => "["@ + items_text(items@, items@.len()) + "]"@,
        JsonValue::Object(members) => "{"@ + members_text(members@, members@.len()) + "}"@,
    }
}

/// The first `n` items, separated by commas.
pub open spec fn items_text(items: Seq<JsonValue>, n: nat) -> Seq<char>
    decreases items, n,
{
    if n == 0 || n > items.len() {
        Seq::empty()
    } else if n == 1 {
        json_text(items[0])
    } else {
        items_text(items, (n - 1) as nat) + ","@ + json_text(items[n - 1])
    }
}

/// The first `n` members as `"name":value`, separated by commas.
pub open spec fn members_text(members: Seq<(String, JsonValue)>, n: nat) -> Seq<char>
    decreases members, n,
{
    if n == 0 || n > members.len() {
        Seq::empty()
    } else if n == 1 {
        json_quoted(members[0].0@) + ":"@ + json_text(members[0].1)
    } else {
        members_text(members, (n - 1) as nat) + ","@ + json_quoted(members[n - 1].0@) + ":"@
            + json_text(members[n - 1].1)
    }
}

/// Writes the compact JSON text of a value.
pub fn write_json(value: &JsonValue) -> (text: String)
    ensures
        text@ == json_text(*value),
    decreases *value,
{
    match value {
        JsonValue::Null => String::from_str("null"),
        JsonValue::Bool(b) => if *b {
            String::from_str("true")
        } else {
            String::from_str("false")
        },
        JsonValue::Number(n) => n.clone(),
        JsonValue::String(s) => json_string(s.as_str()),
        JsonValue::Array(items) => {
            let mut text = String::from_str("[");
            let mut index: usize = 0;
            while index < items.len()
                invariant
                    0 <= index <= items@.len(),
                    *value == JsonValue::Array(*items),
                    text@ == "["@ + items_text(items@, index as nat),
                decreases items.len() - index,
            {
                proof {
                    assert(json_text(*value) == "["@ + items_text(items@, items@.len()) + "]"@);
                    assert(decreases_to!(*value => *items));
                    assert(decreases_to!(*items => items[index as int]));
                }
                if index > 0 {
                    text.append(",");
                }
                let item = write_json(&items[index]);
                text.append(item.as_str());
                proof {
                    if index == 0 {
                        assert(items_text(items@, 0) =~= Seq::<char>::empty());
                        assert(text@ =~= "["@ + items_text(items@, 1));
                    } else {
                        assert(text@ =~= "["@ + items_text(items@, (index + 1) as nat));
                    }
                }
                index = index + 1;
            }
            text.append("]");
            text
        },
        JsonValue::Object(members) => {
            let mut text = String::from_str("{");
            let mut index: usize = 0;
            while index < members.len()
                invariant
                    0 <= index <= members@.len(),
                    *value == JsonValue::Object(*members),
                    text@ == "{"@ + members_text(members@, index as nat),
                decreases members.len() - index,
            {
                proof {
                    assert(json_text(*value) == "{"@ + members_text(members@, members@.len()) + "}"@);
                    assert(decreases_to!(*value => *members));
                    assert(decreases_to!(*members => members[index as int]));
                }
                if index > 0 {
                    text.append(",");
                }
                let name = json_string(members[index].0.as_str());
                text.append(name.as_str());
                text.append(":");
                let item = write_json(&members[index].1);
                text.append(item.as_str());
                proof {
                    if index == 0 {
                        assert(members_text(members@, 0) =~= Seq::<char>::empty());
                        assert(text@ =~= "{"@ + members_text(members@, 1));
                    } else {
                        assert(text@ =~= "{"@ + members_text(members@, (index + 1) as nat));
                    }
                }
                index = index + 1;
            }
            text.append("}");
            text
        },
    }
}

} // verus!
