//! JSON values as plain data, and the mathematical values they stand for.

use vstd::prelude::*;
use crate::text::same_text;

verus! {

/// A JSON number: an unsigned integer, a signed integer, or the bit pattern
/// of a binary64 value. The library reads integers and carries bit patterns
/// through untouched.
#[derive(Debug, Clone, Copy, PartialEq, Eq, Structural)]
pub enum JsonNumber {
    PosInt(u64),
    NegInt(i64),
    Float(u64),
}

/// A JSON value. An object keeps its members in the order they were given;
/// the first member of a name is the one that counts.
#[derive(Debug, PartialEq, Eq)]
pub enum JsonValue {
    Null,
    Bool(bool),
    Number(JsonNumber),
    String(String),
    Array(Vec<JsonValue>),
    Object(Vec<(String, JsonValue)>),
}

/// The mathematical value that a `JsonValue` stands for.
#[verifier::ext_equal]
pub enum Json {
    Null,
    Bool(bool),
    Number(JsonNumber),
    String(Seq<char>),
    Array(Seq<Json>),
    Object(Seq<(Seq<char>, Json)>),
}

/// The values that a run of `JsonValue`s stands for.
pub open spec fn items_view(items: Seq<JsonValue>) -> Seq<Json> {
    Seq::new(items.len(), |i: int| items[i]@)
}

/// The members that a run of named `JsonValue`s stands for.
pub open spec fn members_view(members: Seq<(String, JsonValue)>) -> Seq<(Seq<char>, Json)> {
    Seq::new(members.len(), |i: int| (members[i].0@, members[i].1@))
}

/// The value that an optional `JsonValue` stands for.
pub open spec fn option_view(value: Option<JsonValue>) -> Option<Json> {
    match value {
        Some(v) => Some(v@),
        None => None,
    }
}

/// The first member of `members` that is called `name`.
pub open spec fn find_member(members: Seq<(Seq<char>, Json)>, name: Seq<char>) -> Option<Json>
    decreases members.len(),
{
    if members.len() == 0 {
        None
    } else if members[0].0 == name {
        Some(members[0].1)
    } else {
        find_member(members.drop_first(), name)
    }
}

/// What is left of `members` once the first member called `name` is taken out.
pub open spec fn without_member(members: Seq<(Seq<char>, Json)>, name: Seq<char>) -> Seq<
    (Seq<char>, Json),
>
    decreases members.len(),
{
    if members.len() == 0 {
        members
    } else if members[0].0 == name {
        members.drop_first()
    } else {
        seq![members[0]] + without_member(members.drop_first(), name)
    }
}

/// The mathematical value that `value` stands for.
pub open spec fn json_of(value: JsonValue) -> Json
    decreases value,
{
    match value {
        JsonValue::Null => Json::Null,
        JsonValue::Bool(b) => Json::Bool(b),
        JsonValue::Number(n) => Json::Number(n),
        JsonValue::String(s) => Json::String(s@),
        JsonValue::Array(items) => Json::Array(
            Seq::new(
                items@.len(),
                |i: int|
                    if 0 <= i < items@.len() {
                        json_of(items@[i])
                    } else {
                        Json::Null
                    },
            ),
        ),
        JsonValue::Object(members) => Json::Object(
            Seq::new(
                members@.len(),
                |i: int|
                    if 0 <= i < members@.len() {
                        (members@[i].0@, json_of(members@[i].1))
                    } else {
                        (Seq::empty(), Json::Null)
                    },
            ),
        ),
    }
}

impl View for JsonValue {
    type V = Json;

    open spec fn view(&self) -> Json {
        json_of(*self)
    }
}

/// An array stands for the values its items stand for, an object for the
/// members its members stand for.
pub proof fn lemma_view_unfolds(value: JsonValue)
    ensures
        value matches JsonValue::Array(items) ==> value@ == Json::Array(items_view(items@)),
        value matches JsonValue::Object(members) ==> value@ == Json::Object(
            members_view(members@),
        ),
{
    match value {
        JsonValue::Array(items) => {
            reveal_with_fuel(json_of, 2);
            assert(value@->Array_0 =~= items_view(items@));
        },
        JsonValue::Object(members) => {
            reveal_with_fuel(json_of, 2);
            assert(value@->Object_0 =~= members_view(members@));
        },
        _ => {},
    }
}

/// The first member of a name is found at the first place where the name stands.
pub proof fn lemma_find_first(members: Seq<(Seq<char>, Json)>, name: Seq<char>, i: int)
    requires
        0 <= i < members.len(),
        members[i].0 == name,
        forall|j: int| 0 <= j < i ==> members[j].0 != name,
    ensures
        find_member(members, name) == Some(members[i].1),
    decreases i,
{
    if i > 0 {
        lemma_find_first(members.drop_first(), name, i - 1);
    }
}

/// Where no member has the name, none is found.
pub proof fn lemma_find_none(members: Seq<(Seq<char>, Json)>, name: Seq<char>)
    requires
        forall|j: int| 0 <= j < members.len() ==> members[j].0 != name,
    ensures
        find_member(members, name) is None,
    decreases members.len(),
{
    if members.len() > 0 {
        lemma_find_none(members.drop_first(), name);
    }
}

/// Taking out the first member of a name takes out the member at the first
/// place where the name stands.
pub proof fn lemma_without_first(members: Seq<(Seq<char>, Json)>, name: Seq<char>, i: int)
    requires
        0 <= i < members.len(),
        members[i].0 == name,
        forall|j: int| 0 <= j < i ==> members[j].0 != name,
    ensures
        without_member(members, name) == members.remove(i),
    decreases i,
{
    if i == 0 {
        assert(members.remove(0) =~= members.drop_first());
    } else {
        lemma_without_first(members.drop_first(), name, i - 1);
        assert(members.remove(i) =~= seq![members[0]] + members.drop_first().remove(i - 1));
    }
}

/// Where no member has the name, taking it out changes nothing.
pub proof fn lemma_without_none(members: Seq<(Seq<char>, Json)>, name: Seq<char>)
    requires
        forall|j: int| 0 <= j < members.len() ==> members[j].0 != name,
    ensures
        without_member(members, name) == members,
    decreases members.len(),
{
    if members.len() > 0 {
        lemma_without_none(members.drop_first(), name);
        assert(seq![members[0]] + members.drop_first() =~= members);
    }
}

/// Taking out a member of one name changes nothing for another name.
pub proof fn lemma_find_elsewhere(
    members: Seq<(Seq<char>, Json)>,
    name: Seq<char>,
    other: Seq<char>,
)
    requires
        other != name,
    ensures
        find_member(without_member(members, name), other) == find_member(members, other),
    decreases members.len(),
{
    if members.len() > 0 && members[0].0 != name {
        let rest = without_member(members.drop_first(), name);
        assert((seq![members[0]] + rest).drop_first() =~= rest);
        lemma_find_elsewhere(members.drop_first(), name, other);
    }
}

impl JsonNumber {
    /// The integer that the number is, if it is one.
    pub open spec fn integer(self) -> Option<int> {
        match self {
            JsonNumber::PosInt(n) => Some(n as int),
            JsonNumber::NegInt(n) => Some(n as int),
            JsonNumber::Float(_) => None,
        }
    }

    /// The number that writes the integer `n`, if one can: `PosInt` from zero
    /// up, `NegInt` below zero.
    pub open spec fn of_integer(n: int) -> Option<JsonNumber> {
        if 0 <= n <= u64::MAX {
            Some(JsonNumber::PosInt(n as u64))
        } else if i64::MIN <= n < 0 {
            Some(JsonNumber::NegInt(n as i64))
        } else {
            None
        }
    }

    /// The number that writes the signed integer `n`.
    pub open spec fn of_i64(n: i64) -> JsonNumber {
        if n < 0 {
            JsonNumber::NegInt(n)
        } else {
            JsonNumber::PosInt(n as u64)
        }
    }

    /// The number that writes `n`.
    pub fn from_i64(n: i64) -> (number: JsonNumber)
        ensures
            number == JsonNumber::of_i64(n),
    {
        if n < 0 {
            JsonNumber::NegInt(n)
        } else {
            JsonNumber::PosInt(n as u64)
        }
    }
}

impl JsonValue {
    /// The JSON string that holds the characters of `text`.
    pub fn text(text: &str) -> (value: JsonValue)
        ensures
            value@ == Json::String(text@),
    {
        JsonValue::String(text.to_owned())
    }

    /// The JSON number that writes `n`.
    pub fn integer(n: i64) -> (value: JsonValue)
        ensures
            value@ == Json::Number(JsonNumber::of_i64(n)),
    {
        JsonValue::Number(JsonNumber::from_i64(n))
    }

    /// The JSON object that has `members`.
    pub fn object(members: Vec<(String, JsonValue)>) -> (value: JsonValue)
        ensures
            value@ == Json::Object(members_view(members@)),
    {
        let value = JsonValue::Object(members);
        proof {
            lemma_view_unfolds(value);
        }
        value
    }

    /// The JSON array that has `items`.
    pub fn array(items: Vec<JsonValue>) -> (value: JsonValue)
        ensures
            value@ == Json::Array(items_view(items@)),
    {
        let value = JsonValue::Array(items);
        proof {
            lemma_view_unfolds(value);
        }
        value
    }

    /// A copy of the value.
    pub fn duplicate(&self) -> (copy: JsonValue)
        ensures
            copy@ == self@,
        decreases self,
    {
        match self {
            JsonValue::Null => JsonValue::Null,
            JsonValue::Bool(b) => JsonValue::Bool(*b),
            JsonValue::Number(n) => JsonValue::Number(*n),
            JsonValue::String(s) => JsonValue::String(s.clone()),
            JsonValue::Array(items) => {
                let mut copies: Vec<JsonValue> = Vec::new();
                let mut i: usize = 0;
                while i < items.len()
                    invariant
                        i <= items.len(),
                        copies.len() == i,
                        self is Array,
                        self->Array_0 == *items,
                        forall|j: int| 0 <= j < i ==> copies@[j]@ == items@[j]@,
                    decreases items.len() - i,
                {
                    copies.push(items[i].duplicate());
                    i += 1;
                }
                let copy = JsonValue::Array(copies);
                proof {
                    lemma_view_unfolds(copy);
                    lemma_view_unfolds(*self);
                    assert(items_view(copies@) =~= items_view(items@));
                }
                copy
            },
            JsonValue::Object(members) => {
                let mut copies: Vec<(String, JsonValue)> = Vec::new();
                let mut i: usize = 0;
                while i < members.len()
                    invariant
                        i <= members.len(),
                        copies.len() == i,
                        self is Object,
                        self->Object_0 == *members,
                        forall|j: int|
                            0 <= j < i ==> copies@[j].0@ == members@[j].0@ && copies@[j].1@
                                == members@[j].1@,
                    decreases members.len() - i,
                {
                    copies.push((members[i].0.clone(), members[i].1.duplicate()));
                    i += 1;
                }
                let copy = JsonValue::Object(copies);
                proof {
                    lemma_view_unfolds(copy);
                    lemma_view_unfolds(*self);
                    assert(members_view(copies@) =~= members_view(members@));
                }
                copy
            },
        }
    }
}

impl Clone for JsonValue {
    fn clone(&self) -> (copy: Self)
        ensures
            copy@ == self@,
    {
        self.duplicate()
    }
}

/// Takes the first member called `name` out of `members` and hands its value
/// back. The other members stay as they were, in their order.
pub fn take_member(members: &mut Vec<(String, JsonValue)>, name: &str) -> (found: Option<
    JsonValue,
>)
    ensures
        option_view(found) == find_member(members_view(old(members)@), name@),
        members_view(final(members)@) == without_member(members_view(old(members)@), name@),
{
    let mut i: usize = 0;
    while i < members.len()
        invariant
            i <= members.len(),
            *members == *old(members),
            forall|j: int| 0 <= j < i ==> members@[j].0@ != name@,
        decreases members.len() - i,
    {
        if same_text(members[i].0.as_str(), name) {
            let ghost before = members_view(members@);
            let (_, value) = members.remove(i);
            proof {
                lemma_find_first(before, name@, i as int);
                lemma_without_first(before, name@, i as int);
                assert(members_view(members@) =~= before.remove(i as int));
            }
            return Some(value);
        }
        i += 1;
    }
    proof {
        lemma_find_none(members_view(members@), name@);
        lemma_without_none(members_view(members@), name@);
    }
    None
}

} // verus!
