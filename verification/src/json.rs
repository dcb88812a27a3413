//! JSON values as plain data: the tree that the records are read from and
//! written to, with its mathematical model.

use crate::schema::{fault, SchemaError, SchemaErrorKind};
use serde_json::Value;
use vstd::prelude::*;

verus! {

/// A JSON number. An integer is held exactly; any other number is held by its
/// decimal text, which this library carries and never computes with.
#[derive(Debug, PartialEq)]
pub enum Number {
    Unsigned(u64),
    Signed(i64),
    Fraction(String),
}

/// The model of a [`Number`]: a mathematical integer, or the text of a
/// number that is not an integer.
pub enum NumberModel {
    Integer(int),
    Fraction(Seq<char>),
}

impl View for Number {
    type V = NumberModel;

    open spec fn view(&self) -> NumberModel {
        match self {
            Number::Unsigned(n) => NumberModel::Integer(*n as int),
            Number::Signed(n) => NumberModel::Integer(*n as int),
            Number::Fraction(text) => NumberModel::Fraction(text@),
        }
    }
}

impl DeepView for Number {
    type V = NumberModel;

    open spec fn deep_view(&self) -> NumberModel {
        self@
    }
}

/// A JSON value. An object is its members in order; where a name occurs
/// twice, the later member is the one that counts.
#[derive(Debug, PartialEq)]
pub enum Json {
    Null,
    Bool(bool),
    Number(Number),
    String(String),
    Array(Vec<Json>),
    Object(Vec<(String, Json)>),
}

/// The model of a [`Json`] value.
pub enum JsonModel {
    Null,
    Bool(bool),
    Number(NumberModel),
    String(Seq<char>),
    Array(Seq<JsonModel>),
    Object(Seq<(Seq<char>, JsonModel)>),
}

/// The model of a value, member by member.
pub open spec fn json_model(j: Json) -> JsonModel
    decreases j,
{
    match j {
        Json::Null => JsonModel::Null,
        Json::Bool(b) => JsonModel::Bool(b),
        Json::Number(n) => JsonModel::Number(n@),
        Json::String(s) => JsonModel::String(s@),
        Json::Array(items) => JsonModel::Array(
            Seq::new(
                items@.len(),
                |i: int|
                    if 0 <= i < items@.len() {
                        json_model(items@[i])
                    } else {
                        JsonModel::Null
                    },
            ),
        ),
        Json::Object(members) => JsonModel::Object(
            Seq::new(
                members@.len(),
                |i: int|
                    if 0 <= i < members@.len() {
                        (members@[i].0@, json_model(members@[i].1))
                    } else {
                        (Seq::empty(), JsonModel::Null)
                    },
            ),
        ),
    }
}

/// The model of the members of an object.
pub open spec fn members_model(members: Seq<(String, Json)>) -> Seq<(Seq<char>, JsonModel)> {
    Seq::new(members.len(), |i: int| (members[i].0@, json_model(members[i].1)))
}

/// The model of the items of an array.
pub open spec fn items_model(items: Seq<Json>) -> Seq<JsonModel> {
    Seq::new(items.len(), |i: int| json_model(items[i]))
}

impl View for Json {
    type V = JsonModel;

    open spec fn view(&self) -> JsonModel {
        json_model(*self)
    }
}

impl DeepView for Json {
    type V = JsonModel;

    open spec fn deep_view(&self) -> JsonModel {
        json_model(*self)
    }
}

/// The value of the last member called `name`, if there is one.
#[verifier::opaque]
pub open spec fn member<V>(members: Seq<(Seq<char>, V)>, name: Seq<char>) -> Option<V>
    decreases members.len(),
{
    if members.len() == 0 {
        None
    } else if members.last().0 == name {
        Some(members.last().1)
    } else {
        member(members.drop_last(), name)
    }
}

/// Whether no two of the members have the same name.
pub open spec fn distinct_names<V>(members: Seq<(Seq<char>, V)>) -> bool {
    forall|i: int, k: int| 0 <= i < k < members.len() ==> members[i].0 != members[k].0
}

impl JsonModel {
    /// Whether every object in the value, at any depth, has each of its
    /// member names once.
    pub open spec fn well_formed(self) -> bool
        decreases self,
    {
        match self {
            JsonModel::Array(items) => forall|i: int|
                0 <= i < items.len() ==> (#[trigger] items[i]).well_formed(),
            JsonModel::Object(members) => distinct_names(members) && forall|i: int|
                0 <= i < members.len() ==> (#[trigger] members[i]).1.well_formed(),
            _ => true,
        }
    }

    /// The member `name` of an object; `None` for a value that is no object
    /// or has no such member.
    pub open spec fn get(self, name: Seq<char>) -> Option<JsonModel> {
        match self {
            JsonModel::Object(members) => member(members, name),
            _ => None,
        }
    }
}

/// Whatever `member` finds is one of the members.
pub proof fn lemma_member_is_listed<V>(members: Seq<(Seq<char>, V)>, name: Seq<char>)
    ensures
        member(members, name) matches Some(found) ==> exists|i: int|
            0 <= i < members.len() && #[trigger] members[i].0 == name && members[i].1 == found,
    decreases members.len(),
{
    reveal(member);
    if members.len() > 0 && members.last().0 != name {
        lemma_member_is_listed(members.drop_last(), name);
        if let Some(found) = member(members.drop_last(), name) {
            let i = choose|i: int|
                0 <= i < members.drop_last().len() && #[trigger] members.drop_last()[i].0 == name
                    && members.drop_last()[i].1 == found;
            assert(members[i].0 == name && members[i].1 == found);
        }
    } else if members.len() > 0 {
        assert(members[members.len() - 1].0 == name);
    }
}

/// A member of an object is smaller than the object.
pub proof fn lemma_member_decreases(j: JsonModel, name: Seq<char>)
    ensures
        j.get(name) matches Some(found) ==> decreases_to!(j => found),
{
    if let JsonModel::Object(members) = j {
        lemma_member_is_listed(members, name);
        if let Some(found) = member(members, name) {
            let i = choose|i: int|
                0 <= i < members.len() && #[trigger] members[i].0 == name && members[i].1 == found;
            assert(decreases_to!(j => members));
            assert(decreases_to!(members => members[i]));
            assert(decreases_to!(members[i] => members[i].1));
        }
    }
}

/// A member put behind the others is the one found under its name, and
/// hides no member of another name.
pub broadcast proof fn lemma_member_push<V>(
    members: Seq<(Seq<char>, V)>,
    name: Seq<char>,
    value: V,
    wanted: Seq<char>,
)
    ensures
        #[trigger] member(members.push((name, value)), wanted) == if name == wanted {
            Some(value)
        } else {
            member(members, wanted)
        },
{
    reveal(member);
    let longer = members.push((name, value));
    assert(longer.last() == (name, value));
    assert(longer.drop_last() == members);
}

/// Nothing is found among no members.
pub broadcast proof fn lemma_member_none<V>(name: Seq<char>)
    ensures
        #[trigger] member(Seq::<(Seq<char>, V)>::empty(), name) == None::<V>,
{
    reveal(member);
}

/// The length of a name and its first six characters. No two member names
/// of one record agree in all of these.
pub open spec fn outline(name: Seq<char>) -> (nat, char, char, char, char, char, char) {
    (name.len(), name[0], name[1], name[2], name[3], name[4], name[5])
}

/// The outline of a name, spelled out. Two names whose outlines differ are
/// different names; a proof that tells member names apart calls this on each.
pub proof fn lemma_outline(name: Seq<char>)
    ensures
        outline(name) == (name.len(), name[0], name[1], name[2], name[3], name[4], name[5]),
{
}

impl Number {
    /// A copy of the number.
    pub fn duplicate(&self) -> (copy: Number)
        ensures
            copy@ == self@,
    {
        match self {
            Number::Unsigned(n) => Number::Unsigned(*n),
            Number::Signed(n) => Number::Signed(*n),
            Number::Fraction(text) => Number::Fraction(text.clone()),
        }
    }
}

/// `str::eq` of std: two strings are equal exactly when they hold the same
/// characters.
pub assume_specification[ <str as PartialEq>::eq ](a: &str, b: &str) -> (same: bool)
    ensures
        same == (a@ == b@),
;

impl Json {
    /// The object with these members.
    pub fn object(members: Vec<(String, Json)>) -> (j: Json)
        ensures
            j@ == JsonModel::Object(members_model(members@)),
    {
        let j = Json::Object(members);
        assert(j@->Object_0 =~= members_model(members@));
        j
    }

    /// The array of these items.
    pub fn array(items: Vec<Json>) -> (j: Json)
        ensures
            j@ == JsonModel::Array(items_model(items@)),
    {
        let j = Json::Array(items);
        assert(j@->Array_0 =~= items_model(items@));
        j
    }

    /// Whether the value is an object.
    pub fn is_object(&self) -> (b: bool)
        ensures
            b == (self@ is Object),
    {
        match self {
            Json::Object(_) => true,
            _ => false,
        }
    }

    /// A copy of the value.
    pub fn duplicate(&self) -> (copy: Json)
        ensures
            copy@ == self@,
        decreases self,
    {
        match self {
            Json::Null => Json::Null,
            Json::Bool(b) => Json::Bool(*b),
            Json::Number(n) => Json::Number(n.duplicate()),
            Json::String(s) => Json::String(s.clone()),
            Json::Array(items) => {
                let mut copies: Vec<Json> = Vec::new();
                let mut i: usize = 0;
                while i < items.len()
                    invariant
                        i <= items.len(),
                        *self == Json::Array(*items),
                        copies.len() == i,
                        forall|k: int|
                            0 <= k < i ==> json_model(copies@[k]) == json_model(items@[k]),
                    decreases items.len() - i,
                {
                    assert(decreases_to!(*self => self->Array_0));
                    assert(decreases_to!(items => items[i as int]));
                    copies.push(items[i].duplicate());
                    i = i + 1;
                }
                let copy = Json::Array(copies);
                assert(copy@->Array_0 =~= self@->Array_0);
                copy
            },
            Json::Object(members) => {
                assert(decreases_to!(*self => self->Object_0));
                let copy = Json::object_of(members);
                assert(self@->Object_0 =~= members_model(members@));
                copy
            },
        }
    }

    /// The object with a copy of these members.
    pub fn object_of(members: &Vec<(String, Json)>) -> (j: Json)
        ensures
            j@ == JsonModel::Object(members_model(members@)),
        decreases members,
    {
        let mut copies: Vec<(String, Json)> = Vec::new();
        let mut i: usize = 0;
        while i < members.len()
            invariant
                i <= members.len(),
                copies.len() == i,
                forall|k: int|
                    0 <= k < i ==> copies@[k].0@ == members@[k].0@ && json_model(copies@[k].1)
                        == json_model(members@[k].1),
            decreases members.len() - i,
        {
            assert(decreases_to!(members => members[i as int]));
            assert(decreases_to!(members[i as int] => members[i as int].1));
            copies.push((members[i].0.clone(), members[i].1.duplicate()));
            i = i + 1;
        }
        assert(members_model(copies@) =~= members_model(members@));
        Json::object(copies)
    }

    /// The member `name` of an object.
    pub fn get(&self, name: &str) -> (found: Option<&Json>)
        ensures
            found.is_some() == self@.get(name@).is_some(),
            found matches Some(j) ==> self@.get(name@) == Some(j@) && decreases_to!(self => j),
    {
        match self {
            Json::Object(members) => {
                let ghost all = self@->Object_0;
                let mut i: usize = members.len();
                proof {
                    reveal(member);
                }
                assert(all.subrange(0, i as int) == all);
                while i > 0
                    invariant
                        i <= members.len(),
                        *self == Json::Object(*members),
                        self@ == JsonModel::Object(all),
                        all.len() == members.len(),
                        forall|k: int|
                            0 <= k < all.len() ==> all[k] == (
                                members@[k].0@,
                                json_model(members@[k].1),
                            ),
                        member(all, name@) == member(all.subrange(0, i as int), name@),
                    decreases i,
                {
                    let ghost head = all.subrange(0, i as int);
                    i = i - 1;
                    proof {
                        reveal(member);
                    }
                    assert(head.len() > 0 && head.last() == all[i as int]);
                    assert(head.drop_last() == all.subrange(0, i as int));
                    assert(all[i as int].0 == members@[i as int].0@);
                    if members[i].0.as_str().eq(name) {
                        assert(member(head, name@) == Some(all[i as int].1));
                        assert(decreases_to!(*self => self->Object_0));
                        assert(decreases_to!(members => members[i as int]));
                        assert(decreases_to!(members[i as int] => members[i as int].1));
                        return Some(&members[i].1);
                    }
                    assert(member(head, name@) == member(head.drop_last(), name@));
                }
                None
            },
            _ => None,
        }
    }
}

#[verifier::external_type_specification]
#[verifier::external_body]
pub struct ExValue(serde_json::Value);

#[verifier::external_type_specification]
#[verifier::external_body]
pub struct ExError(serde_json::Error);

/// The value that a text is parsed as, where it is a JSON document.
pub uninterp spec fn parsed_json(text: Seq<char>) -> Option<JsonModel>;

/// What a value of serde_json holds.
pub uninterp spec fn value_tree(value: serde_json::Value) -> JsonModel;

/// What serde_json holds of a value of this library: its objects keep one
/// member for each name, and a fraction is the number that its text spells.
pub uninterp spec fn stored_tree(tree: JsonModel) -> JsonModel;

/// The text that a value is printed as.
pub uninterp spec fn printed_json(tree: JsonModel) -> Seq<char>;

/// `serde_json::from_str` at `serde_json::Value`: the value that the text
/// is parsed as, or an error where the text is no JSON document. Which
/// value that is depends on the text alone; it is named, not described.
#[verifier::external_body]
fn parse_value(text: &str) -> (r: Result<serde_json::Value, serde_json::Error>)
    ensures
        match r {
            Ok(value) => parsed_json(text@) == Some(value_tree(value)),
            Err(_) => parsed_json(text@) is None,
        },
{
    serde_json::from_str::<Value>(text)
}

/// `Value::as_u64`, `Value::as_i64` and the `Display` of `serde_json::Value`,
/// on a value that is a number: an integer that fits is held as such, any
/// other number by the text that serde_json prints it as.
#[verifier::external_body]
fn lift_number(value: &serde_json::Value) -> (number: Number)
    ensures
        value_tree(*value) is Number ==> value_tree(*value) == JsonModel::Number(number@),
{
    match (value.as_u64(), value.as_i64()) {
        (Some(n), _) => Number::Unsigned(n),
        (_, Some(n)) => Number::Signed(n),
        _ => Number::Fraction(value.to_string()),
    }
}

/// The variants of `serde_json::Value`: the same value as a value of this
/// library, variant for variant, the members of an object in the order in
/// which serde_json walks them. An object of serde_json is a map, which
/// holds each name once.
#[verifier::external_body]
fn lift(value: &serde_json::Value) -> (j: Json)
    ensures
        j@ == value_tree(*value),
        j@.well_formed(),
{
    match value {
        Value::Null => Json::Null,
        Value::Bool(b) => Json::Bool(*b),
        Value::Number(_) => Json::Number(lift_number(value)),
        Value::String(s) => Json::String(s.clone()),
        Value::Array(items) => Json::Array(items.iter().map(lift).collect()),
        Value::Object(map) => Json::Object(
            map.iter().map(|(name, value)| (name.clone(), lift(value))).collect(),
        ),
    }
}

/// `serde_json::from_str` at `serde_json::Number`: the number that the text
/// of a fraction spells, or `null` where it spells none.
#[verifier::external_body]
fn lower_fraction(text: &str) -> (value: serde_json::Value)
    ensures
        value_tree(value) == stored_tree(JsonModel::Number(NumberModel::Fraction(text@))),
{
    serde_json::from_str::<serde_json::Number>(text).map_or(Value::Null, Value::Number)
}

/// The constructors of `serde_json::Value`: the same value as a value of
/// serde_json, whose objects keep the last member of each name.
#[verifier::external_body]
fn lower(j: &Json) -> (value: serde_json::Value)
    ensures
        value_tree(value) == stored_tree(j@),
{
    match j {
        Json::Null => Value::Null,
        Json::Bool(b) => Value::Bool(*b),
        Json::Number(Number::Unsigned(n)) => Value::from(*n),
        Json::Number(Number::Signed(n)) => Value::from(*n),
        Json::Number(Number::Fraction(text)) => lower_fraction(text),
        Json::String(s) => Value::String(s.clone()),
        Json::Array(items) => Value::Array(items.iter().map(lower).collect()),
        Json::Object(members) => Value::Object(
            members.iter().map(|(name, value)| (name.clone(), lower(value))).collect(),
        ),
    }
}

/// The `Display` of `serde_json::Value`: the value as a JSON text without
/// spaces between its tokens.
#[verifier::external_body]
fn print_value(value: &serde_json::Value) -> (text: String)
    ensures
        text@ == printed_json(value_tree(*value)),
{
    value.to_string()
}

impl Json {
    /// The value that a text is parsed as. Its objects have each member
    /// name once: where the text repeats a name, the last member of that
    /// name is the one kept.
    pub fn parse(text: &str) -> (r: Result<Json, SchemaError>)
        ensures
            match r {
                Ok(j) => parsed_json(text@) == Some(j@) && j@.well_formed(),
                Err(e) => parsed_json(text@) is None && e.deep_view() == fault(
                    SchemaErrorKind::Malformed,
                ),
            },
    {
        match parse_value(text) {
            Ok(value) => Ok(lift(&value)),
            Err(_) => Err(SchemaError::at_root(SchemaErrorKind::Malformed)),
        }
    }

    /// The value as a JSON text.
    pub fn to_text(&self) -> (text: String)
        ensures
            text@ == printed_json(stored_tree(self@)),
    {
        let value = lower(self);
        print_value(&value)
    }
}

} // verus!
