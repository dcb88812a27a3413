//! How records are read from and written to JSON values: the error that a
//! failed reading gives, the two traits that every record implements, and
//! the member-by-member helpers that the records are built from.

use crate::json::{
    lemma_member_push, member, members_model, parsed_json, printed_json, stored_tree, Json,
    JsonModel,
};
use vstd::prelude::*;

verus! {

/// One step on the way from the root of a JSON value to the place of an error.
#[derive(Debug, PartialEq, Eq)]
pub enum PathStep {
    /// Into the member of that name.
    Field(String),
    /// Into the item at that position of an array, or the entry at that
    /// position of a table.
    Item(usize),
}

/// The model of a [`PathStep`].
pub enum StepModel {
    Field(Seq<char>),
    Item(int),
}

impl DeepView for PathStep {
    type V = StepModel;

    open spec fn deep_view(&self) -> StepModel {
        match self {
            PathStep::Field(name) => StepModel::Field(name@),
            PathStep::Item(at) => StepModel::Item(*at as int),
        }
    }
}

/// What was wrong at the place that a [`SchemaError`] names.
#[derive(Clone, Copy, Debug, PartialEq, Eq, Structural)]
pub enum SchemaErrorKind {
    /// The text is no JSON document at all.
    Malformed,
    /// A member that the record requires is not there.
    MissingField,
    /// The value there is of another type than the record asks for.
    WrongType,
}

/// A response body that does not have the shape of the record asked for.
#[derive(Debug, PartialEq, Eq)]
pub struct SchemaError {
    pub kind: SchemaErrorKind,
    /// From the root of the document to the offending value.
    pub path: Vec<PathStep>,
}

/// The model of a [`SchemaError`].
pub struct SchemaFault {
    pub kind: SchemaErrorKind,
    pub path: Seq<StepModel>,
}

impl DeepView for SchemaError {
    type V = SchemaFault;

    open spec fn deep_view(&self) -> SchemaFault {
        SchemaFault { kind: self.kind, path: self.path.deep_view() }
    }
}

/// The fault of that kind at the root.
pub open spec fn fault(kind: SchemaErrorKind) -> SchemaFault {
    SchemaFault { kind, path: Seq::empty() }
}

/// The same fault, seen from one step further out.
pub open spec fn under(step: StepModel, inner: SchemaFault) -> SchemaFault {
    SchemaFault { kind: inner.kind, path: seq![step] + inner.path }
}

/// The model of the result of a reading.
pub open spec fn outcome<T: DeepView>(r: Result<T, SchemaError>) -> Result<T::V, SchemaFault> {
    match r {
        Ok(value) => Ok(value.deep_view()),
        Err(e) => Err(e.deep_view()),
    }
}

impl SchemaError {
    /// The error of that kind at the root.
    pub fn at_root(kind: SchemaErrorKind) -> (e: SchemaError)
        ensures
            e.deep_view() == fault(kind),
    {
        let e = SchemaError { kind, path: Vec::new() };
        assert(e.path.deep_view() =~= Seq::empty());
        e
    }

    /// The same error, seen from one step further out.
    pub fn below(self, step: PathStep) -> (e: SchemaError)
        ensures
            e.deep_view() == under(step.deep_view(), self.deep_view()),
    {
        let ghost before = self.path.deep_view();
        let ghost first = step.deep_view();
        let SchemaError { kind, path } = self;
        let mut path = path;
        path.insert(0, step);
        assert(path.deep_view() =~= seq![first] + before);
        SchemaError { kind, path }
    }
}

/// A type that can be read from a JSON value.
pub trait Decode: Sized + DeepView {
    /// What the value `j` is read as: the record, or the first fault met.
    spec fn decoded(j: JsonModel) -> Result<Self::V, SchemaFault>;

    fn from_json(j: &Json) -> (r: Result<Self, SchemaError>)
        ensures
            outcome(r) == Self::decoded(j@),
    ;
}

/// A type that can also be written as a JSON value, and read back from it.
/// No value of such a type is written as `null`, which stands for absence.
pub trait Encode: Decode {
    /// The value that `m` is written as.
    spec fn encoded(m: Self::V) -> JsonModel;

    fn to_json(&self) -> (j: Json)
        ensures
            j@ == Self::encoded(self.deep_view()),
    ;

    /// Reading what was written gives the record back, and nothing is written
    /// as `null`.
    proof fn lemma_round_trip(m: Self::V)
        ensures
            Self::decoded(Self::encoded(m)) == Ok::<Self::V, SchemaFault>(m),
            !(Self::encoded(m) is Null),
    ;
}

/// What a member is read as where the record requires it: `found` is the
/// value under `name`, if the object has one.
#[verifier::opaque]
pub open spec fn required<T: Decode>(found: Option<JsonModel>, name: Seq<char>) -> Result<
    T::V,
    SchemaFault,
> {
    match found {
        Some(value) => match T::decoded(value) {
            Ok(x) => Ok(x),
            Err(inner) => Err(under(StepModel::Field(name), inner)),
        },
        None => Err(under(StepModel::Field(name), fault(SchemaErrorKind::MissingField))),
    }
}

/// What a member is read as where the record can do without it: a member
/// that is not there, or is `null`, is absent.
#[verifier::opaque]
pub open spec fn optional<T: Decode>(found: Option<JsonModel>, name: Seq<char>) -> Result<
    Option<T::V>,
    SchemaFault,
> {
    match found {
        None | Some(JsonModel::Null) => Ok(None),
        Some(value) => match T::decoded(value) {
            Ok(x) => Ok(Some(x)),
            Err(inner) => Err(under(StepModel::Field(name), inner)),
        },
    }
}

/// What the required member `name` of `j` is read as.
pub open spec fn field<T: Decode>(j: JsonModel, name: Seq<char>) -> Result<T::V, SchemaFault> {
    required::<T>(j.get(name), name)
}

/// What the optional member `name` of `j` is read as.
pub open spec fn optional_field<T: Decode>(j: JsonModel, name: Seq<char>) -> Result<
    Option<T::V>,
    SchemaFault,
> {
    optional::<T>(j.get(name), name)
}

/// An optional member that is not there, or is `null`, is read as absent
/// and is no fault, whatever the type of the member.
pub proof fn lemma_absent_member_is_no_fault<T: Decode>(j: JsonModel, name: Seq<char>)
    requires
        j.get(name) is None || j.get(name) == Some(JsonModel::Null),
    ensures
        optional_field::<T>(j, name) == Ok::<Option<T::V>, SchemaFault>(None),
{
    reveal(optional);
}

/// A required member that is not there is a fault under its name.
pub proof fn lemma_missing_member_is_a_fault<T: Decode>(j: JsonModel, name: Seq<char>)
    requires
        j.get(name) is None,
    ensures
        field::<T>(j, name) == Err::<T::V, SchemaFault>(
            under(StepModel::Field(name), fault(SchemaErrorKind::MissingField)),
        ),
{
    reveal(required);
}

/// Reads the required member `name` of `j`.
pub fn read_field<T: Decode>(j: &Json, name: &str) -> (r: Result<T, SchemaError>)
    ensures
        outcome(r) == field::<T>(j@, name@),
{
    reveal(required);
    match j.get(name) {
        Some(value) => match T::from_json(value) {
            Ok(x) => Ok(x),
            Err(inner) => Err(inner.below(PathStep::Field(name.to_owned()))),
        },
        None => Err(
            SchemaError::at_root(SchemaErrorKind::MissingField).below(
                PathStep::Field(name.to_owned()),
            ),
        ),
    }
}

/// The model of a value that may be absent: the model of the value, where
/// it is there.
#[verifier::opaque]
pub open spec fn optional_model<T: DeepView>(value: Option<T>) -> Option<T::V> {
    match value {
        Some(present) => Some(present.deep_view()),
        None => None,
    }
}

/// Reads the optional member `name` of `j`.
pub fn read_optional_field<T: Decode>(j: &Json, name: &str) -> (r: Result<Option<T>, SchemaError>)
    ensures
        match r {
            Ok(value) => optional_field::<T>(j@, name@) == Ok::<Option<T::V>, SchemaFault>(
                optional_model(value),
            ),
            Err(e) => optional_field::<T>(j@, name@) == Err::<Option<T::V>, SchemaFault>(
                e.deep_view(),
            ),
        },
{
    reveal(optional);
    reveal(optional_model);
    match j.get(name) {
        None | Some(Json::Null) => Ok(None),
        Some(value) => match T::from_json(value) {
            Ok(x) => Ok(Some(x)),
            Err(inner) => Err(inner.below(PathStep::Field(name.to_owned()))),
        },
    }
}

/// What a value that may be absent is written as, if anything.
#[verifier::opaque]
pub open spec fn written<T: Encode>(value: Option<T::V>) -> Option<JsonModel> {
    match value {
        Some(present) => Some(T::encoded(present)),
        None => None,
    }
}

/// The first of two values, if it is there; else the second.
#[verifier::opaque]
pub open spec fn or_else<V>(first: Option<V>, second: Option<V>) -> Option<V> {
    if first is Some {
        first
    } else {
        second
    }
}

/// The members of an object under construction, with one more where there
/// is a value to write.
#[verifier::opaque]
pub open spec fn with_present(
    members: Seq<(Seq<char>, JsonModel)>,
    name: Seq<char>,
    value: Option<JsonModel>,
) -> Seq<(Seq<char>, JsonModel)> {
    match value {
        Some(present) => members.push((name, present)),
        None => members,
    }
}

/// The members of an object under construction, with one more.
#[verifier::opaque]
pub open spec fn with_field<T: Encode>(
    members: Seq<(Seq<char>, JsonModel)>,
    name: Seq<char>,
    value: T::V,
) -> Seq<(Seq<char>, JsonModel)> {
    members.push((name, T::encoded(value)))
}

/// The members of an object under construction, with one more where the
/// value is present: an absent value is left out, never written as `null`.
#[verifier::opaque]
pub open spec fn with_optional_field<T: Encode>(
    members: Seq<(Seq<char>, JsonModel)>,
    name: Seq<char>,
    value: Option<T::V>,
) -> Seq<(Seq<char>, JsonModel)> {
    match value {
        Some(present) => members.push((name, T::encoded(present))),
        None => members,
    }
}

/// A member written is the one found under its name, and hides no member of
/// another name.
pub broadcast proof fn lemma_member_with_field<T: Encode>(
    members: Seq<(Seq<char>, JsonModel)>,
    name: Seq<char>,
    value: T::V,
    wanted: Seq<char>,
)
    ensures
        #[trigger] member(with_field::<T>(members, name, value), wanted) == if name == wanted {
            Some(T::encoded(value))
        } else {
            member(members, wanted)
        },
{
    reveal(with_field);
    lemma_member_push(members, name, T::encoded(value), wanted);
}

/// A present value written is the one found under its name; an absent one
/// leaves what was found there before; neither hides a member of another
/// name.
pub broadcast proof fn lemma_member_with_optional_field<T: Encode>(
    members: Seq<(Seq<char>, JsonModel)>,
    name: Seq<char>,
    value: Option<T::V>,
    wanted: Seq<char>,
)
    ensures
        #[trigger] member(with_optional_field::<T>(members, name, value), wanted) == if name
            == wanted {
            or_else(written::<T>(value), member(members, wanted))
        } else {
            member(members, wanted)
        },
{
    reveal(with_optional_field);
    reveal(written);
    reveal(or_else);
    if let Some(present) = value {
        lemma_member_push(members, name, T::encoded(present), wanted);
    }
}

/// A value written is the one found under its name; where there is none to
/// write, what was found there before stays; neither hides a member of
/// another name.
pub broadcast proof fn lemma_member_with_present(
    members: Seq<(Seq<char>, JsonModel)>,
    name: Seq<char>,
    value: Option<JsonModel>,
    wanted: Seq<char>,
)
    ensures
        #[trigger] member(with_present(members, name, value), wanted) == if name == wanted {
            or_else(value, member(members, wanted))
        } else {
            member(members, wanted)
        },
{
    reveal(with_present);
    reveal(or_else);
    if let Some(present) = value {
        lemma_member_push(members, name, present, wanted);
    }
}

/// Where nothing comes second, the first is all there is.
pub broadcast proof fn lemma_or_else_none<V>(first: Option<V>)
    ensures
        #[trigger] or_else(first, None::<V>) == first,
{
    reveal(or_else);
}

/// A required member reads back as the value that it was written from.
pub broadcast proof fn lemma_required_reads_back<T: Encode>(value: T::V, name: Seq<char>)
    ensures
        #[trigger] required::<T>(Some(T::encoded(value)), name) == Ok::<T::V, SchemaFault>(value),
{
    reveal(required);
    T::lemma_round_trip(value);
}

/// An optional member reads back as the value that it was written from,
/// present or absent.
pub broadcast proof fn lemma_optional_reads_back<T: Encode>(value: Option<T::V>, name: Seq<char>)
    ensures
        #[trigger] optional::<T>(written::<T>(value), name) == Ok::<Option<T::V>, SchemaFault>(
            value,
        ),
{
    reveal(optional);
    reveal(written);
    if let Some(present) = value {
        T::lemma_round_trip(present);
    }
}

/// Puts the member `name` behind the others.
pub fn write_field<T: Encode>(members: &mut Vec<(String, Json)>, name: &str, value: &T)
    ensures
        members_model(final(members)@) == with_field::<T>(
            members_model(old(members)@),
            name@,
            value.deep_view(),
        ),
{
    reveal(with_field);
    let j = value.to_json();
    members.push((name.to_owned(), j));
    assert(members_model(members@) =~= members_model(old(members)@).push((name@, j@)));
}

/// Puts the member `name` behind the others if its value is present.
pub fn write_optional_field<T: Encode>(
    members: &mut Vec<(String, Json)>,
    name: &str,
    value: &Option<T>,
)
    ensures
        members_model(final(members)@) == with_optional_field::<T>(
            members_model(old(members)@),
            name@,
            optional_model(*value),
        ),
{
    reveal(with_optional_field);
    reveal(optional_model);
    match value {
        Some(present) => {
            let j = present.to_json();
            members.push((name.to_owned(), j));
            assert(members_model(members@) =~= members_model(old(members)@).push((name@, j@)));
        },
        None => {},
    }
}

/// What a JSON text is read as: what its value is read as, or the fault
/// that the text is no JSON document.
pub open spec fn text_decoded<T: Decode>(text: Seq<char>) -> Result<T::V, SchemaFault> {
    match parsed_json(text) {
        Some(tree) => T::decoded(tree),
        None => Err(fault(SchemaErrorKind::Malformed)),
    }
}

/// Reads a record from a JSON text.
pub fn from_text<T: Decode>(text: &str) -> (r: Result<T, SchemaError>)
    ensures
        outcome(r) == text_decoded::<T>(text@),
{
    match Json::parse(text) {
        Ok(j) => T::from_json(&j),
        Err(e) => Err(e),
    }
}

/// The JSON text that a record is written as.
pub open spec fn text_encoded<T: Encode>(m: T::V) -> Seq<char> {
    printed_json(stored_tree(T::encoded(m)))
}

/// Writes a record as a JSON text.
pub fn to_text<T: Encode>(value: &T) -> (text: String)
    ensures
        text@ == text_encoded::<T>(value.deep_view()),
{
    value.to_json().to_text()
}

} // verus!
