//! Reading and writing of the plain types that the records are made of:
//! integers, flags, text, single characters, numbers as received, lists.

use crate::json::{items_model, Json, JsonModel, Number, NumberModel};
use crate::schema::{
    fault, outcome, under, Decode, Encode, PathStep, SchemaError, SchemaErrorKind, SchemaFault,
    StepModel,
};
use vstd::prelude::*;

verus! {

/// The integer that `j` holds, where it is an integer from `low` to `high`.
pub open spec fn integer_within(j: JsonModel, low: int, high: int) -> Result<int, SchemaFault> {
    match j {
        JsonModel::Number(NumberModel::Integer(i)) if low <= i <= high => Ok(i),
        _ => Err(fault(SchemaErrorKind::WrongType)),
    }
}

/// Reads an integer from `low` to `high`.
pub fn read_integer(j: &Json, low: i128, high: i128) -> (r: Result<i128, SchemaError>)
    ensures
        match r {
            Ok(i) => integer_within(j@, low as int, high as int) == Ok::<int, SchemaFault>(
                i as int,
            ),
            Err(e) => integer_within(j@, low as int, high as int) == Err::<int, SchemaFault>(
                e.deep_view(),
            ),
        },
{
    match j {
        Json::Number(Number::Unsigned(n)) => {
            let i: i128 = *n as i128;
            if low <= i && i <= high {
                return Ok(i);
            }
        },
        Json::Number(Number::Signed(n)) => {
            let i: i128 = *n as i128;
            if low <= i && i <= high {
                return Ok(i);
            }
        },
        _ => {},
    }
    Err(SchemaError::at_root(SchemaErrorKind::WrongType))
}

impl Decode for u32 {
    open spec fn decoded(j: JsonModel) -> Result<u32, SchemaFault> {
        match integer_within(j, 0, u32::MAX as int) {
            Ok(i) => Ok(i as u32),
            Err(f) => Err(f),
        }
    }

    fn from_json(j: &Json) -> (r: Result<u32, SchemaError>) {
        match read_integer(j, 0, u32::MAX as i128) {
            Ok(i) => Ok(i as u32),
            Err(e) => Err(e),
        }
    }
}

impl Encode for u32 {
    open spec fn encoded(m: u32) -> JsonModel {
        JsonModel::Number(NumberModel::Integer(m as int))
    }

    fn to_json(&self) -> (j: Json) {
        Json::Number(Number::Unsigned(*self as u64))
    }

    proof fn lemma_round_trip(m: u32) {
    }
}

impl Decode for u64 {
    open spec fn decoded(j: JsonModel) -> Result<u64, SchemaFault> {
        match integer_within(j, 0, u64::MAX as int) {
            Ok(i) => Ok(i as u64),
            Err(f) => Err(f),
        }
    }

    fn from_json(j: &Json) -> (r: Result<u64, SchemaError>) {
        match read_integer(j, 0, u64::MAX as i128) {
            Ok(i) => Ok(i as u64),
            Err(e) => Err(e),
        }
    }
}

impl Encode for u64 {
    open spec fn encoded(m: u64) -> JsonModel {
        JsonModel::Number(NumberModel::Integer(m as int))
    }

    fn to_json(&self) -> (j: Json) {
        Json::Number(Number::Unsigned(*self))
    }

    proof fn lemma_round_trip(m: u64) {
    }
}

impl Decode for i32 {
    open spec fn decoded(j: JsonModel) -> Result<i32, SchemaFault> {
        match integer_within(j, i32::MIN as int, i32::MAX as int) {
            Ok(i) => Ok(i as i32),
            Err(f) => Err(f),
        }
    }

    fn from_json(j: &Json) -> (r: Result<i32, SchemaError>) {
        match read_integer(j, i32::MIN as i128, i32::MAX as i128) {
            Ok(i) => Ok(i as i32),
            Err(e) => Err(e),
        }
    }
}

impl Encode for i32 {
    open spec fn encoded(m: i32) -> JsonModel {
        JsonModel::Number(NumberModel::Integer(m as int))
    }

    fn to_json(&self) -> (j: Json) {
        Json::Number(Number::Signed(*self as i64))
    }

    proof fn lemma_round_trip(m: i32) {
    }
}

impl Decode for bool {
    open spec fn decoded(j: JsonModel) -> Result<bool, SchemaFault> {
        match j {
            JsonModel::Bool(b) => Ok(b),
            _ => Err(fault(SchemaErrorKind::WrongType)),
        }
    }

    fn from_json(j: &Json) -> (r: Result<bool, SchemaError>) {
        match j {
            Json::Bool(b) => Ok(*b),
            _ => Err(SchemaError::at_root(SchemaErrorKind::WrongType)),
        }
    }
}

impl Encode for bool {
    open spec fn encoded(m: bool) -> JsonModel {
        JsonModel::Bool(m)
    }

    fn to_json(&self) -> (j: Json) {
        Json::Bool(*self)
    }

    proof fn lemma_round_trip(m: bool) {
    }
}

impl Decode for String {
    open spec fn decoded(j: JsonModel) -> Result<Seq<char>, SchemaFault> {
        match j {
            JsonModel::String(text) => Ok(text),
            _ => Err(fault(SchemaErrorKind::WrongType)),
        }
    }

    fn from_json(j: &Json) -> (r: Result<String, SchemaError>) {
        match j {
            Json::String(text) => Ok(text.clone()),
            _ => Err(SchemaError::at_root(SchemaErrorKind::WrongType)),
        }
    }
}

impl Encode for String {
    open spec fn encoded(m: Seq<char>) -> JsonModel {
        JsonModel::String(m)
    }

    fn to_json(&self) -> (j: Json) {
        Json::String(self.clone())
    }

    proof fn lemma_round_trip(m: Seq<char>) {
    }
}

/// `char::to_string` of std: the text that holds this one character.
#[verifier::external_body]
fn text_of(c: char) -> (text: String)
    ensures
        text@ == seq![c],
{
    c.to_string()
}

impl Decode for char {
    /// A character is written as a text of length one.
    open spec fn decoded(j: JsonModel) -> Result<char, SchemaFault> {
        match j {
            JsonModel::String(text) if text.len() == 1 => Ok(text[0]),
            _ => Err(fault(SchemaErrorKind::WrongType)),
        }
    }

    fn from_json(j: &Json) -> (r: Result<char, SchemaError>) {
        match j {
            Json::String(text) => {
                if text.as_str().unicode_len() == 1 {
                    return Ok(text.as_str().get_char(0));
                }
            },
            _ => {},
        }
        Err(SchemaError::at_root(SchemaErrorKind::WrongType))
    }
}

impl Encode for char {
    open spec fn encoded(m: char) -> JsonModel {
        JsonModel::String(seq![m])
    }

    fn to_json(&self) -> (j: Json) {
        Json::String(text_of(*self))
    }

    proof fn lemma_round_trip(m: char) {
    }
}

impl Decode for Number {
    /// A number is kept as it was received.
    open spec fn decoded(j: JsonModel) -> Result<NumberModel, SchemaFault> {
        match j {
            JsonModel::Number(n) => Ok(n),
            _ => Err(fault(SchemaErrorKind::WrongType)),
        }
    }

    fn from_json(j: &Json) -> (r: Result<Number, SchemaError>) {
        match j {
            Json::Number(n) => Ok(n.duplicate()),
            _ => Err(SchemaError::at_root(SchemaErrorKind::WrongType)),
        }
    }
}

impl Encode for Number {
    open spec fn encoded(m: NumberModel) -> JsonModel {
        JsonModel::Number(m)
    }

    fn to_json(&self) -> (j: Json) {
        Json::Number(self.duplicate())
    }

    proof fn lemma_round_trip(m: NumberModel) {
    }
}

/// The outcome of reading a list item by item, from the first on: the list
/// of what was read, or the fault of the first item that failed, under its
/// position.
pub open spec fn collected<V>(results: Seq<Result<V, SchemaFault>>) -> Result<Seq<V>, SchemaFault>
    decreases results.len(),
{
    if results.len() == 0 {
        Ok(Seq::empty())
    } else {
        match collected(results.drop_last()) {
            Err(f) => Err(f),
            Ok(before) => match results.last() {
                Ok(x) => Ok(before.push(x)),
                Err(f) => Err(under(StepModel::Item(results.len() - 1), f)),
            },
        }
    }
}

/// Once the items up to a position have failed, the whole list fails in the
/// same way.
pub proof fn lemma_fault_stays<V>(results: Seq<Result<V, SchemaFault>>, upto: int)
    requires
        0 <= upto <= results.len(),
        collected(results.subrange(0, upto)) is Err,
    ensures
        collected(results) == collected(results.subrange(0, upto)),
    decreases results.len() - upto,
{
    if upto < results.len() {
        assert(results.subrange(0, upto + 1).drop_last() == results.subrange(0, upto));
        lemma_fault_stays(results, upto + 1);
    } else {
        assert(results.subrange(0, upto) == results);
    }
}

/// One more item read, after items that were all read well.
pub proof fn lemma_collected_next<V>(results: Seq<Result<V, SchemaFault>>, upto: int)
    requires
        0 <= upto < results.len(),
        collected(results.subrange(0, upto)) is Ok,
    ensures
        collected(results.subrange(0, upto + 1)) == match results[upto] {
            Ok(x) => Ok::<Seq<V>, SchemaFault>(collected(results.subrange(0, upto))->Ok_0.push(x)),
            Err(f) => Err::<Seq<V>, SchemaFault>(under(StepModel::Item(upto), f)),
        },
{
    let head = results.subrange(0, upto + 1);
    assert(head.drop_last() == results.subrange(0, upto));
    assert(head.last() == results[upto]);
}

/// Where every item was read well, the list is what the items were read as.
pub proof fn lemma_collected_all<V>(results: Seq<Result<V, SchemaFault>>, values: Seq<V>)
    requires
        results.len() == values.len(),
        forall|i: int| 0 <= i < values.len() ==> results[i] == Ok::<V, SchemaFault>(values[i]),
    ensures
        collected(results) == Ok::<Seq<V>, SchemaFault>(values),
    decreases values.len(),
{
    if values.len() > 0 {
        lemma_collected_all(results.drop_last(), values.drop_last());
        assert(values.drop_last().push(values.last()) == values);
    } else {
        assert(values == Seq::<V>::empty());
    }
}

/// A list that was read well has an entry for each item, in the order of the
/// items, and each entry is what its item was read as.
pub proof fn lemma_collected_each<V>(results: Seq<Result<V, SchemaFault>>, values: Seq<V>)
    requires
        collected(results) == Ok::<Seq<V>, SchemaFault>(values),
    ensures
        values.len() == results.len(),
        forall|i: int| 0 <= i < results.len() ==> results[i] == Ok::<V, SchemaFault>(values[i]),
    decreases results.len(),
{
    if results.len() > 0 {
        let before = collected(results.drop_last())->Ok_0;
        lemma_collected_each(results.drop_last(), before);
        assert forall|i: int| 0 <= i < results.len() implies results[i] == Ok::<V, SchemaFault>(
            values[i],
        ) by {
            if i < results.len() - 1 {
                assert(results.drop_last()[i] == results[i]);
            }
        }
    }
}

/// What each item of an array is read as.
pub open spec fn items_read<T: Decode>(items: Seq<JsonModel>) -> Seq<Result<T::V, SchemaFault>> {
    Seq::new(items.len(), |i: int| T::decoded(items[i]))
}

/// What the items of a list are written as.
pub open spec fn items_encoded<T: Encode>(items: Seq<T::V>) -> Seq<JsonModel> {
    Seq::new(items.len(), |i: int| T::encoded(items[i]))
}

impl<T: Decode> Decode for Vec<T> {
    open spec fn decoded(j: JsonModel) -> Result<Seq<T::V>, SchemaFault> {
        match j {
            JsonModel::Array(items) => collected(items_read::<T>(items)),
            _ => Err(fault(SchemaErrorKind::WrongType)),
        }
    }

    fn from_json(j: &Json) -> (r: Result<Vec<T>, SchemaError>) {
        match j {
            Json::Array(items) => {
                let ghost results = items_read::<T>(j@->Array_0);
                let mut list: Vec<T> = Vec::new();
                let mut i: usize = 0;
                assert(results.subrange(0, 0) == Seq::<Result<T::V, SchemaFault>>::empty());
                assert(list.deep_view() == Seq::<T::V>::empty());
                while i < items.len()
                    invariant
                        i <= items.len(),
                        j@ is Array,
                        results == items_read::<T>(j@->Array_0),
                        results.len() == items.len(),
                        forall|k: int|
                            0 <= k < items.len() ==> results[k] == T::decoded(items@[k]@),
                        collected(results.subrange(0, i as int)) == Ok::<Seq<T::V>, SchemaFault>(
                            list.deep_view(),
                        ),
                    decreases items.len() - i,
                {
                    let ghost before = list.deep_view();
                    proof {
                        lemma_collected_next(results, i as int);
                    }
                    match T::from_json(&items[i]) {
                        Ok(x) => {
                            list.push(x);
                            assert(list.deep_view() == before.push(x.deep_view()));
                        },
                        Err(e) => {
                            proof {
                                lemma_fault_stays(results, i + 1);
                            }
                            return Err(e.below(PathStep::Item(i)));
                        },
                    }
                    i = i + 1;
                }
                assert(results.subrange(0, i as int) == results);
                Ok(list)
            },
            _ => Err(SchemaError::at_root(SchemaErrorKind::WrongType)),
        }
    }
}

impl<T: Encode> Encode for Vec<T> {
    open spec fn encoded(m: Seq<T::V>) -> JsonModel {
        JsonModel::Array(items_encoded::<T>(m))
    }

    fn to_json(&self) -> (j: Json) {
        let mut items: Vec<Json> = Vec::new();
        let mut i: usize = 0;
        while i < self.len()
            invariant
                i <= self.len(),
                items.len() == i,
                forall|k: int| 0 <= k < i ==> items@[k]@ == T::encoded(self@[k].deep_view()),
            decreases self.len() - i,
        {
            items.push(self[i].to_json());
            i = i + 1;
        }
        assert(items_model(items@) == items_encoded::<T>(self.deep_view()));
        Json::array(items)
    }

    proof fn lemma_round_trip(m: Seq<T::V>) {
        assert forall|i: int| 0 <= i < m.len() implies items_read::<T>(items_encoded::<T>(m))[i]
            == Ok::<T::V, SchemaFault>(m[i]) by {
            T::lemma_round_trip(m[i]);
        }
        lemma_collected_all(items_read::<T>(items_encoded::<T>(m)), m);
    }
}

} // verus!
