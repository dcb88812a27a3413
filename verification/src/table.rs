//! A table from names to values, written as a JSON object whose member
//! names are the data themselves (sizes of an avatar, axes of a range).

use crate::json::{distinct_names, member, members_model, Json, JsonModel};
use crate::schema::{
    fault, under, Decode, Encode, PathStep, SchemaError, SchemaErrorKind, SchemaFault, StepModel,
};
use vstd::prelude::*;

verus! {

/// The entries of a table, in the order in which they were received. A
/// table that was read from a parsed document, or built by [`Table::insert`],
/// has each name once; in any other, the later entry of a name is the one
/// that a lookup finds.
#[derive(Debug, PartialEq)]
pub struct Table<T> {
    pub entries: Vec<(String, T)>,
}

/// The position of the first entry called `name`, if there is one.
pub open spec fn position<V>(entries: Seq<(Seq<char>, V)>, name: Seq<char>) -> Option<int> {
    if exists|i: int| 0 <= i < entries.len() && entries[i].0 == name {
        Some(
            choose|i: int|
                0 <= i < entries.len() && entries[i].0 == name && forall|k: int|
                    0 <= k < i ==> entries[k].0 != name,
        )
    } else {
        None
    }
}

/// The entries with `value` under `name`: in the place of the first entry of
/// that name, or behind the others where there is none.
pub open spec fn put<V>(entries: Seq<(Seq<char>, V)>, name: Seq<char>, value: V) -> Seq<
    (Seq<char>, V),
> {
    match position(entries, name) {
        Some(i) => entries.update(i, (name, value)),
        None => entries.push((name, value)),
    }
}

/// The first entry of a name is where `position` says, and no entry before
/// it has that name.
pub proof fn lemma_position_is_first<V>(entries: Seq<(Seq<char>, V)>, name: Seq<char>, at: int)
    requires
        0 <= at < entries.len(),
        entries[at].0 == name,
        forall|k: int| 0 <= k < at ==> entries[k].0 != name,
    ensures
        position(entries, name) == Some(at),
{
    let i = choose|i: int|
        0 <= i < entries.len() && entries[i].0 == name && forall|k: int|
            0 <= k < i ==> entries[k].0 != name;
    if i < at {
        assert(entries[i].0 != name);
    }
    if at < i {
        assert(entries[at].0 != name);
    }
}

/// Putting a value into a table that has each name once leaves it so, and
/// the value is then the one found under its name, while every other name
/// finds what it found before.
pub proof fn lemma_put_keeps_a_mapping<V>(
    entries: Seq<(Seq<char>, V)>,
    name: Seq<char>,
    value: V,
    wanted: Seq<char>,
)
    requires
        distinct_names(entries),
    ensures
        distinct_names(put(entries, name, value)),
        member(put(entries, name, value), wanted) == if name == wanted {
            Some(value)
        } else {
            member(entries, wanted)
        },
{
    match position(entries, name) {
        Some(at) => {
            lemma_member_of_a_mapping(entries.update(at, (name, value)), at);
            if name != wanted {
                lemma_member_update(entries, at, value, wanted);
            }
        },
        None => {
            crate::json::lemma_member_push(entries, name, value, wanted);
        },
    }
}

/// In a table that has each name once, an entry is the one found under its
/// name.
pub proof fn lemma_member_of_a_mapping<V>(entries: Seq<(Seq<char>, V)>, at: int)
    requires
        distinct_names(entries),
        0 <= at < entries.len(),
    ensures
        member(entries, entries[at].0) == Some(entries[at].1),
    decreases entries.len(),
{
    reveal(member);
    if at < entries.len() - 1 {
        assert(entries.last().0 != entries[at].0);
        lemma_member_of_a_mapping(entries.drop_last(), at);
    }
}

/// A new value under a name changes nothing for another name.
pub proof fn lemma_member_update<V>(
    entries: Seq<(Seq<char>, V)>,
    at: int,
    value: V,
    wanted: Seq<char>,
)
    requires
        0 <= at < entries.len(),
        entries[at].0 != wanted,
    ensures
        member(entries.update(at, (entries[at].0, value)), wanted) == member(entries, wanted),
    decreases entries.len(),
{
    reveal(member);
    let updated = entries.update(at, (entries[at].0, value));
    if at < entries.len() - 1 {
        assert(updated.drop_last() == entries.drop_last().update(at, (entries[at].0, value)));
        assert(updated.last() == entries.last());
        lemma_member_update(entries.drop_last(), at, value, wanted);
    } else {
        assert(updated.drop_last() == entries.drop_last());
    }
}

impl<T: DeepView> DeepView for Table<T> {
    type V = Seq<(Seq<char>, T::V)>;

    open spec fn deep_view(&self) -> Seq<(Seq<char>, T::V)> {
        self.entries.deep_view()
    }
}

impl<T: DeepView> Table<T> {
    /// The table without entries.
    pub fn new() -> (table: Table<T>)
        ensures
            table.deep_view() == Seq::<(Seq<char>, T::V)>::empty(),
    {
        let table = Table { entries: Vec::new() };
        assert(table.deep_view() =~= Seq::empty());
        table
    }

    /// The number of entries.
    pub fn len(&self) -> (n: usize)
        ensures
            n == self.deep_view().len(),
    {
        self.entries.len()
    }

    /// Whether the table has each name once.
    pub open spec fn is_mapping(&self) -> bool {
        distinct_names(self.deep_view())
    }

    /// Puts `value` under `name`: in the place of the first entry of that
    /// name, or behind the others where there is none.
    pub fn insert(&mut self, name: String, value: T)
        ensures
            final(self).deep_view() == put(old(self).deep_view(), name@, value.deep_view()),
            old(self).is_mapping() ==> final(self).is_mapping(),
    {
        let ghost before = self.deep_view();
        let ghost entry = (name@, value.deep_view());
        let mut i: usize = 0;
        while i < self.entries.len() && !self.entries[i].0.as_str().eq(name.as_str())
            invariant
                i <= self.entries.len(),
                self.deep_view() == before,
                *self == *old(self),
                forall|k: int| 0 <= k < i ==> before[k].0 != name@,
            decreases self.entries.len() - i,
        {
            i = i + 1;
        }
        proof {
            if distinct_names(before) {
                lemma_put_keeps_a_mapping(before, name@, value.deep_view(), name@);
            }
        }
        if i < self.entries.len() {
            proof {
                lemma_position_is_first(before, name@, i as int);
            }
            self.entries.set(i, (name, value));
            assert(self.deep_view() =~= before.update(i as int, entry));
        } else {
            self.entries.push((name, value));
            assert(self.deep_view() =~= before.push(entry));
        }
    }

    /// The value of the last entry called `name`.
    pub fn get(&self, name: &str) -> (found: Option<&T>)
        ensures
            found.deep_view() == member(self.deep_view(), name@),
    {
        let ghost all = self.deep_view();
        let mut i: usize = self.entries.len();
        proof {
            reveal(member);
        }
        assert(all.subrange(0, i as int) == all);
        while i > 0
            invariant
                i <= self.entries.len(),
                all == self.deep_view(),
                member(all, name@) == member(all.subrange(0, i as int), name@),
            decreases i,
        {
            let ghost head = all.subrange(0, i as int);
            i = i - 1;
            proof {
                reveal(member);
            }
            assert(head.len() > 0 && head.last() == all[i as int]);
            assert(head.drop_last() == all.subrange(0, i as int));
            if self.entries[i].0.as_str().eq(name) {
                return Some(&self.entries[i].1);
            }
        }
        None
    }
}

/// What the members of an object are read as, entry by entry from the first
/// on: the table of what each value is read as, or the fault of the first
/// that fails, under its name.
pub open spec fn entries_decoded<T: Decode>(members: Seq<(Seq<char>, JsonModel)>) -> Result<
    Seq<(Seq<char>, T::V)>,
    SchemaFault,
>
    decreases members.len(),
{
    if members.len() == 0 {
        Ok(Seq::empty())
    } else {
        match entries_decoded::<T>(members.drop_last()) {
            Err(f) => Err(f),
            Ok(before) => match T::decoded(members.last().1) {
                Ok(x) => Ok(before.push((members.last().0, x))),
                Err(f) => Err(under(StepModel::Field(members.last().0), f)),
            },
        }
    }
}

/// What the entries of a table are written as.
pub open spec fn entries_encoded<T: Encode>(entries: Seq<(Seq<char>, T::V)>) -> Seq<
    (Seq<char>, JsonModel),
> {
    Seq::new(entries.len(), |i: int| (entries[i].0, T::encoded(entries[i].1)))
}

/// Once the members up to a position have failed, the whole object fails in
/// the same way.
pub proof fn lemma_entry_fault_stays<T: Decode>(members: Seq<(Seq<char>, JsonModel)>, upto: int)
    requires
        0 <= upto <= members.len(),
        entries_decoded::<T>(members.subrange(0, upto)) is Err,
    ensures
        entries_decoded::<T>(members) == entries_decoded::<T>(members.subrange(0, upto)),
    decreases members.len() - upto,
{
    if upto < members.len() {
        assert(members.subrange(0, upto + 1).drop_last() == members.subrange(0, upto));
        lemma_entry_fault_stays::<T>(members, upto + 1);
    } else {
        assert(members.subrange(0, upto) == members);
    }
}

/// A table that was read has an entry for each member of the object, in the
/// order of the members and under their names, with what the value of the
/// member is read as; so it has each name once where the object has.
pub proof fn lemma_entries_keep_names<T: Decode>(
    members: Seq<(Seq<char>, JsonModel)>,
    entries: Seq<(Seq<char>, T::V)>,
)
    requires
        entries_decoded::<T>(members) == Ok::<Seq<(Seq<char>, T::V)>, SchemaFault>(entries),
    ensures
        entries.len() == members.len(),
        forall|i: int|
            0 <= i < members.len() ==> (#[trigger] entries[i]).0 == members[i].0 && T::decoded(
                members[i].1,
            ) == Ok::<T::V, SchemaFault>(entries[i].1),
        distinct_names(members) ==> distinct_names(entries),
    decreases members.len(),
{
    if members.len() > 0 {
        let before = entries_decoded::<T>(members.drop_last())->Ok_0;
        lemma_entries_keep_names::<T>(members.drop_last(), before);
        assert forall|i: int| 0 <= i < members.len() implies (#[trigger] entries[i]).0
            == members[i].0 && T::decoded(members[i].1) == Ok::<T::V, SchemaFault>(
            entries[i].1,
        ) by {
            if i < members.len() - 1 {
                assert(entries[i] == before[i]);
                assert(members.drop_last()[i] == members[i]);
            }
        }
    }
}

/// Reading the members that a table was written as gives the table back.
pub proof fn lemma_entries_round_trip<T: Encode>(entries: Seq<(Seq<char>, T::V)>)
    ensures
        entries_decoded::<T>(entries_encoded::<T>(entries)) == Ok::<
            Seq<(Seq<char>, T::V)>,
            SchemaFault,
        >(entries),
    decreases entries.len(),
{
    if entries.len() > 0 {
        lemma_entries_round_trip::<T>(entries.drop_last());
        T::lemma_round_trip(entries.last().1);
        assert(entries_encoded::<T>(entries).drop_last() == entries_encoded::<T>(
            entries.drop_last(),
        ));
        assert(entries.drop_last().push(entries.last()) == entries);
    } else {
        assert(entries == Seq::<(Seq<char>, T::V)>::empty());
    }
}

impl<T: Decode> Decode for Table<T> {
    open spec fn decoded(j: JsonModel) -> Result<Seq<(Seq<char>, T::V)>, SchemaFault> {
        match j {
            JsonModel::Object(members) => entries_decoded::<T>(members),
            _ => Err(fault(SchemaErrorKind::WrongType)),
        }
    }

    fn from_json(j: &Json) -> (r: Result<Table<T>, SchemaError>) {
        match j {
            Json::Object(members) => {
                let ghost all = j@->Object_0;
                let mut table: Table<T> = Table::new();
                let mut i: usize = 0;
                assert(all.subrange(0, 0) == Seq::<(Seq<char>, JsonModel)>::empty());
                while i < members.len()
                    invariant
                        i <= members.len(),
                        j@ == JsonModel::Object(all),
                        all.len() == members.len(),
                        forall|k: int|
                            0 <= k < all.len() ==> all[k] == (members@[k].0@, members@[k].1@),
                        entries_decoded::<T>(all.subrange(0, i as int)) == Ok::<
                            Seq<(Seq<char>, T::V)>,
                            SchemaFault,
                        >(table.deep_view()),
                    decreases members.len() - i,
                {
                    let ghost head = all.subrange(0, i + 1);
                    assert(head.drop_last() == all.subrange(0, i as int));
                    assert(head.last() == (members@[i as int].0@, members@[i as int].1@));
                    match T::from_json(&members[i].1) {
                        Ok(x) => {
                            let ghost before = table.deep_view();
                            let name = members[i].0.clone();
                            table.entries.push((name, x));
                            assert(table.deep_view() == before.push((name@, x.deep_view())));
                        },
                        Err(e) => {
                            let e = e.below(PathStep::Field(members[i].0.clone()));
                            proof {
                                assert(entries_decoded::<T>(head) == Err::<
                                    Seq<(Seq<char>, T::V)>,
                                    SchemaFault,
                                >(e.deep_view()));
                                lemma_entry_fault_stays::<T>(all, i + 1);
                            }
                            return Err(e);
                        },
                    }
                    i = i + 1;
                }
                assert(all.subrange(0, i as int) == all);
                Ok(table)
            },
            _ => Err(SchemaError::at_root(SchemaErrorKind::WrongType)),
        }
    }
}

impl<T: Encode> Encode for Table<T> {
    open spec fn encoded(m: Seq<(Seq<char>, T::V)>) -> JsonModel {
        JsonModel::Object(entries_encoded::<T>(m))
    }

    fn to_json(&self) -> (j: Json) {
        let mut members: Vec<(String, Json)> = Vec::new();
        let mut i: usize = 0;
        while i < self.entries.len()
            invariant
                i <= self.entries.len(),
                members.len() == i,
                forall|k: int|
                    0 <= k < i ==> members@[k].0@ == self.entries@[k].0@ && members@[k].1@
                        == T::encoded(self.entries@[k].1.deep_view()),
            decreases self.entries.len() - i,
        {
            members.push((self.entries[i].0.clone(), self.entries[i].1.to_json()));
            i = i + 1;
        }
        assert(members_model(members@) == entries_encoded::<T>(self.deep_view()));
        Json::object(members)
    }

    proof fn lemma_round_trip(m: Seq<(Seq<char>, T::V)>) {
        lemma_entries_round_trip::<T>(m);
    }
}

} // verus!
