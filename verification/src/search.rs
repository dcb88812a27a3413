//! One entry of a search result, with the song in full.

use crate::json::{lemma_member_none, lemma_outline, member, members_model, Json, JsonModel};
use crate::schema::{
    fault, field, lemma_member_with_field, lemma_member_with_optional_field,
    lemma_optional_reads_back, lemma_or_else_none, lemma_required_reads_back, read_field,
    with_field, write_field, Decode, Encode, SchemaError, SchemaErrorKind, SchemaFault,
};
use crate::song::{Song, SongModel};
use vstd::prelude::*;

verus! {

/// One entry of a search result.
#[derive(Debug, PartialEq)]
pub struct Hit {
    /// The index that the hit came from, such as `song`.
    pub index: String,
    /// The kind of the hit, such as `song`. Its member is called `type`.
    pub hit_type: String,
    /// The song that was found.
    pub result: Song,
}

/// The model of a [`Hit`].
pub struct HitModel {
    pub index: Seq<char>,
    pub hit_type: Seq<char>,
    pub result: SongModel,
}

impl DeepView for Hit {
    type V = HitModel;

    open spec fn deep_view(&self) -> HitModel {
        HitModel {
            index: self.index.deep_view(),
            hit_type: self.hit_type.deep_view(),
            result: self.result.deep_view(),
        }
    }
}

impl Decode for Hit {
    #[verifier::opaque]
    open spec fn decoded(j: JsonModel) -> Result<HitModel, SchemaFault> {
        let index = field::<String>(j, "index"@);
        let hit_type = field::<String>(j, "type"@);
        let result = field::<Song>(j, "result"@);
        if !(j is Object) {
            Err(fault(SchemaErrorKind::WrongType))
        } else if index is Err {
            Err(index->Err_0)
        } else if hit_type is Err {
            Err(hit_type->Err_0)
        } else if result is Err {
            Err(result->Err_0)
        } else {
            Ok(
                HitModel {
                    index: index->Ok_0,
                    hit_type: hit_type->Ok_0,
                    result: result->Ok_0,
                },
            )
        }
    }

    fn from_json(j: &Json) -> (r: Result<Hit, SchemaError>) {
        reveal(<Hit as Decode>::decoded);
        if !j.is_object() {
            return Err(SchemaError::at_root(SchemaErrorKind::WrongType));
        }
        let index = match read_field::<String>(j, "index") {
            Ok(value) => value,
            Err(e) => return Err(e),
        };
        let hit_type = match read_field::<String>(j, "type") {
            Ok(value) => value,
            Err(e) => return Err(e),
        };
        let result = match read_field::<Song>(j, "result") {
            Ok(value) => value,
            Err(e) => return Err(e),
        };
        Ok(Hit { index, hit_type, result })
    }
}

impl Hit {
    /// Whether the record reads the member of that name.
    pub open spec fn reads(name: Seq<char>) -> bool {
        name == "index"@
        || name == "type"@
        || name == "result"@
    }

    /// What an object is read as depends on the members that the record
    /// reads alone: members of other names, wherever they stand, are ignored.
    pub proof fn lemma_other_members_ignored(
        first: Seq<(Seq<char>, JsonModel)>,
        second: Seq<(Seq<char>, JsonModel)>,
    )
        requires
            forall|name: Seq<char>|
                Self::reads(name) ==> member(first, name) == member(second, name),
        ensures
            Self::decoded(JsonModel::Object(first)) == Self::decoded(JsonModel::Object(second)),
    {
        reveal(<Hit as Decode>::decoded);
        assert(Self::reads("index"@));
        assert(Self::reads("type"@));
        assert(Self::reads("result"@));
    }
}

impl Encode for Hit {
    open spec fn encoded(m: HitModel) -> JsonModel {
        let members = Seq::empty();
        let members = with_field::<String>(members, "index"@, m.index);
        let members = with_field::<String>(members, "type"@, m.hit_type);
        let members = with_field::<Song>(members, "result"@, m.result);
        JsonModel::Object(members)
    }

    fn to_json(&self) -> (j: Json) {
        let mut members: Vec<(String, Json)> = Vec::new();
        assert(members_model(members@) == Seq::<(Seq<char>, JsonModel)>::empty());
        write_field::<String>(&mut members, "index", &self.index);
        write_field::<String>(&mut members, "type", &self.hit_type);
        write_field::<Song>(&mut members, "result", &self.result);
        Json::object(members)
    }

    proof fn lemma_round_trip(m: HitModel) {
        broadcast use {
            lemma_member_none,
            lemma_member_with_field,
            lemma_member_with_optional_field,
            lemma_or_else_none,
            lemma_required_reads_back,
            lemma_optional_reads_back,
        };

        reveal(<Hit as Decode>::decoded);
        reveal_strlit("index");
        reveal_strlit("type");
        reveal_strlit("result");
        lemma_outline("index"@);
        lemma_outline("type"@);
        lemma_outline("result"@);
    }
}

} // verus!
