//! Annotations and the text fragments that they are anchored to.

use crate::{Body, BodyModel};
use crate::json::{
    lemma_member_none, lemma_outline, member, members_model, Json, JsonModel, Number, NumberModel,
};
use crate::schema::{
    fault, field, lemma_member_with_field, lemma_member_with_optional_field,
    lemma_optional_reads_back, lemma_or_else_none, lemma_required_reads_back, optional_field,
    optional_model, read_field, read_optional_field, with_field, with_optional_field, write_field,
    write_optional_field, Decode, Encode, SchemaError, SchemaErrorKind, SchemaFault,
};
use crate::table::Table;
use crate::user::{User, UserMetadata, UserMetadataModel, UserModel};
use vstd::prelude::*;

verus! {

/// The anchor of one or more annotations on a fragment of text.
#[derive(Debug, PartialEq)]
pub struct Referent {
    pub _type: String,
    pub annotator_id: u32,
    pub annotator_login: String,
    pub api_path: String,
    pub classification: String,
    pub fragment: String,
    pub id: u32,
    /// Sent only to a `user-core` level token.
    pub ios_app_url: Option<String>,
    pub is_description: bool,
    /// Sent only to a `user-core` level token.
    pub is_image: Option<bool>,
    pub path: String,
    pub range: Table<String>,
    pub song_id: Option<u32>,
    pub url: String,
    /// Sent only to a `user-core` level token.
    pub current_user_metadata: Option<UserMetadata>,
    pub annotations: Vec<Annotation>,
}

/// The model of a [`Referent`].
pub struct ReferentModel {
    pub _type: Seq<char>,
    pub annotator_id: u32,
    pub annotator_login: Seq<char>,
    pub api_path: Seq<char>,
    pub classification: Seq<char>,
    pub fragment: Seq<char>,
    pub id: u32,
    pub ios_app_url: Option<Seq<char>>,
    pub is_description: bool,
    pub is_image: Option<bool>,
    pub path: Seq<char>,
    pub range: Seq<(Seq<char>, Seq<char>)>,
    pub song_id: Option<u32>,
    pub url: Seq<char>,
    pub current_user_metadata: Option<UserMetadataModel>,
    pub annotations: Seq<AnnotationModel>,
}

impl DeepView for Referent {
    type V = ReferentModel;

    open spec fn deep_view(&self) -> ReferentModel {
        ReferentModel {
            _type: self._type.deep_view(),
            annotator_id: self.annotator_id.deep_view(),
            annotator_login: self.annotator_login.deep_view(),
            api_path: self.api_path.deep_view(),
            classification: self.classification.deep_view(),
            fragment: self.fragment.deep_view(),
            id: self.id.deep_view(),
            ios_app_url: optional_model(self.ios_app_url),
            is_description: self.is_description.deep_view(),
            is_image: optional_model(self.is_image),
            path: self.path.deep_view(),
            range: self.range.deep_view(),
            song_id: optional_model(self.song_id),
            url: self.url.deep_view(),
            current_user_metadata: optional_model(self.current_user_metadata),
            annotations: self.annotations.deep_view(),
        }
    }
}

impl Decode for Referent {
    #[verifier::opaque]
    open spec fn decoded(j: JsonModel) -> Result<ReferentModel, SchemaFault> {
        let _type = field::<String>(j, "_type"@);
        let annotator_id = field::<u32>(j, "annotator_id"@);
        let annotator_login = field::<String>(j, "annotator_login"@);
        let api_path = field::<String>(j, "api_path"@);
        let classification = field::<String>(j, "classification"@);
        let fragment = field::<String>(j, "fragment"@);
        let id = field::<u32>(j, "id"@);
        let ios_app_url = optional_field::<String>(j, "ios_app_url"@);
        let is_description = field::<bool>(j, "is_description"@);
        let is_image = optional_field::<bool>(j, "is_image"@);
        let path = field::<String>(j, "path"@);
        let range = field::<Table<String>>(j, "range"@);
        let song_id = optional_field::<u32>(j, "song_id"@);
        let url = field::<String>(j, "url"@);
        let current_user_metadata = optional_field::<UserMetadata>(j, "current_user_metadata"@);
        let annotations = field::<Vec<Annotation>>(j, "annotations"@);
        if !(j is Object) {
            Err(fault(SchemaErrorKind::WrongType))
        } else if _type is Err {
            Err(_type->Err_0)
        } else if annotator_id is Err {
            Err(annotator_id->Err_0)
        } else if annotator_login is Err {
            Err(annotator_login->Err_0)
        } else if api_path is Err {
            Err(api_path->Err_0)
        } else if classification is Err {
            Err(classification->Err_0)
        } else if fragment is Err {
            Err(fragment->Err_0)
        } else if id is Err {
            Err(id->Err_0)
        } else if ios_app_url is Err {
            Err(ios_app_url->Err_0)
        } else if is_description is Err {
            Err(is_description->Err_0)
        } else if is_image is Err {
            Err(is_image->Err_0)
        } else if path is Err {
            Err(path->Err_0)
        } else if range is Err {
            Err(range->Err_0)
        } else if song_id is Err {
            Err(song_id->Err_0)
        } else if url is Err {
            Err(url->Err_0)
        } else if current_user_metadata is Err {
            Err(current_user_metadata->Err_0)
        } else if annotations is Err {
            Err(annotations->Err_0)
        } else {
            Ok(
                ReferentModel {
                    _type: _type->Ok_0,
                    annotator_id: annotator_id->Ok_0,
                    annotator_login: annotator_login->Ok_0,
                    api_path: api_path->Ok_0,
                    classification: classification->Ok_0,
                    fragment: fragment->Ok_0,
                    id: id->Ok_0,
                    ios_app_url: ios_app_url->Ok_0,
                    is_description: is_description->Ok_0,
                    is_image: is_image->Ok_0,
                    path: path->Ok_0,
                    range: range->Ok_0,
                    song_id: song_id->Ok_0,
                    url: url->Ok_0,
                    current_user_metadata: current_user_metadata->Ok_0,
                    annotations: annotations->Ok_0,
                },
            )
        }
    }

    fn from_json(j: &Json) -> (r: Result<Referent, SchemaError>) {
        reveal(<Referent as Decode>::decoded);
        if !j.is_object() {
            return Err(SchemaError::at_root(SchemaErrorKind::WrongType));
        }
        let _type = match read_field::<String>(j, "_type") {
            Ok(value) => value,
            Err(e) => return Err(e),
        };
        let annotator_id = match read_field::<u32>(j, "annotator_id") {
            Ok(value) => value,
            Err(e) => return Err(e),
        };
        let annotator_login = match read_field::<String>(j, "annotator_login") {
            Ok(value) => value,
            Err(e) => return Err(e),
        };
        let api_path = match read_field::<String>(j, "api_path") {
            Ok(value) => value,
            Err(e) => return Err(e),
        };
        let classification = match read_field::<String>(j, "classification") {
            Ok(value) => value,
            Err(e) => return Err(e),
        };
        let fragment = match read_field::<String>(j, "fragment") {
            Ok(value) => value,
            Err(e) => return Err(e),
        };
        let id = match read_field::<u32>(j, "id") {
            Ok(value) => value,
            Err(e) => return Err(e),
        };
        let ios_app_url = match read_optional_field::<String>(j, "ios_app_url") {
            Ok(value) => value,
            Err(e) => return Err(e),
        };
        let is_description = match read_field::<bool>(j, "is_description") {
            Ok(value) => value,
            Err(e) => return Err(e),
        };
        let is_image = match read_optional_field::<bool>(j, "is_image") {
            Ok(value) => value,
            Err(e) => return Err(e),
        };
        let path = match read_field::<String>(j, "path") {
            Ok(value) => value,
            Err(e) => return Err(e),
        };
        let range = match read_field::<Table<String>>(j, "range") {
            Ok(value) => value,
            Err(e) => return Err(e),
        };
        let song_id = match read_optional_field::<u32>(j, "song_id") {
            Ok(value) => value,
            Err(e) => return Err(e),
        };
        let url = match read_field::<String>(j, "url") {
            Ok(value) => value,
            Err(e) => return Err(e),
        };
        let current_user_metadata = match read_optional_field::<UserMetadata>(
            j,
            "current_user_metadata",
        ) {
            Ok(value) => value,
            Err(e) => return Err(e),
        };
        let annotations = match read_field::<Vec<Annotation>>(j, "annotations") {
            Ok(value) => value,
            Err(e) => return Err(e),
        };
        Ok(
            Referent {
                _type,
                annotator_id,
                annotator_login,
                api_path,
                classification,
                fragment,
                id,
                ios_app_url,
                is_description,
                is_image,
                path,
                range,
                song_id,
                url,
                current_user_metadata,
                annotations,
            },
        )
    }
}

impl Referent {
    /// Whether the record reads the member of that name.
    pub open spec fn reads(name: Seq<char>) -> bool {
        name == "_type"@
        || name == "annotator_id"@
        || name == "annotator_login"@
        || name == "api_path"@
        || name == "classification"@
        || name == "fragment"@
        || name == "id"@
        || name == "ios_app_url"@
        || name == "is_description"@
        || name == "is_image"@
        || name == "path"@
        || name == "range"@
        || name == "song_id"@
        || name == "url"@
        || name == "current_user_metadata"@
        || name == "annotations"@
    }

    /// What an object is read as depends on the members that the record
    /// reads alone: members of other names, wherever they stand, are ignored.
    pub proof fn lemma_other_members_ignored(
        first: Seq<(Seq<char>, JsonModel)>,
        second: Seq<(Seq<char>, JsonModel)>,
    )
        requires
            forall|name: Seq<char>|
                Self::reads(name) ==> member(first, name) == member(second, name),
        ensures
            Self::decoded(JsonModel::Object(first)) == Self::decoded(JsonModel::Object(second)),
    {
        reveal(<Referent as Decode>::decoded);
        assert(Self::reads("_type"@));
        assert(Self::reads("annotator_id"@));
        assert(Self::reads("annotator_login"@));
        assert(Self::reads("api_path"@));
        assert(Self::reads("classification"@));
        assert(Self::reads("fragment"@));
        assert(Self::reads("id"@));
        assert(Self::reads("ios_app_url"@));
        assert(Self::reads("is_description"@));
        assert(Self::reads("is_image"@));
        assert(Self::reads("path"@));
        assert(Self::reads("range"@));
        assert(Self::reads("song_id"@));
        assert(Self::reads("url"@));
        assert(Self::reads("current_user_metadata"@));
        assert(Self::reads("annotations"@));
    }
}

impl Encode for Referent {
    open spec fn encoded(m: ReferentModel) -> JsonModel {
        let members = Seq::empty();
        let members = with_field::<String>(members, "_type"@, m._type);
        let members = with_field::<u32>(members, "annotator_id"@, m.annotator_id);
        let members = with_field::<String>(members, "annotator_login"@, m.annotator_login);
        let members = with_field::<String>(members, "api_path"@, m.api_path);
        let members = with_field::<String>(members, "classification"@, m.classification);
        let members = with_field::<String>(members, "fragment"@, m.fragment);
        let members = with_field::<u32>(members, "id"@, m.id);
        let members = with_optional_field::<String>(members, "ios_app_url"@, m.ios_app_url);
        let members = with_field::<bool>(members, "is_description"@, m.is_description);
        let members = with_optional_field::<bool>(members, "is_image"@, m.is_image);
        let members = with_field::<String>(members, "path"@, m.path);
        let members = with_field::<Table<String>>(members, "range"@, m.range);
        let members = with_optional_field::<u32>(members, "song_id"@, m.song_id);
        let members = with_field::<String>(members, "url"@, m.url);
        let members = with_optional_field::<UserMetadata>(
            members,
            "current_user_metadata"@,
            m.current_user_metadata,
        );
        let members = with_field::<Vec<Annotation>>(members, "annotations"@, m.annotations);
        JsonModel::Object(members)
    }

    fn to_json(&self) -> (j: Json) {
        let mut members: Vec<(String, Json)> = Vec::new();
        assert(members_model(members@) == Seq::<(Seq<char>, JsonModel)>::empty());
        write_field::<String>(&mut members, "_type", &self._type);
        write_field::<u32>(&mut members, "annotator_id", &self.annotator_id);
        write_field::<String>(&mut members, "annotator_login", &self.annotator_login);
        write_field::<String>(&mut members, "api_path", &self.api_path);
        write_field::<String>(&mut members, "classification", &self.classification);
        write_field::<String>(&mut members, "fragment", &self.fragment);
        write_field::<u32>(&mut members, "id", &self.id);
        write_optional_field::<String>(&mut members, "ios_app_url", &self.ios_app_url);
        write_field::<bool>(&mut members, "is_description", &self.is_description);
        write_optional_field::<bool>(&mut members, "is_image", &self.is_image);
        write_field::<String>(&mut members, "path", &self.path);
        write_field::<Table<String>>(&mut members, "range", &self.range);
        write_optional_field::<u32>(&mut members, "song_id", &self.song_id);
        write_field::<String>(&mut members, "url", &self.url);
        write_optional_field::<UserMetadata>(
            &mut members,
            "current_user_metadata",
            &self.current_user_metadata,
        );
        write_field::<Vec<Annotation>>(&mut members, "annotations", &self.annotations);
        Json::object(members)
    }

    proof fn lemma_round_trip(m: ReferentModel) {
        broadcast use {
            lemma_member_none,
            lemma_member_with_field,
            lemma_member_with_optional_field,
            lemma_or_else_none,
            lemma_required_reads_back,
            lemma_optional_reads_back,
        };

        reveal(<Referent as Decode>::decoded);
        reveal_strlit("_type");
        reveal_strlit("annotator_id");
        reveal_strlit("annotator_login");
        reveal_strlit("api_path");
        reveal_strlit("classification");
        reveal_strlit("fragment");
        reveal_strlit("id");
        reveal_strlit("ios_app_url");
        reveal_strlit("is_description");
        reveal_strlit("is_image");
        reveal_strlit("path");
        reveal_strlit("range");
        reveal_strlit("song_id");
        reveal_strlit("url");
        reveal_strlit("current_user_metadata");
        reveal_strlit("annotations");
        lemma_outline("_type"@);
        lemma_outline("annotator_id"@);
        lemma_outline("annotator_login"@);
        lemma_outline("api_path"@);
        lemma_outline("classification"@);
        lemma_outline("fragment"@);
        lemma_outline("id"@);
        lemma_outline("ios_app_url"@);
        lemma_outline("is_description"@);
        lemma_outline("is_image"@);
        lemma_outline("path"@);
        lemma_outline("range"@);
        lemma_outline("song_id"@);
        lemma_outline("url"@);
        lemma_outline("current_user_metadata"@);
        lemma_outline("annotations"@);
    }
}

/// One annotation of a referent.
#[derive(Debug, PartialEq)]
pub struct Annotation {
    pub api_path: String,
    pub body: Body,
    pub comment_count: Option<u32>,
    pub community: bool,
    pub has_voters: bool,
    pub id: u32,
    pub pinned: bool,
    pub share_url: String,
    pub state: String,
    pub url: String,
    pub verified: bool,
    pub votes_total: Option<i32>,
    pub current_user_metadata: UserMetadata,
    pub authors: Vec<AnnotationAuthor>,
}

/// The model of an [`Annotation`].
pub struct AnnotationModel {
    pub api_path: Seq<char>,
    pub body: BodyModel,
    pub comment_count: Option<u32>,
    pub community: bool,
    pub has_voters: bool,
    pub id: u32,
    pub pinned: bool,
    pub share_url: Seq<char>,
    pub state: Seq<char>,
    pub url: Seq<char>,
    pub verified: bool,
    pub votes_total: Option<i32>,
    pub current_user_metadata: UserMetadataModel,
    pub authors: Seq<AnnotationAuthorModel>,
}

impl DeepView for Annotation {
    type V = AnnotationModel;

    open spec fn deep_view(&self) -> AnnotationModel {
        AnnotationModel {
            api_path: self.api_path.deep_view(),
            body: self.body.deep_view(),
            comment_count: optional_model(self.comment_count),
            community: self.community.deep_view(),
            has_voters: self.has_voters.deep_view(),
            id: self.id.deep_view(),
            pinned: self.pinned.deep_view(),
            share_url: self.share_url.deep_view(),
            state: self.state.deep_view(),
            url: self.url.deep_view(),
            verified: self.verified.deep_view(),
            votes_total: optional_model(self.votes_total),
            current_user_metadata: self.current_user_metadata.deep_view(),
            authors: self.authors.deep_view(),
        }
    }
}

impl Decode for Annotation {
    #[verifier::opaque]
    open spec fn decoded(j: JsonModel) -> Result<AnnotationModel, SchemaFault> {
        let api_path = field::<String>(j, "api_path"@);
        let body = field::<Body>(j, "body"@);
        let comment_count = optional_field::<u32>(j, "comment_count"@);
        let community = field::<bool>(j, "community"@);
        let has_voters = field::<bool>(j, "has_voters"@);
        let id = field::<u32>(j, "id"@);
        let pinned = field::<bool>(j, "pinned"@);
        let share_url = field::<String>(j, "share_url"@);
        let state = field::<String>(j, "state"@);
        let url = field::<String>(j, "url"@);
        let verified = field::<bool>(j, "verified"@);
        let votes_total = optional_field::<i32>(j, "votes_total"@);
        let current_user_metadata = field::<UserMetadata>(j, "current_user_metadata"@);
        let authors = field::<Vec<AnnotationAuthor>>(j, "authors"@);
        if !(j is Object) {
            Err(fault(SchemaErrorKind::WrongType))
        } else if api_path is Err {
            Err(api_path->Err_0)
        } else if body is Err {
            Err(body->Err_0)
        } else if comment_count is Err {
            Err(comment_count->Err_0)
        } else if community is Err {
            Err(community->Err_0)
        } else if has_voters is Err {
            Err(has_voters->Err_0)
        } else if id is Err {
            Err(id->Err_0)
        } else if pinned is Err {
            Err(pinned->Err_0)
        } else if share_url is Err {
            Err(share_url->Err_0)
        } else if state is Err {
            Err(state->Err_0)
        } else if url is Err {
            Err(url->Err_0)
        } else if verified is Err {
            Err(verified->Err_0)
        } else if votes_total is Err {
            Err(votes_total->Err_0)
        } else if current_user_metadata is Err {
            Err(current_user_metadata->Err_0)
        } else if authors is Err {
            Err(authors->Err_0)
        } else {
            Ok(
                AnnotationModel {
                    api_path: api_path->Ok_0,
                    body: body->Ok_0,
                    comment_count: comment_count->Ok_0,
                    community: community->Ok_0,
                    has_voters: has_voters->Ok_0,
                    id: id->Ok_0,
                    pinned: pinned->Ok_0,
                    share_url: share_url->Ok_0,
                    state: state->Ok_0,
                    url: url->Ok_0,
                    verified: verified->Ok_0,
                    votes_total: votes_total->Ok_0,
                    current_user_metadata: current_user_metadata->Ok_0,
                    authors: authors->Ok_0,
                },
            )
        }
    }

    fn from_json(j: &Json) -> (r: Result<Annotation, SchemaError>) {
        reveal(<Annotation as Decode>::decoded);
        if !j.is_object() {
            return Err(SchemaError::at_root(SchemaErrorKind::WrongType));
        }
        let api_path = match read_field::<String>(j, "api_path") {
            Ok(value) => value,
            Err(e) => return Err(e),
        };
        let body = match read_field::<Body>(j, "body") {
            Ok(value) => value,
            Err(e) => return Err(e),
        };
        let comment_count = match read_optional_field::<u32>(j, "comment_count") {
            Ok(value) => value,
            Err(e) => return Err(e),
        };
        let community = match read_field::<bool>(j, "community") {
            Ok(value) => value,
            Err(e) => return Err(e),
        };
        let has_voters = match read_field::<bool>(j, "has_voters") {
            Ok(value) => value,
            Err(e) => return Err(e),
        };
        let id = match read_field::<u32>(j, "id") {
            Ok(value) => value,
            Err(e) => return Err(e),
        };
        let pinned = match read_field::<bool>(j, "pinned") {
            Ok(value) => value,
            Err(e) => return Err(e),
        };
        let share_url = match read_field::<String>(j, "share_url") {
            Ok(value) => value,
            Err(e) => return Err(e),
        };
        let state = match read_field::<String>(j, "state") {
            Ok(value) => value,
            Err(e) => return Err(e),
        };
        let url = match read_field::<String>(j, "url") {
            Ok(value) => value,
            Err(e) => return Err(e),
        };
        let verified = match read_field::<bool>(j, "verified") {
            Ok(value) => value,
            Err(e) => return Err(e),
        };
        let votes_total = match read_optional_field::<i32>(j, "votes_total") {
            Ok(value) => value,
            Err(e) => return Err(e),
        };
        let current_user_metadata = match read_field::<UserMetadata>(j, "current_user_metadata") {
            Ok(value) => value,
            Err(e) => return Err(e),
        };
        let authors = match read_field::<Vec<AnnotationAuthor>>(j, "authors") {
            Ok(value) => value,
            Err(e) => return Err(e),
        };
        Ok(
            Annotation {
                api_path,
                body,
                comment_count,
                community,
                has_voters,
                id,
                pinned,
                share_url,
                state,
                url,
                verified,
                votes_total,
                current_user_metadata,
                authors,
            },
        )
    }
}

impl Annotation {
    /// Whether the record reads the member of that name.
    pub open spec fn reads(name: Seq<char>) -> bool {
        name == "api_path"@
        || name == "body"@
        || name == "comment_count"@
        || name == "community"@
        || name == "has_voters"@
        || name == "id"@
        || name == "pinned"@
        || name == "share_url"@
        || name == "state"@
        || name == "url"@
        || name == "verified"@
        || name == "votes_total"@
        || name == "current_user_metadata"@
        || name == "authors"@
    }

    /// What an object is read as depends on the members that the record
    /// reads alone: members of other names, wherever they stand, are ignored.
    pub proof fn lemma_other_members_ignored(
        first: Seq<(Seq<char>, JsonModel)>,
        second: Seq<(Seq<char>, JsonModel)>,
    )
        requires
            forall|name: Seq<char>|
                Self::reads(name) ==> member(first, name) == member(second, name),
        ensures
            Self::decoded(JsonModel::Object(first)) == Self::decoded(JsonModel::Object(second)),
    {
        reveal(<Annotation as Decode>::decoded);
        assert(Self::reads("api_path"@));
        assert(Self::reads("body"@));
        assert(Self::reads("comment_count"@));
        assert(Self::reads("community"@));
        assert(Self::reads("has_voters"@));
        assert(Self::reads("id"@));
        assert(Self::reads("pinned"@));
        assert(Self::reads("share_url"@));
        assert(Self::reads("state"@));
        assert(Self::reads("url"@));
        assert(Self::reads("verified"@));
        assert(Self::reads("votes_total"@));
        assert(Self::reads("current_user_metadata"@));
        assert(Self::reads("authors"@));
    }
}

impl Encode for Annotation {
    open spec fn encoded(m: AnnotationModel) -> JsonModel {
        let members = Seq::empty();
        let members = with_field::<String>(members, "api_path"@, m.api_path);
        let members = with_field::<Body>(members, "body"@, m.body);
        let members = with_optional_field::<u32>(members, "comment_count"@, m.comment_count);
        let members = with_field::<bool>(members, "community"@, m.community);
        let members = with_field::<bool>(members, "has_voters"@, m.has_voters);
        let members = with_field::<u32>(members, "id"@, m.id);
        let members = with_field::<bool>(members, "pinned"@, m.pinned);
        let members = with_field::<String>(members, "share_url"@, m.share_url);
        let members = with_field::<String>(members, "state"@, m.state);
        let members = with_field::<String>(members, "url"@, m.url);
        let members = with_field::<bool>(members, "verified"@, m.verified);
        let members = with_optional_field::<i32>(members, "votes_total"@, m.votes_total);
        let members = with_field::<UserMetadata>(
            members,
            "current_user_metadata"@,
            m.current_user_metadata,
        );
        let members = with_field::<Vec<AnnotationAuthor>>(members, "authors"@, m.authors);
        JsonModel::Object(members)
    }

    fn to_json(&self) -> (j: Json) {
        let mut members: Vec<(String, Json)> = Vec::new();
        assert(members_model(members@) == Seq::<(Seq<char>, JsonModel)>::empty());
        write_field::<String>(&mut members, "api_path", &self.api_path);
        write_field::<Body>(&mut members, "body", &self.body);
        write_optional_field::<u32>(&mut members, "comment_count", &self.comment_count);
        write_field::<bool>(&mut members, "community", &self.community);
        write_field::<bool>(&mut members, "has_voters", &self.has_voters);
        write_field::<u32>(&mut members, "id", &self.id);
        write_field::<bool>(&mut members, "pinned", &self.pinned);
        write_field::<String>(&mut members, "share_url", &self.share_url);
        write_field::<String>(&mut members, "state", &self.state);
        write_field::<String>(&mut members, "url", &self.url);
        write_field::<bool>(&mut members, "verified", &self.verified);
        write_optional_field::<i32>(&mut members, "votes_total", &self.votes_total);
        write_field::<UserMetadata>(
            &mut members,
            "current_user_metadata",
            &self.current_user_metadata,
        );
        write_field::<Vec<AnnotationAuthor>>(&mut members, "authors", &self.authors);
        Json::object(members)
    }

    proof fn lemma_round_trip(m: AnnotationModel) {
        broadcast use {
            lemma_member_none,
            lemma_member_with_field,
            lemma_member_with_optional_field,
            lemma_or_else_none,
            lemma_required_reads_back,
            lemma_optional_reads_back,
        };

        reveal(<Annotation as Decode>::decoded);
        reveal_strlit("api_path");
        reveal_strlit("body");
        reveal_strlit("comment_count");
        reveal_strlit("community");
        reveal_strlit("has_voters");
        reveal_strlit("id");
        reveal_strlit("pinned");
        reveal_strlit("share_url");
        reveal_strlit("state");
        reveal_strlit("url");
        reveal_strlit("verified");
        reveal_strlit("votes_total");
        reveal_strlit("current_user_metadata");
        reveal_strlit("authors");
        lemma_outline("api_path"@);
        lemma_outline("body"@);
        lemma_outline("comment_count"@);
        lemma_outline("community"@);
        lemma_outline("has_voters"@);
        lemma_outline("id"@);
        lemma_outline("pinned"@);
        lemma_outline("share_url"@);
        lemma_outline("state"@);
        lemma_outline("url"@);
        lemma_outline("verified"@);
        lemma_outline("votes_total"@);
        lemma_outline("current_user_metadata"@);
        lemma_outline("authors"@);
    }
}

/// An author of an annotation, with the share of it that is theirs.
#[derive(Debug, PartialEq)]
pub struct AnnotationAuthor {
    pub attribution: Number,
    pub user: User,
}

/// The model of an [`AnnotationAuthor`].
pub struct AnnotationAuthorModel {
    pub attribution: NumberModel,
    pub user: UserModel,
}

impl DeepView for AnnotationAuthor {
    type V = AnnotationAuthorModel;

    open spec fn deep_view(&self) -> AnnotationAuthorModel {
        AnnotationAuthorModel {
            attribution: self.attribution.deep_view(),
            user: self.user.deep_view(),
        }
    }
}

impl Decode for AnnotationAuthor {
    #[verifier::opaque]
    open spec fn decoded(j: JsonModel) -> Result<AnnotationAuthorModel, SchemaFault> {
        let attribution = field::<Number>(j, "attribution"@);
        let user = field::<User>(j, "user"@);
        if !(j is Object) {
            Err(fault(SchemaErrorKind::WrongType))
        } else if attribution is Err {
            Err(attribution->Err_0)
        } else if user is Err {
            Err(user->Err_0)
        } else {
            Ok(
                AnnotationAuthorModel {
                    attribution: attribution->Ok_0,
                    user: user->Ok_0,
                },
            )
        }
    }

    fn from_json(j: &Json) -> (r: Result<AnnotationAuthor, SchemaError>) {
        reveal(<AnnotationAuthor as Decode>::decoded);
        if !j.is_object() {
            return Err(SchemaError::at_root(SchemaErrorKind::WrongType));
        }
        let attribution = match read_field::<Number>(j, "attribution") {
            Ok(value) => value,
            Err(e) => return Err(e),
        };
        let user = match read_field::<User>(j, "user") {
            Ok(value) => value,
            Err(e) => return Err(e),
        };
        Ok(AnnotationAuthor { attribution, user })
    }
}

impl AnnotationAuthor {
    /// Whether the record reads the member of that name.
    pub open spec fn reads(name: Seq<char>) -> bool {
        name == "attribution"@
        || name == "user"@
    }

    /// What an object is read as depends on the members that the record
    /// reads alone: members of other names, wherever they stand, are ignored.
    pub proof fn lemma_other_members_ignored(
        first: Seq<(Seq<char>, JsonModel)>,
        second: Seq<(Seq<char>, JsonModel)>,
    )
        requires
            forall|name: Seq<char>|
                Self::reads(name) ==> member(first, name) == member(second, name),
        ensures
            Self::decoded(JsonModel::Object(first)) == Self::decoded(JsonModel::Object(second)),
    {
        reveal(<AnnotationAuthor as Decode>::decoded);
        assert(Self::reads("attribution"@));
        assert(Self::reads("user"@));
    }
}

impl Encode for AnnotationAuthor {
    open spec fn encoded(m: AnnotationAuthorModel) -> JsonModel {
        let members = Seq::empty();
        let members = with_field::<Number>(members, "attribution"@, m.attribution);
        let members = with_field::<User>(members, "user"@, m.user);
        JsonModel::Object(members)
    }

    fn to_json(&self) -> (j: Json) {
        let mut members: Vec<(String, Json)> = Vec::new();
        assert(members_model(members@) == Seq::<(Seq<char>, JsonModel)>::empty());
        write_field::<Number>(&mut members, "attribution", &self.attribution);
        write_field::<User>(&mut members, "user", &self.user);
        Json::object(members)
    }

    proof fn lemma_round_trip(m: AnnotationAuthorModel) {
        broadcast use {
            lemma_member_none,
            lemma_member_with_field,
            lemma_member_with_optional_field,
            lemma_or_else_none,
            lemma_required_reads_back,
            lemma_optional_reads_back,
        };

        reveal(<AnnotationAuthor as Decode>::decoded);
        reveal_strlit("attribution");
        reveal_strlit("user");
        lemma_outline("attribution"@);
        lemma_outline("user"@);
    }
}

} // verus!
