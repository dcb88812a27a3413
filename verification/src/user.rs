//! Users of the service, as the responses describe them.

use crate::json::{lemma_member_none, lemma_outline, member, members_model, Json, JsonModel};
use crate::schema::{
    fault, field, lemma_member_with_field, lemma_member_with_optional_field,
    lemma_optional_reads_back, lemma_or_else_none, lemma_required_reads_back, optional_field,
    optional_model, read_field, read_optional_field, with_field, with_optional_field, write_field,
    write_optional_field, Decode, Encode, SchemaError, SchemaErrorKind, SchemaFault,
};
use crate::table::Table;
use vstd::prelude::*;

verus! {

/// A user of the service.
#[derive(Debug, PartialEq)]
pub struct User {
    /// Path of the API.
    pub api_path: String,
    /// The avatar of the user, by size.
    pub avatar: Table<AvatarImage>,
    /// User header image.
    pub header_image_url: String,
    /// User role human readable.
    pub human_readable_role_for_display: Option<String>,
    /// User id.
    pub id: u32,
    /// User iq.
    pub iq: Option<u32>,
    /// Username.
    pub login: String,
    /// User name.
    pub name: String,
    /// User role.
    pub role_for_display: Option<String>,
    /// User page url.
    pub url: String,
    /// User permissions and interactions.
    pub current_user_metadata: UserMetadata,
}

/// The model of a [`User`].
pub struct UserModel {
    pub api_path: Seq<char>,
    pub avatar: Seq<(Seq<char>, AvatarImageModel)>,
    pub header_image_url: Seq<char>,
    pub human_readable_role_for_display: Option<Seq<char>>,
    pub id: u32,
    pub iq: Option<u32>,
    pub login: Seq<char>,
    pub name: Seq<char>,
    pub role_for_display: Option<Seq<char>>,
    pub url: Seq<char>,
    pub current_user_metadata: UserMetadataModel,
}

impl DeepView for User {
    type V = UserModel;

    open spec fn deep_view(&self) -> UserModel {
        UserModel {
            api_path: self.api_path.deep_view(),
            avatar: self.avatar.deep_view(),
            header_image_url: self.header_image_url.deep_view(),
            human_readable_role_for_display: optional_model(self.human_readable_role_for_display),
            id: self.id.deep_view(),
            iq: optional_model(self.iq),
            login: self.login.deep_view(),
            name: self.name.deep_view(),
            role_for_display: optional_model(self.role_for_display),
            url: self.url.deep_view(),
            current_user_metadata: self.current_user_metadata.deep_view(),
        }
    }
}

impl Decode for User {
    #[verifier::opaque]
    open spec fn decoded(j: JsonModel) -> Result<UserModel, SchemaFault> {
        let api_path = field::<String>(j, "api_path"@);
        let avatar = field::<Table<AvatarImage>>(j, "avatar"@);
        let header_image_url = field::<String>(j, "header_image_url"@);
        let human_readable_role_for_display = optional_field::<String>(
            j,
            "human_readable_role_for_display"@,
        );
        let id = field::<u32>(j, "id"@);
        let iq = optional_field::<u32>(j, "iq"@);
        let login = field::<String>(j, "login"@);
        let name = field::<String>(j, "name"@);
        let role_for_display = optional_field::<String>(j, "role_for_display"@);
        let url = field::<String>(j, "url"@);
        let current_user_metadata = field::<UserMetadata>(j, "current_user_metadata"@);
        if !(j is Object) {
            Err(fault(SchemaErrorKind::WrongType))
        } else if api_path is Err {
            Err(api_path->Err_0)
        } else if avatar is Err {
            Err(avatar->Err_0)
        } else if header_image_url is Err {
            Err(header_image_url->Err_0)
        } else if human_readable_role_for_display is Err {
            Err(human_readable_role_for_display->Err_0)
        } else if id is Err {
            Err(id->Err_0)
        } else if iq is Err {
            Err(iq->Err_0)
        } else if login is Err {
            Err(login->Err_0)
        } else if name is Err {
            Err(name->Err_0)
        } else if role_for_display is Err {
            Err(role_for_display->Err_0)
        } else if url is Err {
            Err(url->Err_0)
        } else if current_user_metadata is Err {
            Err(current_user_metadata->Err_0)
        } else {
            Ok(
                UserModel {
                    api_path: api_path->Ok_0,
                    avatar: avatar->Ok_0,
                    header_image_url: header_image_url->Ok_0,
                    human_readable_role_for_display: human_readable_role_for_display->Ok_0,
                    id: id->Ok_0,
                    iq: iq->Ok_0,
                    login: login->Ok_0,
                    name: name->Ok_0,
                    role_for_display: role_for_display->Ok_0,
                    url: url->Ok_0,
                    current_user_metadata: current_user_metadata->Ok_0,
                },
            )
        }
    }

    fn from_json(j: &Json) -> (r: Result<User, SchemaError>) {
        reveal(<User as Decode>::decoded);
        if !j.is_object() {
            return Err(SchemaError::at_root(SchemaErrorKind::WrongType));
        }
        let api_path = match read_field::<String>(j, "api_path") {
            Ok(value) => value,
            Err(e) => return Err(e),
        };
        let avatar = match read_field::<Table<AvatarImage>>(j, "avatar") {
            Ok(value) => value,
            Err(e) => return Err(e),
        };
        let header_image_url = match read_field::<String>(j, "header_image_url") {
            Ok(value) => value,
            Err(e) => return Err(e),
        };
        let human_readable_role_for_display = match read_optional_field::<String>(
            j,
            "human_readable_role_for_display",
        ) {
            Ok(value) => value,
            Err(e) => return Err(e),
        };
        let id = match read_field::<u32>(j, "id") {
            Ok(value) => value,
            Err(e) => return Err(e),
        };
        let iq = match read_optional_field::<u32>(j, "iq") {
            Ok(value) => value,
            Err(e) => return Err(e),
        };
        let login = match read_field::<String>(j, "login") {
            Ok(value) => value,
            Err(e) => return Err(e),
        };
        let name = match read_field::<String>(j, "name") {
            Ok(value) => value,
            Err(e) => return Err(e),
        };
        let role_for_display = match read_optional_field::<String>(j, "role_for_display") {
            Ok(value) => value,
            Err(e) => return Err(e),
        };
        let url = match read_field::<String>(j, "url") {
            Ok(value) => value,
            Err(e) => return Err(e),
        };
        let current_user_metadata = match read_field::<UserMetadata>(j, "current_user_metadata") {
            Ok(value) => value,
            Err(e) => return Err(e),
        };
        Ok(
            User {
                api_path,
                avatar,
                header_image_url,
                human_readable_role_for_display,
                id,
                iq,
                login,
                name,
                role_for_display,
                url,
                current_user_metadata,
            },
        )
    }
}

impl User {
    /// Whether the record reads the member of that name.
    pub open spec fn reads(name: Seq<char>) -> bool {
        name == "api_path"@
        || name == "avatar"@
        || name == "header_image_url"@
        || name == "human_readable_role_for_display"@
        || name == "id"@
        || name == "iq"@
        || name == "login"@
        || name == "name"@
        || name == "role_for_display"@
        || name == "url"@
        || name == "current_user_metadata"@
    }

    /// What an object is read as depends on the members that the record
    /// reads alone: members of other names, wherever they stand, are ignored.
    pub proof fn lemma_other_members_ignored(
        first: Seq<(Seq<char>, JsonModel)>,
        second: Seq<(Seq<char>, JsonModel)>,
    )
        requires
            forall|name: Seq<char>|
                Self::reads(name) ==> member(first, name) == member(second, name),
        ensures
            Self::decoded(JsonModel::Object(first)) == Self::decoded(JsonModel::Object(second)),
    {
        reveal(<User as Decode>::decoded);
        assert(Self::reads("api_path"@));
        assert(Self::reads("avatar"@));
        assert(Self::reads("header_image_url"@));
        assert(Self::reads("human_readable_role_for_display"@));
        assert(Self::reads("id"@));
        assert(Self::reads("iq"@));
        assert(Self::reads("login"@));
        assert(Self::reads("name"@));
        assert(Self::reads("role_for_display"@));
        assert(Self::reads("url"@));
        assert(Self::reads("current_user_metadata"@));
    }
}

impl Encode for User {
    open spec fn encoded(m: UserModel) -> JsonModel {
        let members = Seq::empty();
        let members = with_field::<String>(members, "api_path"@, m.api_path);
        let members = with_field::<Table<AvatarImage>>(members, "avatar"@, m.avatar);
        let members = with_field::<String>(members, "header_image_url"@, m.header_image_url);
        let members = with_optional_field::<String>(
            members,
            "human_readable_role_for_display"@,
            m.human_readable_role_for_display,
        );
        let members = with_field::<u32>(members, "id"@, m.id);
        let members = with_optional_field::<u32>(members, "iq"@, m.iq);
        let members = with_field::<String>(members, "login"@, m.login);
        let members = with_field::<String>(members, "name"@, m.name);
        let members = with_optional_field::<String>(
            members,
            "role_for_display"@,
            m.role_for_display,
        );
        let members = with_field::<String>(members, "url"@, m.url);
        let members = with_field::<UserMetadata>(
            members,
            "current_user_metadata"@,
            m.current_user_metadata,
        );
        JsonModel::Object(members)
    }

    fn to_json(&self) -> (j: Json) {
        let mut members: Vec<(String, Json)> = Vec::new();
        assert(members_model(members@) == Seq::<(Seq<char>, JsonModel)>::empty());
        write_field::<String>(&mut members, "api_path", &self.api_path);
        write_field::<Table<AvatarImage>>(&mut members, "avatar", &self.avatar);
        write_field::<String>(&mut members, "header_image_url", &self.header_image_url);
        write_optional_field::<String>(
            &mut members,
            "human_readable_role_for_display",
            &self.human_readable_role_for_display,
        );
        write_field::<u32>(&mut members, "id", &self.id);
        write_optional_field::<u32>(&mut members, "iq", &self.iq);
        write_field::<String>(&mut members, "login", &self.login);
        write_field::<String>(&mut members, "name", &self.name);
        write_optional_field::<String>(&mut members, "role_for_display", &self.role_for_display);
        write_field::<String>(&mut members, "url", &self.url);
        write_field::<UserMetadata>(
            &mut members,
            "current_user_metadata",
            &self.current_user_metadata,
        );
        Json::object(members)
    }

    proof fn lemma_round_trip(m: UserModel) {
        broadcast use {
            lemma_member_none,
            lemma_member_with_field,
            lemma_member_with_optional_field,
            lemma_or_else_none,
            lemma_required_reads_back,
            lemma_optional_reads_back,
        };

        reveal(<User as Decode>::decoded);
        reveal_strlit("api_path");
        reveal_strlit("avatar");
        reveal_strlit("header_image_url");
        reveal_strlit("human_readable_role_for_display");
        reveal_strlit("id");
        reveal_strlit("iq");
        reveal_strlit("login");
        reveal_strlit("name");
        reveal_strlit("role_for_display");
        reveal_strlit("url");
        reveal_strlit("current_user_metadata");
        lemma_outline("api_path"@);
        lemma_outline("avatar"@);
        lemma_outline("header_image_url"@);
        lemma_outline("human_readable_role_for_display"@);
        lemma_outline("id"@);
        lemma_outline("iq"@);
        lemma_outline("login"@);
        lemma_outline("name"@);
        lemma_outline("role_for_display"@);
        lemma_outline("url"@);
        lemma_outline("current_user_metadata"@);
    }
}

/// One size of a user's avatar.
#[derive(Debug, PartialEq)]
pub struct AvatarImage {
    /// Image url.
    pub url: String,
    /// Width and height of the image.
    pub bounding_box: Table<u32>,
}

/// The model of an [`AvatarImage`].
pub struct AvatarImageModel {
    pub url: Seq<char>,
    pub bounding_box: Seq<(Seq<char>, u32)>,
}

impl DeepView for AvatarImage {
    type V = AvatarImageModel;

    open spec fn deep_view(&self) -> AvatarImageModel {
        AvatarImageModel {
            url: self.url.deep_view(),
            bounding_box: self.bounding_box.deep_view(),
        }
    }
}

impl Decode for AvatarImage {
    #[verifier::opaque]
    open spec fn decoded(j: JsonModel) -> Result<AvatarImageModel, SchemaFault> {
        let url = field::<String>(j, "url"@);
        let bounding_box = field::<Table<u32>>(j, "bounding_box"@);
        if !(j is Object) {
            Err(fault(SchemaErrorKind::WrongType))
        } else if url is Err {
            Err(url->Err_0)
        } else if bounding_box is Err {
            Err(bounding_box->Err_0)
        } else {
            Ok(
                AvatarImageModel {
                    url: url->Ok_0,
                    bounding_box: bounding_box->Ok_0,
                },
            )
        }
    }

    fn from_json(j: &Json) -> (r: Result<AvatarImage, SchemaError>) {
        reveal(<AvatarImage as Decode>::decoded);
        if !j.is_object() {
            return Err(SchemaError::at_root(SchemaErrorKind::WrongType));
        }
        let url = match read_field::<String>(j, "url") {
            Ok(value) => value,
            Err(e) => return Err(e),
        };
        let bounding_box = match read_field::<Table<u32>>(j, "bounding_box") {
            Ok(value) => value,
            Err(e) => return Err(e),
        };
        Ok(AvatarImage { url, bounding_box })
    }
}

impl AvatarImage {
    /// Whether the record reads the member of that name.
    pub open spec fn reads(name: Seq<char>) -> bool {
        name == "url"@
        || name == "bounding_box"@
    }

    /// What an object is read as depends on the members that the record
    /// reads alone: members of other names, wherever they stand, are ignored.
    pub proof fn lemma_other_members_ignored(
        first: Seq<(Seq<char>, JsonModel)>,
        second: Seq<(Seq<char>, JsonModel)>,
    )
        requires
            forall|name: Seq<char>|
                Self::reads(name) ==> member(first, name) == member(second, name),
        ensures
            Self::decoded(JsonModel::Object(first)) == Self::decoded(JsonModel::Object(second)),
    {
        reveal(<AvatarImage as Decode>::decoded);
        assert(Self::reads("url"@));
        assert(Self::reads("bounding_box"@));
    }
}

impl Encode for AvatarImage {
    open spec fn encoded(m: AvatarImageModel) -> JsonModel {
        let members = Seq::empty();
        let members = with_field::<String>(members, "url"@, m.url);
        let members = with_field::<Table<u32>>(members, "bounding_box"@, m.bounding_box);
        JsonModel::Object(members)
    }

    fn to_json(&self) -> (j: Json) {
        let mut members: Vec<(String, Json)> = Vec::new();
        assert(members_model(members@) == Seq::<(Seq<char>, JsonModel)>::empty());
        write_field::<String>(&mut members, "url", &self.url);
        write_field::<Table<u32>>(&mut members, "bounding_box", &self.bounding_box);
        Json::object(members)
    }

    proof fn lemma_round_trip(m: AvatarImageModel) {
        broadcast use {
            lemma_member_none,
            lemma_member_with_field,
            lemma_member_with_optional_field,
            lemma_or_else_none,
            lemma_required_reads_back,
            lemma_optional_reads_back,
        };

        reveal(<AvatarImage as Decode>::decoded);
        reveal_strlit("url");
        reveal_strlit("bounding_box");
        lemma_outline("url"@);
        lemma_outline("bounding_box"@);
    }
}

/// What the holder of the credential may do with an item, and has done with it.
#[derive(Debug, PartialEq)]
pub struct UserMetadata {
    /// What the holder of the credential may do.
    pub permissions: Vec<String>,
    /// What the holder of the credential may not do.
    pub excluded_permissions: Vec<String>,
    pub interactions: Option<Interactions>,
}

/// The model of a [`UserMetadata`].
pub struct UserMetadataModel {
    pub permissions: Seq<Seq<char>>,
    pub excluded_permissions: Seq<Seq<char>>,
    pub interactions: Option<InteractionsModel>,
}

impl DeepView for UserMetadata {
    type V = UserMetadataModel;

    open spec fn deep_view(&self) -> UserMetadataModel {
        UserMetadataModel {
            permissions: self.permissions.deep_view(),
            excluded_permissions: self.excluded_permissions.deep_view(),
            interactions: optional_model(self.interactions),
        }
    }
}

impl Decode for UserMetadata {
    #[verifier::opaque]
    open spec fn decoded(j: JsonModel) -> Result<UserMetadataModel, SchemaFault> {
        let permissions = field::<Vec<String>>(j, "permissions"@);
        let excluded_permissions = field::<Vec<String>>(j, "excluded_permissions"@);
        let interactions = optional_field::<Interactions>(j, "interactions"@);
        if !(j is Object) {
            Err(fault(SchemaErrorKind::WrongType))
        } else if permissions is Err {
            Err(permissions->Err_0)
        } else if excluded_permissions is Err {
            Err(excluded_permissions->Err_0)
        } else if interactions is Err {
            Err(interactions->Err_0)
        } else {
            Ok(
                UserMetadataModel {
                    permissions: permissions->Ok_0,
                    excluded_permissions: excluded_permissions->Ok_0,
                    interactions: interactions->Ok_0,
                },
            )
        }
    }

    fn from_json(j: &Json) -> (r: Result<UserMetadata, SchemaError>) {
        reveal(<UserMetadata as Decode>::decoded);
        if !j.is_object() {
            return Err(SchemaError::at_root(SchemaErrorKind::WrongType));
        }
        let permissions = match read_field::<Vec<String>>(j, "permissions") {
            Ok(value) => value,
            Err(e) => return Err(e),
        };
        let excluded_permissions = match read_field::<Vec<String>>(j, "excluded_permissions") {
            Ok(value) => value,
            Err(e) => return Err(e),
        };
        let interactions = match read_optional_field::<Interactions>(j, "interactions") {
            Ok(value) => value,
            Err(e) => return Err(e),
        };
        Ok(UserMetadata { permissions, excluded_permissions, interactions })
    }
}

impl UserMetadata {
    /// Whether the record reads the member of that name.
    pub open spec fn reads(name: Seq<char>) -> bool {
        name == "permissions"@
        || name == "excluded_permissions"@
        || name == "interactions"@
    }

    /// What an object is read as depends on the members that the record
    /// reads alone: members of other names, wherever they stand, are ignored.
    pub proof fn lemma_other_members_ignored(
        first: Seq<(Seq<char>, JsonModel)>,
        second: Seq<(Seq<char>, JsonModel)>,
    )
        requires
            forall|name: Seq<char>|
                Self::reads(name) ==> member(first, name) == member(second, name),
        ensures
            Self::decoded(JsonModel::Object(first)) == Self::decoded(JsonModel::Object(second)),
    {
        reveal(<UserMetadata as Decode>::decoded);
        assert(Self::reads("permissions"@));
        assert(Self::reads("excluded_permissions"@));
        assert(Self::reads("interactions"@));
    }
}

impl Encode for UserMetadata {
    open spec fn encoded(m: UserMetadataModel) -> JsonModel {
        let members = Seq::empty();
        let members = with_field::<Vec<String>>(members, "permissions"@, m.permissions);
        let members = with_field::<Vec<String>>(
            members,
            "excluded_permissions"@,
            m.excluded_permissions,
        );
        let members = with_optional_field::<Interactions>(members, "interactions"@, m.interactions);
        JsonModel::Object(members)
    }

    fn to_json(&self) -> (j: Json) {
        let mut members: Vec<(String, Json)> = Vec::new();
        assert(members_model(members@) == Seq::<(Seq<char>, JsonModel)>::empty());
        write_field::<Vec<String>>(&mut members, "permissions", &self.permissions);
        write_field::<Vec<String>>(
            &mut members,
            "excluded_permissions",
            &self.excluded_permissions,
        );
        write_optional_field::<Interactions>(&mut members, "interactions", &self.interactions);
        Json::object(members)
    }

    proof fn lemma_round_trip(m: UserMetadataModel) {
        broadcast use {
            lemma_member_none,
            lemma_member_with_field,
            lemma_member_with_optional_field,
            lemma_or_else_none,
            lemma_required_reads_back,
            lemma_optional_reads_back,
        };

        reveal(<UserMetadata as Decode>::decoded);
        reveal_strlit("permissions");
        reveal_strlit("excluded_permissions");
        reveal_strlit("interactions");
        lemma_outline("permissions"@);
        lemma_outline("excluded_permissions"@);
        lemma_outline("interactions"@);
    }
}

/// What the holder of the credential has done with an item.
#[derive(Debug, PartialEq)]
pub struct Interactions {
    pub cosign: Option<bool>,
    pub pyong: Option<bool>,
    pub vote: Option<u32>,
}

/// The model of an [`Interactions`].
pub struct InteractionsModel {
    pub cosign: Option<bool>,
    pub pyong: Option<bool>,
    pub vote: Option<u32>,
}

impl DeepView for Interactions {
    type V = InteractionsModel;

    open spec fn deep_view(&self) -> InteractionsModel {
        InteractionsModel {
            cosign: optional_model(self.cosign),
            pyong: optional_model(self.pyong),
            vote: optional_model(self.vote),
        }
    }
}

impl Decode for Interactions {
    #[verifier::opaque]
    open spec fn decoded(j: JsonModel) -> Result<InteractionsModel, SchemaFault> {
        let cosign = optional_field::<bool>(j, "cosign"@);
        let pyong = optional_field::<bool>(j, "pyong"@);
        let vote = optional_field::<u32>(j, "vote"@);
        if !(j is Object) {
            Err(fault(SchemaErrorKind::WrongType))
        } else if cosign is Err {
            Err(cosign->Err_0)
        } else if pyong is Err {
            Err(pyong->Err_0)
        } else if vote is Err {
            Err(vote->Err_0)
        } else {
            Ok(
                InteractionsModel {
                    cosign: cosign->Ok_0,
                    pyong: pyong->Ok_0,
                    vote: vote->Ok_0,
                },
            )
        }
    }

    fn from_json(j: &Json) -> (r: Result<Interactions, SchemaError>) {
        reveal(<Interactions as Decode>::decoded);
        if !j.is_object() {
            return Err(SchemaError::at_root(SchemaErrorKind::WrongType));
        }
        let cosign = match read_optional_field::<bool>(j, "cosign") {
            Ok(value) => value,
            Err(e) => return Err(e),
        };
        let pyong = match read_optional_field::<bool>(j, "pyong") {
            Ok(value) => value,
            Err(e) => return Err(e),
        };
        let vote = match read_optional_field::<u32>(j, "vote") {
            Ok(value) => value,
            Err(e) => return Err(e),
        };
        Ok(Interactions { cosign, pyong, vote })
    }
}

impl Interactions {
    /// Whether the record reads the member of that name.
    pub open spec fn reads(name: Seq<char>) -> bool {
        name == "cosign"@
        || name == "pyong"@
        || name == "vote"@
    }

    /// What an object is read as depends on the members that the record
    /// reads alone: members of other names, wherever they stand, are ignored.
    pub proof fn lemma_other_members_ignored(
        first: Seq<(Seq<char>, JsonModel)>,
        second: Seq<(Seq<char>, JsonModel)>,
    )
        requires
            forall|name: Seq<char>|
                Self::reads(name) ==> member(first, name) == member(second, name),
        ensures
            Self::decoded(JsonModel::Object(first)) == Self::decoded(JsonModel::Object(second)),
    {
        reveal(<Interactions as Decode>::decoded);
        assert(Self::reads("cosign"@));
        assert(Self::reads("pyong"@));
        assert(Self::reads("vote"@));
    }
}

impl Encode for Interactions {
    open spec fn encoded(m: InteractionsModel) -> JsonModel {
        let members = Seq::empty();
        let members = with_optional_field::<bool>(members, "cosign"@, m.cosign);
        let members = with_optional_field::<bool>(members, "pyong"@, m.pyong);
        let members = with_optional_field::<u32>(members, "vote"@, m.vote);
        JsonModel::Object(members)
    }

    fn to_json(&self) -> (j: Json) {
        let mut members: Vec<(String, Json)> = Vec::new();
        assert(members_model(members@) == Seq::<(Seq<char>, JsonModel)>::empty());
        write_optional_field::<bool>(&mut members, "cosign", &self.cosign);
        write_optional_field::<bool>(&mut members, "pyong", &self.pyong);
        write_optional_field::<u32>(&mut members, "vote", &self.vote);
        Json::object(members)
    }

    proof fn lemma_round_trip(m: InteractionsModel) {
        broadcast use {
            lemma_member_none,
            lemma_member_with_field,
            lemma_member_with_optional_field,
            lemma_or_else_none,
            lemma_required_reads_back,
            lemma_optional_reads_back,
        };

        reveal(<Interactions as Decode>::decoded);
        reveal_strlit("cosign");
        reveal_strlit("pyong");
        reveal_strlit("vote");
        lemma_outline("cosign"@);
        lemma_outline("pyong"@);
        lemma_outline("vote"@);
    }
}

} // verus!
