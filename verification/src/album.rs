//! Albums and their cover art.

use crate::{Date, DateModel};
use crate::annotation::{Referent, ReferentModel};
use crate::json::{lemma_member_none, lemma_outline, member, members_model, Json, JsonModel};
use crate::schema::{
    fault, field, lemma_member_with_field, lemma_member_with_optional_field,
    lemma_optional_reads_back, lemma_or_else_none, lemma_required_reads_back, optional_field,
    optional_model, read_field, read_optional_field, with_field, with_optional_field, write_field,
    write_optional_field, Decode, Encode, SchemaError, SchemaErrorKind, SchemaFault,
};
use crate::song::{Artist, ArtistModel, SongPerformance, SongPerformanceModel};
use crate::user::{UserMetadata, UserMetadataModel};
use vstd::prelude::*;

verus! {

/// An album.
#[derive(Debug, PartialEq)]
pub struct Album {
    /// Path of the API.
    pub api_path: String,
    /// Number of comments.
    /// Sent only when a single album is fetched.
    pub comment_count: Option<u32>,
    /// Cover art of the album in a smaller size.
    /// Sent only to a `user-core` level token.
    pub cover_art_thumbnail_url: Option<String>,
    /// Cover art of the album.
    pub cover_art_url: String,
    /// Custom header image.
    /// Sent only when a single album is fetched.
    pub custom_header_image_url: Option<String>,
    /// Full album title is: "`name` by `author`".
    pub full_title: String,
    /// Header image.
    /// Sent only when a single album is fetched.
    pub header_image_url: Option<String>,
    /// Id of the album.
    pub id: u32,
    /// Sent only when a single album is fetched.
    pub lock_state: Option<String>,
    /// Name of the album.
    pub name: String,
    /// Name with artist, as `{album name} (artist: {artist name})`.
    /// Sent only to a `user-core` level token.
    pub name_with_artist: Option<String>,
    /// Number of pyongs in this album.
    /// Sent only when a single album is fetched.
    pub pyongs_count: Option<u32>,
    /// Release date of the album in ISO 8601 date format.
    /// Sent only when a single album is fetched.
    pub release_date: Option<String>,
    /// Release date in parts.
    /// Sent only when a single album is fetched, or to a `user-core` level token.
    pub release_date_components: Option<Date>,
    /// Url of the album page.
    pub url: String,
    /// What the holder of the credential may do with the album, and has done.
    /// Sent only when a single album is fetched.
    pub current_user_metadata: Option<UserMetadata>,
    /// Number of views of the album page. Its member is called
    /// `song_pageviews`.
    /// Sent only when a single album is fetched.
    pub album_pageviews: Option<u32>,
    /// Album artist.
    pub artist: Artist,
    /// All cover arts of the album.
    /// Sent only when a single album is fetched.
    pub cover_arts: Option<Vec<CoverArt>>,
    /// Annotations in this album.
    /// Sent only when a single album is fetched.
    pub description_annotation: Option<Referent>,
    /// All the people who worked on this album.
    /// Sent only when a single album is fetched.
    pub song_performances: Option<Vec<SongPerformance>>,
}

/// The model of an [`Album`].
pub struct AlbumModel {
    pub api_path: Seq<char>,
    pub comment_count: Option<u32>,
    pub cover_art_thumbnail_url: Option<Seq<char>>,
    pub cover_art_url: Seq<char>,
    pub custom_header_image_url: Option<Seq<char>>,
    pub full_title: Seq<char>,
    pub header_image_url: Option<Seq<char>>,
    pub id: u32,
    pub lock_state: Option<Seq<char>>,
    pub name: Seq<char>,
    pub name_with_artist: Option<Seq<char>>,
    pub pyongs_count: Option<u32>,
    pub release_date: Option<Seq<char>>,
    pub release_date_components: Option<DateModel>,
    pub url: Seq<char>,
    pub current_user_metadata: Option<UserMetadataModel>,
    pub album_pageviews: Option<u32>,
    pub artist: ArtistModel,
    pub cover_arts: Option<Seq<CoverArtModel>>,
    pub description_annotation: Option<ReferentModel>,
    pub song_performances: Option<Seq<SongPerformanceModel>>,
}

impl DeepView for Album {
    type V = AlbumModel;

    open spec fn deep_view(&self) -> AlbumModel {
        AlbumModel {
            api_path: self.api_path.deep_view(),
            comment_count: optional_model(self.comment_count),
            cover_art_thumbnail_url: optional_model(self.cover_art_thumbnail_url),
            cover_art_url: self.cover_art_url.deep_view(),
            custom_header_image_url: optional_model(self.custom_header_image_url),
            full_title: self.full_title.deep_view(),
            header_image_url: optional_model(self.header_image_url),
            id: self.id.deep_view(),
            lock_state: optional_model(self.lock_state),
            name: self.name.deep_view(),
            name_with_artist: optional_model(self.name_with_artist),
            pyongs_count: optional_model(self.pyongs_count),
            release_date: optional_model(self.release_date),
            release_date_components: optional_model(self.release_date_components),
            url: self.url.deep_view(),
            current_user_metadata: optional_model(self.current_user_metadata),
            album_pageviews: optional_model(self.album_pageviews),
            artist: self.artist.deep_view(),
            cover_arts: optional_model(self.cover_arts),
            description_annotation: optional_model(self.description_annotation),
            song_performances: optional_model(self.song_performances),
        }
    }
}

impl Decode for Album {
    #[verifier::opaque]
    open spec fn decoded(j: JsonModel) -> Result<AlbumModel, SchemaFault> {
        let api_path = field::<String>(j, "api_path"@);
        let comment_count = optional_field::<u32>(j, "comment_count"@);
        let cover_art_thumbnail_url = optional_field::<String>(j, "cover_art_thumbnail_url"@);
        let cover_art_url = field::<String>(j, "cover_art_url"@);
        let custom_header_image_url = optional_field::<String>(j, "custom_header_image_url"@);
        let full_title = field::<String>(j, "full_title"@);
        let header_image_url = optional_field::<String>(j, "header_image_url"@);
        let id = field::<u32>(j, "id"@);
        let lock_state = optional_field::<String>(j, "lock_state"@);
        let name = field::<String>(j, "name"@);
        let name_with_artist = optional_field::<String>(j, "name_with_artist"@);
        let pyongs_count = optional_field::<u32>(j, "pyongs_count"@);
        let release_date = optional_field::<String>(j, "release_date"@);
        let release_date_components = optional_field::<Date>(j, "release_date_components"@);
        let url = field::<String>(j, "url"@);
        let current_user_metadata = optional_field::<UserMetadata>(j, "current_user_metadata"@);
        let album_pageviews = optional_field::<u32>(j, "song_pageviews"@);
        let artist = field::<Artist>(j, "artist"@);
        let cover_arts = optional_field::<Vec<CoverArt>>(j, "cover_arts"@);
        let description_annotation = optional_field::<Referent>(j, "description_annotation"@);
        let song_performances = optional_field::<Vec<SongPerformance>>(j, "song_performances"@);
        if !(j is Object) {
            Err(fault(SchemaErrorKind::WrongType))
        } else if api_path is Err {
            Err(api_path->Err_0)
        } else if comment_count is Err {
            Err(comment_count->Err_0)
        } else if cover_art_thumbnail_url is Err {
            Err(cover_art_thumbnail_url->Err_0)
        } else if cover_art_url is Err {
            Err(cover_art_url->Err_0)
        } else if custom_header_image_url is Err {
            Err(custom_header_image_url->Err_0)
        } else if full_title is Err {
            Err(full_title->Err_0)
        } else if header_image_url is Err {
            Err(header_image_url->Err_0)
        } else if id is Err {
            Err(id->Err_0)
        } else if lock_state is Err {
            Err(lock_state->Err_0)
        } else if name is Err {
            Err(name->Err_0)
        } else if name_with_artist is Err {
            Err(name_with_artist->Err_0)
        } else if pyongs_count is Err {
            Err(pyongs_count->Err_0)
        } else if release_date is Err {
            Err(release_date->Err_0)
        } else if release_date_components is Err {
            Err(release_date_components->Err_0)
        } else if url is Err {
            Err(url->Err_0)
        } else if current_user_metadata is Err {
            Err(current_user_metadata->Err_0)
        } else if album_pageviews is Err {
            Err(album_pageviews->Err_0)
        } else if artist is Err {
            Err(artist->Err_0)
        } else if cover_arts is Err {
            Err(cover_arts->Err_0)
        } else if description_annotation is Err {
            Err(description_annotation->Err_0)
        } else if song_performances is Err {
            Err(song_performances->Err_0)
        } else {
            Ok(
                AlbumModel {
                    api_path: api_path->Ok_0,
                    comment_count: comment_count->Ok_0,
                    cover_art_thumbnail_url: cover_art_thumbnail_url->Ok_0,
                    cover_art_url: cover_art_url->Ok_0,
                    custom_header_image_url: custom_header_image_url->Ok_0,
                    full_title: full_title->Ok_0,
                    header_image_url: header_image_url->Ok_0,
                    id: id->Ok_0,
                    lock_state: lock_state->Ok_0,
                    name: name->Ok_0,
                    name_with_artist: name_with_artist->Ok_0,
                    pyongs_count: pyongs_count->Ok_0,
                    release_date: release_date->Ok_0,
                    release_date_components: release_date_components->Ok_0,
                    url: url->Ok_0,
                    current_user_metadata: current_user_metadata->Ok_0,
                    album_pageviews: album_pageviews->Ok_0,
                    artist: artist->Ok_0,
                    cover_arts: cover_arts->Ok_0,
                    description_annotation: description_annotation->Ok_0,
                    song_performances: song_performances->Ok_0,
                },
            )
        }
    }

    fn from_json(j: &Json) -> (r: Result<Album, SchemaError>) {
        reveal(<Album as Decode>::decoded);
        if !j.is_object() {
            return Err(SchemaError::at_root(SchemaErrorKind::WrongType));
        }
        let api_path = match read_field::<String>(j, "api_path") {
            Ok(value) => value,
            Err(e) => return Err(e),
        };
        let comment_count = match read_optional_field::<u32>(j, "comment_count") {
            Ok(value) => value,
            Err(e) => return Err(e),
        };
        let cover_art_thumbnail_url = match read_optional_field::<String>(
            j,
            "cover_art_thumbnail_url",
        ) {
            Ok(value) => value,
            Err(e) => return Err(e),
        };
        let cover_art_url = match read_field::<String>(j, "cover_art_url") {
            Ok(value) => value,
            Err(e) => return Err(e),
        };
        let custom_header_image_url = match read_optional_field::<String>(
            j,
            "custom_header_image_url",
        ) {
            Ok(value) => value,
            Err(e) => return Err(e),
        };
        let full_title = match read_field::<String>(j, "full_title") {
            Ok(value) => value,
            Err(e) => return Err(e),
        };
        let header_image_url = match read_optional_field::<String>(j, "header_image_url") {
            Ok(value) => value,
            Err(e) => return Err(e),
        };
        let id = match read_field::<u32>(j, "id") {
            Ok(value) => value,
            Err(e) => return Err(e),
        };
        let lock_state = match read_optional_field::<String>(j, "lock_state") {
            Ok(value) => value,
            Err(e) => return Err(e),
        };
        let name = match read_field::<String>(j, "name") {
            Ok(value) => value,
            Err(e) => return Err(e),
        };
        let name_with_artist = match read_optional_field::<String>(j, "name_with_artist") {
            Ok(value) => value,
            Err(e) => return Err(e),
        };
        let pyongs_count = match read_optional_field::<u32>(j, "pyongs_count") {
            Ok(value) => value,
            Err(e) => return Err(e),
        };
        let release_date = match read_optional_field::<String>(j, "release_date") {
            Ok(value) => value,
            Err(e) => return Err(e),
        };
        let release_date_components = match read_optional_field::<Date>(
            j,
            "release_date_components",
        ) {
            Ok(value) => value,
            Err(e) => return Err(e),
        };
        let url = match read_field::<String>(j, "url") {
            Ok(value) => value,
            Err(e) => return Err(e),
        };
        let current_user_metadata = match read_optional_field::<UserMetadata>(
            j,
            "current_user_metadata",
        ) {
            Ok(value) => value,
            Err(e) => return Err(e),
        };
        let album_pageviews = match read_optional_field::<u32>(j, "song_pageviews") {
            Ok(value) => value,
            Err(e) => return Err(e),
        };
        let artist = match read_field::<Artist>(j, "artist") {
            Ok(value) => value,
            Err(e) => return Err(e),
        };
        let cover_arts = match read_optional_field::<Vec<CoverArt>>(j, "cover_arts") {
            Ok(value) => value,
            Err(e) => return Err(e),
        };
        let description_annotation = match read_optional_field::<Referent>(
            j,
            "description_annotation",
        ) {
            Ok(value) => value,
            Err(e) => return Err(e),
        };
        let song_performances = match read_optional_field::<Vec<SongPerformance>>(
            j,
            "song_performances",
        ) {
            Ok(value) => value,
            Err(e) => return Err(e),
        };
        Ok(
            Album {
                api_path,
                comment_count,
                cover_art_thumbnail_url,
                cover_art_url,
                custom_header_image_url,
                full_title,
                header_image_url,
                id,
                lock_state,
                name,
                name_with_artist,
                pyongs_count,
                release_date,
                release_date_components,
                url,
                current_user_metadata,
                album_pageviews,
                artist,
                cover_arts,
                description_annotation,
                song_performances,
            },
        )
    }
}

impl Album {
    /// Whether the record reads the member of that name.
    pub open spec fn reads(name: Seq<char>) -> bool {
        name == "api_path"@
        || name == "comment_count"@
        || name == "cover_art_thumbnail_url"@
        || name == "cover_art_url"@
        || name == "custom_header_image_url"@
        || name == "full_title"@
        || name == "header_image_url"@
        || name == "id"@
        || name == "lock_state"@
        || name == "name"@
        || name == "name_with_artist"@
        || name == "pyongs_count"@
        || name == "release_date"@
        || name == "release_date_components"@
        || name == "url"@
        || name == "current_user_metadata"@
        || name == "song_pageviews"@
        || name == "artist"@
        || name == "cover_arts"@
        || name == "description_annotation"@
        || name == "song_performances"@
    }

    /// What an object is read as depends on the members that the record
    /// reads alone: members of other names, wherever they stand, are ignored.
    pub proof fn lemma_other_members_ignored(
        first: Seq<(Seq<char>, JsonModel)>,
        second: Seq<(Seq<char>, JsonModel)>,
    )
        requires
            forall|name: Seq<char>|
                Self::reads(name) ==> member(first, name) == member(second, name),
        ensures
            Self::decoded(JsonModel::Object(first)) == Self::decoded(JsonModel::Object(second)),
    {
        reveal(<Album as Decode>::decoded);
        assert(Self::reads("api_path"@));
        assert(Self::reads("comment_count"@));
        assert(Self::reads("cover_art_thumbnail_url"@));
        assert(Self::reads("cover_art_url"@));
        assert(Self::reads("custom_header_image_url"@));
        assert(Self::reads("full_title"@));
        assert(Self::reads("header_image_url"@));
        assert(Self::reads("id"@));
        assert(Self::reads("lock_state"@));
        assert(Self::reads("name"@));
        assert(Self::reads("name_with_artist"@));
        assert(Self::reads("pyongs_count"@));
        assert(Self::reads("release_date"@));
        assert(Self::reads("release_date_components"@));
        assert(Self::reads("url"@));
        assert(Self::reads("current_user_metadata"@));
        assert(Self::reads("song_pageviews"@));
        assert(Self::reads("artist"@));
        assert(Self::reads("cover_arts"@));
        assert(Self::reads("description_annotation"@));
        assert(Self::reads("song_performances"@));
    }
}

impl Encode for Album {
    open spec fn encoded(m: AlbumModel) -> JsonModel {
        let members = Seq::empty();
        let members = with_field::<String>(members, "api_path"@, m.api_path);
        let members = with_optional_field::<u32>(members, "comment_count"@, m.comment_count);
        let members = with_optional_field::<String>(
            members,
            "cover_art_thumbnail_url"@,
            m.cover_art_thumbnail_url,
        );
        let members = with_field::<String>(members, "cover_art_url"@, m.cover_art_url);
        let members = with_optional_field::<String>(
            members,
            "custom_header_image_url"@,
            m.custom_header_image_url,
        );
        let members = with_field::<String>(members, "full_title"@, m.full_title);
        let members = with_optional_field::<String>(
            members,
            "header_image_url"@,
            m.header_image_url,
        );
        let members = with_field::<u32>(members, "id"@, m.id);
        let members = with_optional_field::<String>(members, "lock_state"@, m.lock_state);
        let members = with_field::<String>(members, "name"@, m.name);
        let members = with_optional_field::<String>(
            members,
            "name_with_artist"@,
            m.name_with_artist,
        );
        let members = with_optional_field::<u32>(members, "pyongs_count"@, m.pyongs_count);
        let members = with_optional_field::<String>(members, "release_date"@, m.release_date);
        let members = with_optional_field::<Date>(
            members,
            "release_date_components"@,
            m.release_date_components,
        );
        let members = with_field::<String>(members, "url"@, m.url);
        let members = with_optional_field::<UserMetadata>(
            members,
            "current_user_metadata"@,
            m.current_user_metadata,
        );
        let members = with_optional_field::<u32>(members, "song_pageviews"@, m.album_pageviews);
        let members = with_field::<Artist>(members, "artist"@, m.artist);
        let members = with_optional_field::<Vec<CoverArt>>(members, "cover_arts"@, m.cover_arts);
        let members = with_optional_field::<Referent>(
            members,
            "description_annotation"@,
            m.description_annotation,
        );
        let members = with_optional_field::<Vec<SongPerformance>>(
            members,
            "song_performances"@,
            m.song_performances,
        );
        JsonModel::Object(members)
    }

    fn to_json(&self) -> (j: Json) {
        let mut members: Vec<(String, Json)> = Vec::new();
        assert(members_model(members@) == Seq::<(Seq<char>, JsonModel)>::empty());
        write_field::<String>(&mut members, "api_path", &self.api_path);
        write_optional_field::<u32>(&mut members, "comment_count", &self.comment_count);
        write_optional_field::<String>(
            &mut members,
            "cover_art_thumbnail_url",
            &self.cover_art_thumbnail_url,
        );
        write_field::<String>(&mut members, "cover_art_url", &self.cover_art_url);
        write_optional_field::<String>(
            &mut members,
            "custom_header_image_url",
            &self.custom_header_image_url,
        );
        write_field::<String>(&mut members, "full_title", &self.full_title);
        write_optional_field::<String>(&mut members, "header_image_url", &self.header_image_url);
        write_field::<u32>(&mut members, "id", &self.id);
        write_optional_field::<String>(&mut members, "lock_state", &self.lock_state);
        write_field::<String>(&mut members, "name", &self.name);
        write_optional_field::<String>(&mut members, "name_with_artist", &self.name_with_artist);
        write_optional_field::<u32>(&mut members, "pyongs_count", &self.pyongs_count);
        write_optional_field::<String>(&mut members, "release_date", &self.release_date);
        write_optional_field::<Date>(
            &mut members,
            "release_date_components",
            &self.release_date_components,
        );
        write_field::<String>(&mut members, "url", &self.url);
        write_optional_field::<UserMetadata>(
            &mut members,
            "current_user_metadata",
            &self.current_user_metadata,
        );
        write_optional_field::<u32>(&mut members, "song_pageviews", &self.album_pageviews);
        write_field::<Artist>(&mut members, "artist", &self.artist);
        write_optional_field::<Vec<CoverArt>>(&mut members, "cover_arts", &self.cover_arts);
        write_optional_field::<Referent>(
            &mut members,
            "description_annotation",
            &self.description_annotation,
        );
        write_optional_field::<Vec<SongPerformance>>(
            &mut members,
            "song_performances",
            &self.song_performances,
        );
        Json::object(members)
    }

    proof fn lemma_round_trip(m: AlbumModel) {
        broadcast use {
            lemma_member_none,
            lemma_member_with_field,
            lemma_member_with_optional_field,
            lemma_or_else_none,
            lemma_required_reads_back,
            lemma_optional_reads_back,
        };

        reveal(<Album as Decode>::decoded);
        reveal_strlit("api_path");
        reveal_strlit("comment_count");
        reveal_strlit("cover_art_thumbnail_url");
        reveal_strlit("cover_art_url");
        reveal_strlit("custom_header_image_url");
        reveal_strlit("full_title");
        reveal_strlit("header_image_url");
        reveal_strlit("id");
        reveal_strlit("lock_state");
        reveal_strlit("name");
        reveal_strlit("name_with_artist");
        reveal_strlit("pyongs_count");
        reveal_strlit("release_date");
        reveal_strlit("release_date_components");
        reveal_strlit("url");
        reveal_strlit("current_user_metadata");
        reveal_strlit("song_pageviews");
        reveal_strlit("artist");
        reveal_strlit("cover_arts");
        reveal_strlit("description_annotation");
        reveal_strlit("song_performances");
        lemma_outline("api_path"@);
        lemma_outline("comment_count"@);
        lemma_outline("cover_art_thumbnail_url"@);
        lemma_outline("cover_art_url"@);
        lemma_outline("custom_header_image_url"@);
        lemma_outline("full_title"@);
        lemma_outline("header_image_url"@);
        lemma_outline("id"@);
        lemma_outline("lock_state"@);
        lemma_outline("name"@);
        lemma_outline("name_with_artist"@);
        lemma_outline("pyongs_count"@);
        lemma_outline("release_date"@);
        lemma_outline("release_date_components"@);
        lemma_outline("url"@);
        lemma_outline("current_user_metadata"@);
        lemma_outline("song_pageviews"@);
        lemma_outline("artist"@);
        lemma_outline("cover_arts"@);
        lemma_outline("description_annotation"@);
        lemma_outline("song_performances"@);
    }
}

/// One cover art of an album.
#[derive(Debug, PartialEq)]
pub struct CoverArt {
    /// Whether the art has annotations.
    pub annotated: bool,
    /// Path of the API.
    pub api_path: String,
    /// Id of cover art.
    pub id: u32,
    /// Image of the art.
    pub image_url: String,
    /// Thumbnail image of the art.
    pub thumbnail_image_url: String,
    /// Page of the art.
    pub url: String,
}

/// The model of a [`CoverArt`].
pub struct CoverArtModel {
    pub annotated: bool,
    pub api_path: Seq<char>,
    pub id: u32,
    pub image_url: Seq<char>,
    pub thumbnail_image_url: Seq<char>,
    pub url: Seq<char>,
}

impl DeepView for CoverArt {
    type V = CoverArtModel;

    open spec fn deep_view(&self) -> CoverArtModel {
        CoverArtModel {
            annotated: self.annotated.deep_view(),
            api_path: self.api_path.deep_view(),
            id: self.id.deep_view(),
            image_url: self.image_url.deep_view(),
            thumbnail_image_url: self.thumbnail_image_url.deep_view(),
            url: self.url.deep_view(),
        }
    }
}

impl Decode for CoverArt {
    #[verifier::opaque]
    open spec fn decoded(j: JsonModel) -> Result<CoverArtModel, SchemaFault> {
        let annotated = field::<bool>(j, "annotated"@);
        let api_path = field::<String>(j, "api_path"@);
        let id = field::<u32>(j, "id"@);
        let image_url = field::<String>(j, "image_url"@);
        let thumbnail_image_url = field::<String>(j, "thumbnail_image_url"@);
        let url = field::<String>(j, "url"@);
        if !(j is Object) {
            Err(fault(SchemaErrorKind::WrongType))
        } else if annotated is Err {
            Err(annotated->Err_0)
        } else if api_path is Err {
            Err(api_path->Err_0)
        } else if id is Err {
            Err(id->Err_0)
        } else if image_url is Err {
            Err(image_url->Err_0)
        } else if thumbnail_image_url is Err {
            Err(thumbnail_image_url->Err_0)
        } else if url is Err {
            Err(url->Err_0)
        } else {
            Ok(
                CoverArtModel {
                    annotated: annotated->Ok_0,
                    api_path: api_path->Ok_0,
                    id: id->Ok_0,
                    image_url: image_url->Ok_0,
                    thumbnail_image_url: thumbnail_image_url->Ok_0,
                    url: url->Ok_0,
                },
            )
        }
    }

    fn from_json(j: &Json) -> (r: Result<CoverArt, SchemaError>) {
        reveal(<CoverArt as Decode>::decoded);
        if !j.is_object() {
            return Err(SchemaError::at_root(SchemaErrorKind::WrongType));
        }
        let annotated = match read_field::<bool>(j, "annotated") {
            Ok(value) => value,
            Err(e) => return Err(e),
        };
        let api_path = match read_field::<String>(j, "api_path") {
            Ok(value) => value,
            Err(e) => return Err(e),
        };
        let id = match read_field::<u32>(j, "id") {
            Ok(value) => value,
            Err(e) => return Err(e),
        };
        let image_url = match read_field::<String>(j, "image_url") {
            Ok(value) => value,
            Err(e) => return Err(e),
        };
        let thumbnail_image_url = match read_field::<String>(j, "thumbnail_image_url") {
            Ok(value) => value,
            Err(e) => return Err(e),
        };
        let url = match read_field::<String>(j, "url") {
            Ok(value) => value,
            Err(e) => return Err(e),
        };
        Ok(CoverArt { annotated, api_path, id, image_url, thumbnail_image_url, url })
    }
}

impl CoverArt {
    /// Whether the record reads the member of that name.
    pub open spec fn reads(name: Seq<char>) -> bool {
        name == "annotated"@
        || name == "api_path"@
        || name == "id"@
        || name == "image_url"@
        || name == "thumbnail_image_url"@
        || name == "url"@
    }

    /// What an object is read as depends on the members that the record
    /// reads alone: members of other names, wherever they stand, are ignored.
    pub proof fn lemma_other_members_ignored(
        first: Seq<(Seq<char>, JsonModel)>,
        second: Seq<(Seq<char>, JsonModel)>,
    )
        requires
            forall|name: Seq<char>|
                Self::reads(name) ==> member(first, name) == member(second, name),
        ensures
            Self::decoded(JsonModel::Object(first)) == Self::decoded(JsonModel::Object(second)),
    {
        reveal(<CoverArt as Decode>::decoded);
        assert(Self::reads("annotated"@));
        assert(Self::reads("api_path"@));
        assert(Self::reads("id"@));
        assert(Self::reads("image_url"@));
        assert(Self::reads("thumbnail_image_url"@));
        assert(Self::reads("url"@));
    }
}

impl Encode for CoverArt {
    open spec fn encoded(m: CoverArtModel) -> JsonModel {
        let members = Seq::empty();
        let members = with_field::<bool>(members, "annotated"@, m.annotated);
        let members = with_field::<String>(members, "api_path"@, m.api_path);
        let members = with_field::<u32>(members, "id"@, m.id);
        let members = with_field::<String>(members, "image_url"@, m.image_url);
        let members = with_field::<String>(members, "thumbnail_image_url"@, m.thumbnail_image_url);
        let members = with_field::<String>(members, "url"@, m.url);
        JsonModel::Object(members)
    }

    fn to_json(&self) -> (j: Json) {
        let mut members: Vec<(String, Json)> = Vec::new();
        assert(members_model(members@) == Seq::<(Seq<char>, JsonModel)>::empty());
        write_field::<bool>(&mut members, "annotated", &self.annotated);
        write_field::<String>(&mut members, "api_path", &self.api_path);
        write_field::<u32>(&mut members, "id", &self.id);
        write_field::<String>(&mut members, "image_url", &self.image_url);
        write_field::<String>(&mut members, "thumbnail_image_url", &self.thumbnail_image_url);
        write_field::<String>(&mut members, "url", &self.url);
        Json::object(members)
    }

    proof fn lemma_round_trip(m: CoverArtModel) {
        broadcast use {
            lemma_member_none,
            lemma_member_with_field,
            lemma_member_with_optional_field,
            lemma_or_else_none,
            lemma_required_reads_back,
            lemma_optional_reads_back,
        };

        reveal(<CoverArt as Decode>::decoded);
        reveal_strlit("annotated");
        reveal_strlit("api_path");
        reveal_strlit("id");
        reveal_strlit("image_url");
        reveal_strlit("thumbnail_image_url");
        reveal_strlit("url");
        lemma_outline("annotated"@);
        lemma_outline("api_path"@);
        lemma_outline("id"@);
        lemma_outline("image_url"@);
        lemma_outline("thumbnail_image_url"@);
        lemma_outline("url"@);
    }
}

} // verus!
