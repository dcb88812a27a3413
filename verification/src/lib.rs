//! A typed binding for the Genius web service: the requests that the two
//! operations make, the records that the responses are read into, and the
//! lyrics taken from the page of a song.
//!
//! The library makes no request itself. [`Genius`] says which request an
//! operation makes and reads the body that comes back, so that any
//! transport can carry the request in between.

pub mod album;
pub mod annotation;
pub mod json;
pub mod lyrics;
pub mod plain;
pub mod schema;
pub mod search;
pub mod song;
pub mod table;
pub mod user;

use crate::json::{lemma_member_none, lemma_outline, member, members_model, Json, JsonModel};
use crate::lyrics::{extract_lyrics, lyrics_of, ExtractionError};
use crate::schema::{
    fault, field, from_text, lemma_member_with_field, lemma_member_with_optional_field,
    lemma_optional_reads_back, lemma_or_else_none, lemma_required_reads_back, optional_field,
    optional_model, outcome, read_field, read_optional_field, text_decoded, with_optional_field,
    write_optional_field, Decode, Encode, SchemaError, SchemaErrorKind, SchemaFault,
};
use vstd::prelude::*;
use vstd::string::*;

verus! {

/// Base address of the service's programming interface.
pub const URL: &'static str = "https://api.genius.com/";

/// A request that an operation makes: a `GET` of `url`, with the
/// `Authorization` header where the endpoint asks for it.
#[derive(Debug, PartialEq)]
pub struct Request {
    pub url: String,
    pub authorization: Option<String>,
}

/// The model of a [`Request`].
pub struct RequestModel {
    pub url: Seq<char>,
    pub authorization: Option<Seq<char>>,
}

impl DeepView for Request {
    type V = RequestModel;

    open spec fn deep_view(&self) -> RequestModel {
        RequestModel { url: self.url@, authorization: self.authorization.deep_view() }
    }
}

/// A client of the service: the credential, as the value of the
/// authorization header. The credential is taken as it is given and never
/// checked.
pub struct Genius {
    token: String,
}

impl Genius {
    /// The value of the authorization header that the client sends.
    pub closed spec fn authorization_value(self) -> Seq<char> {
        self.token@
    }

    /// A client for the credential `token`. Nothing is sent.
    pub fn new(token: String) -> (client: Genius)
        ensures
            client.authorization_value() == "Bearer "@ + token@,
    {
        Genius { token: String::from_str("Bearer ").concat(token.as_str()) }
    }

    /// The value of the authorization header that the client sends.
    pub fn authorization(&self) -> (value: &str)
        ensures
            value@ == self.authorization_value(),
    {
        self.token.as_str()
    }

    /// The request that a search for `q` makes: the search endpoint with the
    /// query as given, not escaped, and the authorization header.
    pub fn search_request(&self, q: &str) -> (request: Request)
        ensures
            request.deep_view() == (RequestModel {
                url: URL@ + "search?q="@ + q@,
                authorization: Some(self.authorization_value()),
            }),
    {
        Request {
            url: String::from_str(URL).concat("search?q=").concat(q),
            authorization: Some(self.token.clone()),
        }
    }

    /// Reads the body of the response to a search.
    pub fn read_search(body: &str) -> (r: Result<SearchResponse, SchemaError>)
        ensures
            outcome(r) == text_decoded::<SearchResponse>(body@),
    {
        from_text::<SearchResponse>(body)
    }

    /// The request that fetches the page of a song: the address as given,
    /// without a header.
    pub fn lyrics_request(&self, url: &str) -> (request: Request)
        ensures
            request.deep_view() == (RequestModel { url: url@, authorization: None }),
    {
        Request { url: String::from_str(url), authorization: None }
    }

    /// Takes the lyrics from the page of a song.
    pub fn read_lyrics(body: &str) -> (r: Result<Vec<String>, ExtractionError>)
        ensures
            match r {
                Ok(lines) => lyrics_of(body@) == Ok::<Seq<Seq<char>>, ExtractionError>(
                    lines.deep_view(),
                ),
                Err(e) => lyrics_of(body@) == Err::<Seq<Seq<char>>, ExtractionError>(e),
            },
    {
        extract_lyrics(body)
    }
}

/// The envelope of a search result.
#[derive(Debug, PartialEq)]
pub struct SearchResponse {
    /// The status of the response.
    pub meta: Meta,
    /// The hits.
    pub response: Hits,
}

/// The model of a [`SearchResponse`].
pub struct SearchResponseModel {
    pub meta: MetaModel,
    pub response: HitsModel,
}

impl DeepView for SearchResponse {
    type V = SearchResponseModel;

    open spec fn deep_view(&self) -> SearchResponseModel {
        SearchResponseModel {
            meta: self.meta.deep_view(),
            response: self.response.deep_view(),
        }
    }
}

impl Decode for SearchResponse {
    #[verifier::opaque]
    open spec fn decoded(j: JsonModel) -> Result<SearchResponseModel, SchemaFault> {
        let meta = field::<Meta>(j, "meta"@);
        let response = field::<Hits>(j, "response"@);
        if !(j is Object) {
            Err(fault(SchemaErrorKind::WrongType))
        } else if meta is Err {
            Err(meta->Err_0)
        } else if response is Err {
            Err(response->Err_0)
        } else {
            Ok(
                SearchResponseModel {
                    meta: meta->Ok_0,
                    response: response->Ok_0,
                },
            )
        }
    }

    fn from_json(j: &Json) -> (r: Result<SearchResponse, SchemaError>) {
        reveal(<SearchResponse as Decode>::decoded);
        if !j.is_object() {
            return Err(SchemaError::at_root(SchemaErrorKind::WrongType));
        }
        let meta = match read_field::<Meta>(j, "meta") {
            Ok(value) => value,
            Err(e) => return Err(e),
        };
        let response = match read_field::<Hits>(j, "response") {
            Ok(value) => value,
            Err(e) => return Err(e),
        };
        Ok(SearchResponse { meta, response })
    }
}

impl SearchResponse {
    /// Whether the record reads the member of that name.
    pub open spec fn reads(name: Seq<char>) -> bool {
        name == "meta"@
        || name == "response"@
    }

    /// What an object is read as depends on the members that the record
    /// reads alone: members of other names, wherever they stand, are ignored.
    pub proof fn lemma_other_members_ignored(
        first: Seq<(Seq<char>, JsonModel)>,
        second: Seq<(Seq<char>, JsonModel)>,
    )
        requires
            forall|name: Seq<char>|
                Self::reads(name) ==> member(first, name) == member(second, name),
        ensures
            Self::decoded(JsonModel::Object(first)) == Self::decoded(JsonModel::Object(second)),
    {
        reveal(<SearchResponse as Decode>::decoded);
        assert(Self::reads("meta"@));
        assert(Self::reads("response"@));
    }
}

/// The status that the service reports with a response.
#[derive(Debug, PartialEq)]
pub struct Meta {
    /// The HTTP status that the service reports, such as 200.
    pub status: u32,
}

/// The model of a [`Meta`].
pub struct MetaModel {
    pub status: u32,
}

impl DeepView for Meta {
    type V = MetaModel;

    open spec fn deep_view(&self) -> MetaModel {
        MetaModel {
            status: self.status.deep_view(),
        }
    }
}

impl Decode for Meta {
    #[verifier::opaque]
    open spec fn decoded(j: JsonModel) -> Result<MetaModel, SchemaFault> {
        let status = field::<u32>(j, "status"@);
        if !(j is Object) {
            Err(fault(SchemaErrorKind::WrongType))
        } else if status is Err {
            Err(status->Err_0)
        } else {
            Ok(
                MetaModel {
                    status: status->Ok_0,
                },
            )
        }
    }

    fn from_json(j: &Json) -> (r: Result<Meta, SchemaError>) {
        reveal(<Meta as Decode>::decoded);
        if !j.is_object() {
            return Err(SchemaError::at_root(SchemaErrorKind::WrongType));
        }
        let status = match read_field::<u32>(j, "status") {
            Ok(value) => value,
            Err(e) => return Err(e),
        };
        Ok(Meta { status })
    }
}

impl Meta {
    /// Whether the record reads the member of that name.
    pub open spec fn reads(name: Seq<char>) -> bool {
        name == "status"@
    }

    /// What an object is read as depends on the members that the record
    /// reads alone: members of other names, wherever they stand, are ignored.
    pub proof fn lemma_other_members_ignored(
        first: Seq<(Seq<char>, JsonModel)>,
        second: Seq<(Seq<char>, JsonModel)>,
    )
        requires
            forall|name: Seq<char>|
                Self::reads(name) ==> member(first, name) == member(second, name),
        ensures
            Self::decoded(JsonModel::Object(first)) == Self::decoded(JsonModel::Object(second)),
    {
        reveal(<Meta as Decode>::decoded);
        assert(Self::reads("status"@));
    }
}

/// The entries of a search result, best first.
#[derive(Debug, PartialEq)]
pub struct Hits {
    /// The hits, in the order of the response.
    pub hits: Vec<Hit>,
}

/// The model of a [`Hits`].
pub struct HitsModel {
    pub hits: Seq<HitModel>,
}

impl DeepView for Hits {
    type V = HitsModel;

    open spec fn deep_view(&self) -> HitsModel {
        HitsModel {
            hits: self.hits.deep_view(),
        }
    }
}

impl Decode for Hits {
    #[verifier::opaque]
    open spec fn decoded(j: JsonModel) -> Result<HitsModel, SchemaFault> {
        let hits = field::<Vec<Hit>>(j, "hits"@);
        if !(j is Object) {
            Err(fault(SchemaErrorKind::WrongType))
        } else if hits is Err {
            Err(hits->Err_0)
        } else {
            Ok(
                HitsModel {
                    hits: hits->Ok_0,
                },
            )
        }
    }

    fn from_json(j: &Json) -> (r: Result<Hits, SchemaError>) {
        reveal(<Hits as Decode>::decoded);
        if !j.is_object() {
            return Err(SchemaError::at_root(SchemaErrorKind::WrongType));
        }
        let hits = match read_field::<Vec<Hit>>(j, "hits") {
            Ok(value) => value,
            Err(e) => return Err(e),
        };
        Ok(Hits { hits })
    }
}

impl Hits {
    /// Whether the record reads the member of that name.
    pub open spec fn reads(name: Seq<char>) -> bool {
        name == "hits"@
    }

    /// What an object is read as depends on the members that the record
    /// reads alone: members of other names, wherever they stand, are ignored.
    pub proof fn lemma_other_members_ignored(
        first: Seq<(Seq<char>, JsonModel)>,
        second: Seq<(Seq<char>, JsonModel)>,
    )
        requires
            forall|name: Seq<char>|
                Self::reads(name) ==> member(first, name) == member(second, name),
        ensures
            Self::decoded(JsonModel::Object(first)) == Self::decoded(JsonModel::Object(second)),
    {
        reveal(<Hits as Decode>::decoded);
        assert(Self::reads("hits"@));
    }
}

/// One entry of a search result, with the song in brief.
#[derive(Debug, PartialEq)]
pub struct Hit {
    /// The index that the hit came from, such as `song`.
    pub index: String,
    /// The kind of the hit, such as `song`. Its member is called `type`.
    pub hit_type: String,
    /// The song that was found.
    pub result: SongSearch,
}

/// The model of a [`Hit`].
pub struct HitModel {
    pub index: Seq<char>,
    pub hit_type: Seq<char>,
    pub result: SongSearchModel,
}

impl DeepView for Hit {
    type V = HitModel;

    open spec fn deep_view(&self) -> HitModel {
        HitModel {
            index: self.index.deep_view(),
            hit_type: self.hit_type.deep_view(),
            result: self.result.deep_view(),
        }
    }
}

impl Decode for Hit {
    #[verifier::opaque]
    open spec fn decoded(j: JsonModel) -> Result<HitModel, SchemaFault> {
        let index = field::<String>(j, "index"@);
        let hit_type = field::<String>(j, "type"@);
        let result = field::<SongSearch>(j, "result"@);
        if !(j is Object) {
            Err(fault(SchemaErrorKind::WrongType))
        } else if index is Err {
            Err(index->Err_0)
        } else if hit_type is Err {
            Err(hit_type->Err_0)
        } else if result is Err {
            Err(result->Err_0)
        } else {
            Ok(
                HitModel {
                    index: index->Ok_0,
                    hit_type: hit_type->Ok_0,
                    result: result->Ok_0,
                },
            )
        }
    }

    fn from_json(j: &Json) -> (r: Result<Hit, SchemaError>) {
        reveal(<Hit as Decode>::decoded);
        if !j.is_object() {
            return Err(SchemaError::at_root(SchemaErrorKind::WrongType));
        }
        let index = match read_field::<String>(j, "index") {
            Ok(value) => value,
            Err(e) => return Err(e),
        };
        let hit_type = match read_field::<String>(j, "type") {
            Ok(value) => value,
            Err(e) => return Err(e),
        };
        let result = match read_field::<SongSearch>(j, "result") {
            Ok(value) => value,
            Err(e) => return Err(e),
        };
        Ok(Hit { index, hit_type, result })
    }
}

impl Hit {
    /// Whether the record reads the member of that name.
    pub open spec fn reads(name: Seq<char>) -> bool {
        name == "index"@
        || name == "type"@
        || name == "result"@
    }

    /// What an object is read as depends on the members that the record
    /// reads alone: members of other names, wherever they stand, are ignored.
    pub proof fn lemma_other_members_ignored(
        first: Seq<(Seq<char>, JsonModel)>,
        second: Seq<(Seq<char>, JsonModel)>,
    )
        requires
            forall|name: Seq<char>|
                Self::reads(name) ==> member(first, name) == member(second, name),
        ensures
            Self::decoded(JsonModel::Object(first)) == Self::decoded(JsonModel::Object(second)),
    {
        reveal(<Hit as Decode>::decoded);
        assert(Self::reads("index"@));
        assert(Self::reads("type"@));
        assert(Self::reads("result"@));
    }
}

/// A song as a search result describes it.
#[derive(Debug, PartialEq)]
pub struct SongSearch {
    pub annotation_count: u32,
    pub api_path: String,
    pub full_title: String,
    pub header_image_thumbnail_url: String,
    pub header_image_url: String,
    pub id: u32,
    pub lyrics_owner_id: u32,
    pub lyrics_state: String,
    pub path: String,
    pub pyongs_count: u32,
    pub song_art_image_thumbnail_url: String,
    pub song_art_image_url: String,
    pub song_art_primary_color: Option<String>,
    pub song_art_secondary_color: Option<String>,
    pub song_art_text_color: Option<String>,
    pub stats: SongStatus,
    pub title: String,
    pub title_with_featured: String,
    pub url: String,
    pub primary_artist: Artist,
}

/// The model of a [`SongSearch`].
pub struct SongSearchModel {
    pub annotation_count: u32,
    pub api_path: Seq<char>,
    pub full_title: Seq<char>,
    pub header_image_thumbnail_url: Seq<char>,
    pub header_image_url: Seq<char>,
    pub id: u32,
    pub lyrics_owner_id: u32,
    pub lyrics_state: Seq<char>,
    pub path: Seq<char>,
    pub pyongs_count: u32,
    pub song_art_image_thumbnail_url: Seq<char>,
    pub song_art_image_url: Seq<char>,
    pub song_art_primary_color: Option<Seq<char>>,
    pub song_art_secondary_color: Option<Seq<char>>,
    pub song_art_text_color: Option<Seq<char>>,
    pub stats: SongStatusModel,
    pub title: Seq<char>,
    pub title_with_featured: Seq<char>,
    pub url: Seq<char>,
    pub primary_artist: ArtistModel,
}

impl DeepView for SongSearch {
    type V = SongSearchModel;

    open spec fn deep_view(&self) -> SongSearchModel {
        SongSearchModel {
            annotation_count: self.annotation_count.deep_view(),
            api_path: self.api_path.deep_view(),
            full_title: self.full_title.deep_view(),
            header_image_thumbnail_url: self.header_image_thumbnail_url.deep_view(),
            header_image_url: self.header_image_url.deep_view(),
            id: self.id.deep_view(),
            lyrics_owner_id: self.lyrics_owner_id.deep_view(),
            lyrics_state: self.lyrics_state.deep_view(),
            path: self.path.deep_view(),
            pyongs_count: self.pyongs_count.deep_view(),
            song_art_image_thumbnail_url: self.song_art_image_thumbnail_url.deep_view(),
            song_art_image_url: self.song_art_image_url.deep_view(),
            song_art_primary_color: optional_model(self.song_art_primary_color),
            song_art_secondary_color: optional_model(self.song_art_secondary_color),
            song_art_text_color: optional_model(self.song_art_text_color),
            stats: self.stats.deep_view(),
            title: self.title.deep_view(),
            title_with_featured: self.title_with_featured.deep_view(),
            url: self.url.deep_view(),
            primary_artist: self.primary_artist.deep_view(),
        }
    }
}

impl Decode for SongSearch {
    #[verifier::opaque]
    open spec fn decoded(j: JsonModel) -> Result<SongSearchModel, SchemaFault> {
        let annotation_count = field::<u32>(j, "annotation_count"@);
        let api_path = field::<String>(j, "api_path"@);
        let full_title = field::<String>(j, "full_title"@);
        let header_image_thumbnail_url = field::<String>(j, "header_image_thumbnail_url"@);
        let header_image_url = field::<String>(j, "header_image_url"@);
        let id = field::<u32>(j, "id"@);
        let lyrics_owner_id = field::<u32>(j, "lyrics_owner_id"@);
        let lyrics_state = field::<String>(j, "lyrics_state"@);
        let path = field::<String>(j, "path"@);
        let pyongs_count = field::<u32>(j, "pyongs_count"@);
        let song_art_image_thumbnail_url = field::<String>(j, "song_art_image_thumbnail_url"@);
        let song_art_image_url = field::<String>(j, "song_art_image_url"@);
        let song_art_primary_color = optional_field::<String>(j, "song_art_primary_color"@);
        let song_art_secondary_color = optional_field::<String>(j, "song_art_secondary_color"@);
        let song_art_text_color = optional_field::<String>(j, "song_art_text_color"@);
        let stats = field::<SongStatus>(j, "stats"@);
        let title = field::<String>(j, "title"@);
        let title_with_featured = field::<String>(j, "title_with_featured"@);
        let url = field::<String>(j, "url"@);
        let primary_artist = field::<Artist>(j, "primary_artist"@);
        if !(j is Object) {
            Err(fault(SchemaErrorKind::WrongType))
        } else if annotation_count is Err {
            Err(annotation_count->Err_0)
        } else if api_path is Err {
            Err(api_path->Err_0)
        } else if full_title is Err {
            Err(full_title->Err_0)
        } else if header_image_thumbnail_url is Err {
            Err(header_image_thumbnail_url->Err_0)
        } else if header_image_url is Err {
            Err(header_image_url->Err_0)
        } else if id is Err {
            Err(id->Err_0)
        } else if lyrics_owner_id is Err {
            Err(lyrics_owner_id->Err_0)
        } else if lyrics_state is Err {
            Err(lyrics_state->Err_0)
        } else if path is Err {
            Err(path->Err_0)
        } else if pyongs_count is Err {
            Err(pyongs_count->Err_0)
        } else if song_art_image_thumbnail_url is Err {
            Err(song_art_image_thumbnail_url->Err_0)
        } else if song_art_image_url is Err {
            Err(song_art_image_url->Err_0)
        } else if song_art_primary_color is Err {
            Err(song_art_primary_color->Err_0)
        } else if song_art_secondary_color is Err {
            Err(song_art_secondary_color->Err_0)
        } else if song_art_text_color is Err {
            Err(song_art_text_color->Err_0)
        } else if stats is Err {
            Err(stats->Err_0)
        } else if title is Err {
            Err(title->Err_0)
        } else if title_with_featured is Err {
            Err(title_with_featured->Err_0)
        } else if url is Err {
            Err(url->Err_0)
        } else if primary_artist is Err {
            Err(primary_artist->Err_0)
        } else {
            Ok(
                SongSearchModel {
                    annotation_count: annotation_count->Ok_0,
                    api_path: api_path->Ok_0,
                    full_title: full_title->Ok_0,
                    header_image_thumbnail_url: header_image_thumbnail_url->Ok_0,
                    header_image_url: header_image_url->Ok_0,
                    id: id->Ok_0,
                    lyrics_owner_id: lyrics_owner_id->Ok_0,
                    lyrics_state: lyrics_state->Ok_0,
                    path: path->Ok_0,
                    pyongs_count: pyongs_count->Ok_0,
                    song_art_image_thumbnail_url: song_art_image_thumbnail_url->Ok_0,
                    song_art_image_url: song_art_image_url->Ok_0,
                    song_art_primary_color: song_art_primary_color->Ok_0,
                    song_art_secondary_color: song_art_secondary_color->Ok_0,
                    song_art_text_color: song_art_text_color->Ok_0,
                    stats: stats->Ok_0,
                    title: title->Ok_0,
                    title_with_featured: title_with_featured->Ok_0,
                    url: url->Ok_0,
                    primary_artist: primary_artist->Ok_0,
                },
            )
        }
    }

    fn from_json(j: &Json) -> (r: Result<SongSearch, SchemaError>) {
        reveal(<SongSearch as Decode>::decoded);
        if !j.is_object() {
            return Err(SchemaError::at_root(SchemaErrorKind::WrongType));
        }
        let annotation_count = match read_field::<u32>(j, "annotation_count") {
            Ok(value) => value,
            Err(e) => return Err(e),
        };
        let api_path = match read_field::<String>(j, "api_path") {
            Ok(value) => value,
            Err(e) => return Err(e),
        };
        let full_title = match read_field::<String>(j, "full_title") {
            Ok(value) => value,
            Err(e) => return Err(e),
        };
        let header_image_thumbnail_url = match read_field::<String>(
            j,
            "header_image_thumbnail_url",
        ) {
            Ok(value) => value,
            Err(e) => return Err(e),
        };
        let header_image_url = match read_field::<String>(j, "header_image_url") {
            Ok(value) => value,
            Err(e) => return Err(e),
        };
        let id = match read_field::<u32>(j, "id") {
            Ok(value) => value,
            Err(e) => return Err(e),
        };
        let lyrics_owner_id = match read_field::<u32>(j, "lyrics_owner_id") {
            Ok(value) => value,
            Err(e) => return Err(e),
        };
        let lyrics_state = match read_field::<String>(j, "lyrics_state") {
            Ok(value) => value,
            Err(e) => return Err(e),
        };
        let path = match read_field::<String>(j, "path") {
            Ok(value) => value,
            Err(e) => return Err(e),
        };
        let pyongs_count = match read_field::<u32>(j, "pyongs_count") {
            Ok(value) => value,
            Err(e) => return Err(e),
        };
        let song_art_image_thumbnail_url = match read_field::<String>(
            j,
            "song_art_image_thumbnail_url",
        ) {
            Ok(value) => value,
            Err(e) => return Err(e),
        };
        let song_art_image_url = match read_field::<String>(j, "song_art_image_url") {
            Ok(value) => value,
            Err(e) => return Err(e),
        };
        let song_art_primary_color = match read_optional_field::<String>(
            j,
            "song_art_primary_color",
        ) {
            Ok(value) => value,
            Err(e) => return Err(e),
        };
        let song_art_secondary_color = match read_optional_field::<String>(
            j,
            "song_art_secondary_color",
        ) {
            Ok(value) => value,
            Err(e) => return Err(e),
        };
        let song_art_text_color = match read_optional_field::<String>(j, "song_art_text_color") {
            Ok(value) => value,
            Err(e) => return Err(e),
        };
        let stats = match read_field::<SongStatus>(j, "stats") {
            Ok(value) => value,
            Err(e) => return Err(e),
        };
        let title = match read_field::<String>(j, "title") {
            Ok(value) => value,
            Err(e) => return Err(e),
        };
        let title_with_featured = match read_field::<String>(j, "title_with_featured") {
            Ok(value) => value,
            Err(e) => return Err(e),
        };
        let url = match read_field::<String>(j, "url") {
            Ok(value) => value,
            Err(e) => return Err(e),
        };
        let primary_artist = match read_field::<Artist>(j, "primary_artist") {
            Ok(value) => value,
            Err(e) => return Err(e),
        };
        Ok(
            SongSearch {
                annotation_count,
                api_path,
                full_title,
                header_image_thumbnail_url,
                header_image_url,
                id,
                lyrics_owner_id,
                lyrics_state,
                path,
                pyongs_count,
                song_art_image_thumbnail_url,
                song_art_image_url,
                song_art_primary_color,
                song_art_secondary_color,
                song_art_text_color,
                stats,
                title,
                title_with_featured,
                url,
                primary_artist,
            },
        )
    }
}

impl SongSearch {
    /// Whether the record reads the member of that name.
    pub open spec fn reads(name: Seq<char>) -> bool {
        name == "annotation_count"@
        || name == "api_path"@
        || name == "full_title"@
        || name == "header_image_thumbnail_url"@
        || name == "header_image_url"@
        || name == "id"@
        || name == "lyrics_owner_id"@
        || name == "lyrics_state"@
        || name == "path"@
        || name == "pyongs_count"@
        || name == "song_art_image_thumbnail_url"@
        || name == "song_art_image_url"@
        || name == "song_art_primary_color"@
        || name == "song_art_secondary_color"@
        || name == "song_art_text_color"@
        || name == "stats"@
        || name == "title"@
        || name == "title_with_featured"@
        || name == "url"@
        || name == "primary_artist"@
    }

    /// What an object is read as depends on the members that the record
    /// reads alone: members of other names, wherever they stand, are ignored.
    pub proof fn lemma_other_members_ignored(
        first: Seq<(Seq<char>, JsonModel)>,
        second: Seq<(Seq<char>, JsonModel)>,
    )
        requires
            forall|name: Seq<char>|
                Self::reads(name) ==> member(first, name) == member(second, name),
        ensures
            Self::decoded(JsonModel::Object(first)) == Self::decoded(JsonModel::Object(second)),
    {
        reveal(<SongSearch as Decode>::decoded);
        assert(Self::reads("annotation_count"@));
        assert(Self::reads("api_path"@));
        assert(Self::reads("full_title"@));
        assert(Self::reads("header_image_thumbnail_url"@));
        assert(Self::reads("header_image_url"@));
        assert(Self::reads("id"@));
        assert(Self::reads("lyrics_owner_id"@));
        assert(Self::reads("lyrics_state"@));
        assert(Self::reads("path"@));
        assert(Self::reads("pyongs_count"@));
        assert(Self::reads("song_art_image_thumbnail_url"@));
        assert(Self::reads("song_art_image_url"@));
        assert(Self::reads("song_art_primary_color"@));
        assert(Self::reads("song_art_secondary_color"@));
        assert(Self::reads("song_art_text_color"@));
        assert(Self::reads("stats"@));
        assert(Self::reads("title"@));
        assert(Self::reads("title_with_featured"@));
        assert(Self::reads("url"@));
        assert(Self::reads("primary_artist"@));
    }
}

/// Counts of what was contributed to a song, as a search result gives them.
#[derive(Debug, PartialEq)]
pub struct SongStatus {
    pub unreviewed_annotations: u32,
    pub hot: bool,
    pub pageviews: u32,
}

/// The model of a [`SongStatus`].
pub struct SongStatusModel {
    pub unreviewed_annotations: u32,
    pub hot: bool,
    pub pageviews: u32,
}

impl DeepView for SongStatus {
    type V = SongStatusModel;

    open spec fn deep_view(&self) -> SongStatusModel {
        SongStatusModel {
            unreviewed_annotations: self.unreviewed_annotations.deep_view(),
            hot: self.hot.deep_view(),
            pageviews: self.pageviews.deep_view(),
        }
    }
}

impl Decode for SongStatus {
    #[verifier::opaque]
    open spec fn decoded(j: JsonModel) -> Result<SongStatusModel, SchemaFault> {
        let unreviewed_annotations = field::<u32>(j, "unreviewed_annotations"@);
        let hot = field::<bool>(j, "hot"@);
        let pageviews = field::<u32>(j, "pageviews"@);
        if !(j is Object) {
            Err(fault(SchemaErrorKind::WrongType))
        } else if unreviewed_annotations is Err {
            Err(unreviewed_annotations->Err_0)
        } else if hot is Err {
            Err(hot->Err_0)
        } else if pageviews is Err {
            Err(pageviews->Err_0)
        } else {
            Ok(
                SongStatusModel {
                    unreviewed_annotations: unreviewed_annotations->Ok_0,
                    hot: hot->Ok_0,
                    pageviews: pageviews->Ok_0,
                },
            )
        }
    }

    fn from_json(j: &Json) -> (r: Result<SongStatus, SchemaError>) {
        reveal(<SongStatus as Decode>::decoded);
        if !j.is_object() {
            return Err(SchemaError::at_root(SchemaErrorKind::WrongType));
        }
        let unreviewed_annotations = match read_field::<u32>(j, "unreviewed_annotations") {
            Ok(value) => value,
            Err(e) => return Err(e),
        };
        let hot = match read_field::<bool>(j, "hot") {
            Ok(value) => value,
            Err(e) => return Err(e),
        };
        let pageviews = match read_field::<u32>(j, "pageviews") {
            Ok(value) => value,
            Err(e) => return Err(e),
        };
        Ok(SongStatus { unreviewed_annotations, hot, pageviews })
    }
}

impl SongStatus {
    /// Whether the record reads the member of that name.
    pub open spec fn reads(name: Seq<char>) -> bool {
        name == "unreviewed_annotations"@
        || name == "hot"@
        || name == "pageviews"@
    }

    /// What an object is read as depends on the members that the record
    /// reads alone: members of other names, wherever they stand, are ignored.
    pub proof fn lemma_other_members_ignored(
        first: Seq<(Seq<char>, JsonModel)>,
        second: Seq<(Seq<char>, JsonModel)>,
    )
        requires
            forall|name: Seq<char>|
                Self::reads(name) ==> member(first, name) == member(second, name),
        ensures
            Self::decoded(JsonModel::Object(first)) == Self::decoded(JsonModel::Object(second)),
    {
        reveal(<SongStatus as Decode>::decoded);
        assert(Self::reads("unreviewed_annotations"@));
        assert(Self::reads("hot"@));
        assert(Self::reads("pageviews"@));
    }
}

/// An artist as a search result describes them.
#[derive(Debug, PartialEq)]
pub struct Artist {
    pub api_path: String,
    pub header_image_url: String,
    pub id: u32,
    pub image_url: String,
    pub is_meme_verified: bool,
    pub is_verified: bool,
    pub name: String,
    pub url: String,
    pub iq: Option<u32>,
}

/// The model of an [`Artist`].
pub struct ArtistModel {
    pub api_path: Seq<char>,
    pub header_image_url: Seq<char>,
    pub id: u32,
    pub image_url: Seq<char>,
    pub is_meme_verified: bool,
    pub is_verified: bool,
    pub name: Seq<char>,
    pub url: Seq<char>,
    pub iq: Option<u32>,
}

impl DeepView for Artist {
    type V = ArtistModel;

    open spec fn deep_view(&self) -> ArtistModel {
        ArtistModel {
            api_path: self.api_path.deep_view(),
            header_image_url: self.header_image_url.deep_view(),
            id: self.id.deep_view(),
            image_url: self.image_url.deep_view(),
            is_meme_verified: self.is_meme_verified.deep_view(),
            is_verified: self.is_verified.deep_view(),
            name: self.name.deep_view(),
            url: self.url.deep_view(),
            iq: optional_model(self.iq),
        }
    }
}

impl Decode for Artist {
    #[verifier::opaque]
    open spec fn decoded(j: JsonModel) -> Result<ArtistModel, SchemaFault> {
        let api_path = field::<String>(j, "api_path"@);
        let header_image_url = field::<String>(j, "header_image_url"@);
        let id = field::<u32>(j, "id"@);
        let image_url = field::<String>(j, "image_url"@);
        let is_meme_verified = field::<bool>(j, "is_meme_verified"@);
        let is_verified = field::<bool>(j, "is_verified"@);
        let name = field::<String>(j, "name"@);
        let url = field::<String>(j, "url"@);
        let iq = optional_field::<u32>(j, "iq"@);
        if !(j is Object) {
            Err(fault(SchemaErrorKind::WrongType))
        } else if api_path is Err {
            Err(api_path->Err_0)
        } else if header_image_url is Err {
            Err(header_image_url->Err_0)
        } else if id is Err {
            Err(id->Err_0)
        } else if image_url is Err {
            Err(image_url->Err_0)
        } else if is_meme_verified is Err {
            Err(is_meme_verified->Err_0)
        } else if is_verified is Err {
            Err(is_verified->Err_0)
        } else if name is Err {
            Err(name->Err_0)
        } else if url is Err {
            Err(url->Err_0)
        } else if iq is Err {
            Err(iq->Err_0)
        } else {
            Ok(
                ArtistModel {
                    api_path: api_path->Ok_0,
                    header_image_url: header_image_url->Ok_0,
                    id: id->Ok_0,
                    image_url: image_url->Ok_0,
                    is_meme_verified: is_meme_verified->Ok_0,
                    is_verified: is_verified->Ok_0,
                    name: name->Ok_0,
                    url: url->Ok_0,
                    iq: iq->Ok_0,
                },
            )
        }
    }

    fn from_json(j: &Json) -> (r: Result<Artist, SchemaError>) {
        reveal(<Artist as Decode>::decoded);
        if !j.is_object() {
            return Err(SchemaError::at_root(SchemaErrorKind::WrongType));
        }
        let api_path = match read_field::<String>(j, "api_path") {
            Ok(value) => value,
            Err(e) => return Err(e),
        };
        let header_image_url = match read_field::<String>(j, "header_image_url") {
            Ok(value) => value,
            Err(e) => return Err(e),
        };
        let id = match read_field::<u32>(j, "id") {
            Ok(value) => value,
            Err(e) => return Err(e),
        };
        let image_url = match read_field::<String>(j, "image_url") {
            Ok(value) => value,
            Err(e) => return Err(e),
        };
        let is_meme_verified = match read_field::<bool>(j, "is_meme_verified") {
            Ok(value) => value,
            Err(e) => return Err(e),
        };
        let is_verified = match read_field::<bool>(j, "is_verified") {
            Ok(value) => value,
            Err(e) => return Err(e),
        };
        let name = match read_field::<String>(j, "name") {
            Ok(value) => value,
            Err(e) => return Err(e),
        };
        let url = match read_field::<String>(j, "url") {
            Ok(value) => value,
            Err(e) => return Err(e),
        };
        let iq = match read_optional_field::<u32>(j, "iq") {
            Ok(value) => value,
            Err(e) => return Err(e),
        };
        Ok(
            Artist {
                api_path,
                header_image_url,
                id,
                image_url,
                is_meme_verified,
                is_verified,
                name,
                url,
                iq,
            },
        )
    }
}

impl Artist {
    /// Whether the record reads the member of that name.
    pub open spec fn reads(name: Seq<char>) -> bool {
        name == "api_path"@
        || name == "header_image_url"@
        || name == "id"@
        || name == "image_url"@
        || name == "is_meme_verified"@
        || name == "is_verified"@
        || name == "name"@
        || name == "url"@
        || name == "iq"@
    }

    /// What an object is read as depends on the members that the record
    /// reads alone: members of other names, wherever they stand, are ignored.
    pub proof fn lemma_other_members_ignored(
        first: Seq<(Seq<char>, JsonModel)>,
        second: Seq<(Seq<char>, JsonModel)>,
    )
        requires
            forall|name: Seq<char>|
                Self::reads(name) ==> member(first, name) == member(second, name),
        ensures
            Self::decoded(JsonModel::Object(first)) == Self::decoded(JsonModel::Object(second)),
    {
        reveal(<Artist as Decode>::decoded);
        assert(Self::reads("api_path"@));
        assert(Self::reads("header_image_url"@));
        assert(Self::reads("id"@));
        assert(Self::reads("image_url"@));
        assert(Self::reads("is_meme_verified"@));
        assert(Self::reads("is_verified"@));
        assert(Self::reads("name"@));
        assert(Self::reads("url"@));
        assert(Self::reads("iq"@));
    }
}

/// A rich text: one payload for each format that the service was asked for
/// (`plain`, `html`, `dom`, `markdown`), in the order received. The library
/// does not look into the payloads.
#[derive(Debug, PartialEq)]
pub struct Body {
    pub formats: Vec<(String, Json)>,
}

/// The model of a [`Body`].
pub struct BodyModel {
    pub formats: Seq<(Seq<char>, JsonModel)>,
}

impl DeepView for Body {
    type V = BodyModel;

    open spec fn deep_view(&self) -> BodyModel {
        BodyModel { formats: members_model(self.formats@) }
    }
}

impl Decode for Body {
    /// Any object is a rich text; its members are the payloads by format.
    open spec fn decoded(j: JsonModel) -> Result<BodyModel, SchemaFault> {
        match j {
            JsonModel::Object(formats) => Ok(BodyModel { formats }),
            _ => Err(fault(SchemaErrorKind::WrongType)),
        }
    }

    fn from_json(j: &Json) -> (r: Result<Body, SchemaError>) {
        match j.duplicate() {
            Json::Object(formats) => {
                assert(j@->Object_0 =~= members_model(formats@));
                Ok(Body { formats })
            },
            _ => Err(SchemaError::at_root(SchemaErrorKind::WrongType)),
        }
    }
}

impl Encode for Body {
    open spec fn encoded(m: BodyModel) -> JsonModel {
        JsonModel::Object(m.formats)
    }

    fn to_json(&self) -> (j: Json) {
        Json::object_of(&self.formats)
    }

    proof fn lemma_round_trip(m: BodyModel) {
    }
}

/// A calendar date in parts, any of which may be unknown.
#[derive(Debug, PartialEq)]
pub struct Date {
    pub year: Option<u32>,
    pub month: Option<u32>,
    pub day: Option<u32>,
}

/// The model of a [`Date`].
pub struct DateModel {
    pub year: Option<u32>,
    pub month: Option<u32>,
    pub day: Option<u32>,
}

impl DeepView for Date {
    type V = DateModel;

    open spec fn deep_view(&self) -> DateModel {
        DateModel {
            year: optional_model(self.year),
            month: optional_model(self.month),
            day: optional_model(self.day),
        }
    }
}

impl Decode for Date {
    #[verifier::opaque]
    open spec fn decoded(j: JsonModel) -> Result<DateModel, SchemaFault> {
        let year = optional_field::<u32>(j, "year"@);
        let month = optional_field::<u32>(j, "month"@);
        let day = optional_field::<u32>(j, "day"@);
        if !(j is Object) {
            Err(fault(SchemaErrorKind::WrongType))
        } else if year is Err {
            Err(year->Err_0)
        } else if month is Err {
            Err(month->Err_0)
        } else if day is Err {
            Err(day->Err_0)
        } else {
            Ok(
                DateModel {
                    year: year->Ok_0,
                    month: month->Ok_0,
                    day: day->Ok_0,
                },
            )
        }
    }

    fn from_json(j: &Json) -> (r: Result<Date, SchemaError>) {
        reveal(<Date as Decode>::decoded);
        if !j.is_object() {
            return Err(SchemaError::at_root(SchemaErrorKind::WrongType));
        }
        let year = match read_optional_field::<u32>(j, "year") {
            Ok(value) => value,
            Err(e) => return Err(e),
        };
        let month = match read_optional_field::<u32>(j, "month") {
            Ok(value) => value,
            Err(e) => return Err(e),
        };
        let day = match read_optional_field::<u32>(j, "day") {
            Ok(value) => value,
            Err(e) => return Err(e),
        };
        Ok(Date { year, month, day })
    }
}

impl Date {
    /// Whether the record reads the member of that name.
    pub open spec fn reads(name: Seq<char>) -> bool {
        name == "year"@
        || name == "month"@
        || name == "day"@
    }

    /// What an object is read as depends on the members that the record
    /// reads alone: members of other names, wherever they stand, are ignored.
    pub proof fn lemma_other_members_ignored(
        first: Seq<(Seq<char>, JsonModel)>,
        second: Seq<(Seq<char>, JsonModel)>,
    )
        requires
            forall|name: Seq<char>|
                Self::reads(name) ==> member(first, name) == member(second, name),
        ensures
            Self::decoded(JsonModel::Object(first)) == Self::decoded(JsonModel::Object(second)),
    {
        reveal(<Date as Decode>::decoded);
        assert(Self::reads("year"@));
        assert(Self::reads("month"@));
        assert(Self::reads("day"@));
    }
}

impl Encode for Date {
    open spec fn encoded(m: DateModel) -> JsonModel {
        let members = Seq::empty();
        let members = with_optional_field::<u32>(members, "year"@, m.year);
        let members = with_optional_field::<u32>(members, "month"@, m.month);
        let members = with_optional_field::<u32>(members, "day"@, m.day);
        JsonModel::Object(members)
    }

    fn to_json(&self) -> (j: Json) {
        let mut members: Vec<(String, Json)> = Vec::new();
        assert(members_model(members@) == Seq::<(Seq<char>, JsonModel)>::empty());
        write_optional_field::<u32>(&mut members, "year", &self.year);
        write_optional_field::<u32>(&mut members, "month", &self.month);
        write_optional_field::<u32>(&mut members, "day", &self.day);
        Json::object(members)
    }

    proof fn lemma_round_trip(m: DateModel) {
        broadcast use {
            lemma_member_none,
            lemma_member_with_field,
            lemma_member_with_optional_field,
            lemma_or_else_none,
            lemma_required_reads_back,
            lemma_optional_reads_back,
        };

        reveal(<Date as Decode>::decoded);
        reveal_strlit("year");
        reveal_strlit("month");
        reveal_strlit("day");
        lemma_outline("year"@);
        lemma_outline("month"@);
        lemma_outline("day"@);
    }
}

} // verus!
