//! Songs and what belongs to them.

use crate::{Body, BodyModel, Date, DateModel};
use crate::album::{Album, AlbumModel};
use crate::annotation::{Referent, ReferentModel};
use crate::json::{
    items_model, lemma_member_decreases, lemma_member_none, lemma_member_push, lemma_outline,
    member, members_model, Json, JsonModel,
};
use crate::plain::{
    collected, lemma_collected_all, lemma_collected_each, lemma_collected_next, lemma_fault_stays,
};
use crate::schema::{
    fault, field, lemma_member_with_field, lemma_member_with_optional_field,
    lemma_member_with_present, lemma_optional_reads_back, lemma_or_else_none,
    lemma_required_reads_back, optional_field, optional_model, outcome, read_field,
    read_optional_field, under, with_field, with_optional_field, with_present, write_field,
    write_optional_field, Decode, Encode, PathStep, SchemaError, SchemaErrorKind, SchemaFault,
    StepModel,
};
use crate::user::{User, UserMetadata, UserMetadataModel, UserModel};
use vstd::prelude::*;

verus! {

/// A song, as fully as the response describes it.
#[derive(Debug, PartialEq)]
pub struct Song {
    /// Number of annotations on this song.
    pub annotation_count: u32,
    /// Path of the API.
    pub api_path: String,
    /// Id of the song in apple music.
    /// Sent only when a single song is fetched.
    pub apple_music_id: Option<String>,
    /// URL of the song in apple music.
    /// Sent only when a single song is fetched.
    pub apple_music_player_url: Option<String>,
    /// Number of comments on this song.
    /// Sent only when a single song is fetched with a `user-core` level token.
    pub comment_count: Option<u32>,
    /// Custom header image.
    /// Sent only when a single song is fetched with a `user-core` level token.
    pub custom_header_image_url: Option<String>,
    /// Custom song art image.
    /// Sent only when a single song is fetched with a `user-core` level token.
    pub custom_song_art_image_url: Option<String>,
    /// Description of the music.
    /// Sent only when a single song is fetched.
    pub description: Option<Body>,
    /// Preview of the description.
    /// Sent only when a single song is fetched with a `user-core` level token.
    pub description_preview: Option<String>,
    /// HTML to embed the content in a web page.
    /// Sent only when a single song is fetched.
    pub embed_content: Option<String>,
    /// Facebook share message without url.
    /// Sent only when a single song is fetched with a `user-core` level token.
    pub facebook_share_message_without_url: Option<String>,
    /// Whether a video is linked with the song.
    /// Sent only when a single song is fetched.
    pub featured_video: Option<bool>,
    /// Full song title is: "`name` by `author`".
    pub full_title: String,
    /// Whether the song has Instagram reel annotations.
    /// Sent only when a single song is fetched with a `user-core` level token.
    pub has_instagram_reel_annotations: Option<bool>,
    /// Header image with a smaller size.
    pub header_image_thumbnail_url: String,
    /// Header image.
    pub header_image_url: String,
    /// Whether the song is hidden.
    /// Sent only when a single song is fetched with a `user-core` level token.
    pub hidden: Option<bool>,
    /// Id of the song.
    pub id: u32,
    /// Whether the song is instrumental.
    /// Sent only when a single song is fetched with a `user-core` level token.
    pub instrumental: Option<bool>,
    /// Whether the song is music.
    /// Sent only when a single song is fetched with a `user-core` level token.
    pub is_music: Option<bool>,
    /// The lyrics.
    /// Sent only when a single song is fetched with a `user-core` level token.
    pub lyrics: Option<Body>,
    /// Id of the user who requested the lyrics.
    pub lyrics_owner_id: u32,
    /// Lyrics state.
    pub lyrics_state: String,
    /// When the lyrics were last updated, as a timestamp.
    /// Sent only when a single song is fetched with a `user-core` level token.
    pub lyrics_updated_at: Option<u64>,
    /// Path of the song page on genius.com.
    pub path: String,
    /// Pending lyrics edits count.
    /// Sent only when a single song is fetched with a `user-core` level token.
    pub pending_lyrics_edits_count: Option<u32>,
    /// Whether the song is published.
    /// Sent only when a single song is fetched with a `user-core` level token.
    pub published: Option<bool>,
    /// Sent only when a single song is fetched with a `user-core` level token.
    pub pusher_channel: Option<String>,
    /// Release date in parts.
    /// Sent only when a single song is fetched with a `user-core` level token.
    pub release_date_components: Option<Date>,
    /// Number of pyongs in this song.
    pub pyongs_count: Option<u32>,
    /// The location of the recording.
    /// Sent only when a single song is fetched.
    pub recording_location: Option<String>,
    /// Release date of this song in ISO 8601 date format.
    /// Sent only when a single song is fetched.
    pub release_date: Option<String>,
    /// Release date in `{Month name} {day}, {year}` format.
    /// Sent only when a single song is fetched.
    pub release_date_for_display: Option<String>,
    /// Share url.
    /// Sent only when a single song is fetched with a `user-core` level token.
    pub share_url: Option<String>,
    /// Song art image with a smaller size.
    pub song_art_image_thumbnail_url: String,
    /// Song art image.
    pub song_art_image_url: String,
    /// Soundcloud url.
    /// Sent only when a single song is fetched with a `user-core` level token.
    pub soundcloud_url: Option<String>,
    /// Spotify uuid.
    /// Sent only when a single song is fetched with a `user-core` level token.
    pub spotify_uuid: Option<String>,
    /// Information about contribution and views.
    pub stats: SongStatus,
    /// Title of the song.
    pub title: String,
    /// Title but with the featured artist if it exists.
    pub title_with_featured: String,
    /// Sent only when a single song is fetched with a `user-core` level token.
    pub tracking_paths: Option<TrackingPaths>,
    /// Twitter share message.
    /// Sent only when a single song is fetched with a `user-core` level token.
    pub twitter_share_message: Option<String>,
    /// Twitter share message without url.
    /// Sent only when a single song is fetched with a `user-core` level token.
    pub twitter_share_message_without_url: Option<String>,
    /// When a human last updated the song, as a timestamp.
    /// Sent only when a single song is fetched with a `user-core` level token.
    pub updated_by_human_at: Option<u64>,
    /// Url of the song page.
    pub url: String,
    /// Sent only when a single song is fetched with a `user-core` level token.
    pub viewable_by_roles: Option<Vec<String>>,
    /// Youtube start.
    /// Sent only when a single song is fetched with a `user-core` level token.
    pub youtube_start: Option<String>,
    /// Youtube url.
    /// Sent only when a single song is fetched with a `user-core` level token.
    pub youtube_url: Option<String>,
    /// User permissions and interactions.
    /// Sent only when a single song is fetched.
    pub current_user_metadata: Option<UserMetadata>,
    /// Author of the song.
    pub primary_artist: Artist,
    /// Album of the song.
    /// Sent only when a single song is fetched.
    pub album: Option<Album>,
    /// Every album that the song appears on.
    /// Sent only when a single song is fetched with a `user-core` level token.
    pub albums: Option<Vec<Album>>,
    /// The credits of the song other than the standard ones.
    /// Sent only when a single song is fetched.
    pub custom_performances: Option<Vec<SongPerformance>>,
    /// Description annotation.
    /// Sent only when a single song is fetched.
    pub description_annotation: Option<Referent>,
    /// Artists who featured in the song.
    /// Sent only when a single song is fetched.
    pub featured_artists: Option<Vec<Artist>>,
    /// Music platforms that host this song and its url.
    /// Sent only when a single song is fetched.
    pub media: Option<Vec<SongMedia>>,
    /// Artists who produced this song.
    /// Sent only when a single song is fetched.
    pub producer_artists: Option<Vec<Artist>>,
    /// Songs that this song stands in a relationship with.
    /// Sent only when a single song is fetched.
    pub song_relationships: Option<Vec<SongRelationship>>,
    /// All Verified Annotation contributors.
    /// Sent only when a single song is fetched.
    pub verified_annotations_by: Option<Vec<User>>,
    /// All verified contributors.
    /// Sent only when a single song is fetched.
    pub verified_contributors: Option<Vec<SongContributor>>,
    /// All Verified lyrics contributors.
    /// Sent only when a single song is fetched.
    pub verified_lyrics_by: Option<Vec<User>>,
    /// The artists who wrote the song.
    /// Sent only when a single song is fetched.
    pub writer_artists: Option<Vec<Artist>>,
}

/// The model of a [`Song`].
pub struct SongModel {
    pub annotation_count: u32,
    pub api_path: Seq<char>,
    pub apple_music_id: Option<Seq<char>>,
    pub apple_music_player_url: Option<Seq<char>>,
    pub comment_count: Option<u32>,
    pub custom_header_image_url: Option<Seq<char>>,
    pub custom_song_art_image_url: Option<Seq<char>>,
    pub description: Option<BodyModel>,
    pub description_preview: Option<Seq<char>>,
    pub embed_content: Option<Seq<char>>,
    pub facebook_share_message_without_url: Option<Seq<char>>,
    pub featured_video: Option<bool>,
    pub full_title: Seq<char>,
    pub has_instagram_reel_annotations: Option<bool>,
    pub header_image_thumbnail_url: Seq<char>,
    pub header_image_url: Seq<char>,
    pub hidden: Option<bool>,
    pub id: u32,
    pub instrumental: Option<bool>,
    pub is_music: Option<bool>,
    pub lyrics: Option<BodyModel>,
    pub lyrics_owner_id: u32,
    pub lyrics_state: Seq<char>,
    pub lyrics_updated_at: Option<u64>,
    pub path: Seq<char>,
    pub pending_lyrics_edits_count: Option<u32>,
    pub published: Option<bool>,
    pub pusher_channel: Option<Seq<char>>,
    pub release_date_components: Option<DateModel>,
    pub pyongs_count: Option<u32>,
    pub recording_location: Option<Seq<char>>,
    pub release_date: Option<Seq<char>>,
    pub release_date_for_display: Option<Seq<char>>,
    pub share_url: Option<Seq<char>>,
    pub song_art_image_thumbnail_url: Seq<char>,
    pub song_art_image_url: Seq<char>,
    pub soundcloud_url: Option<Seq<char>>,
    pub spotify_uuid: Option<Seq<char>>,
    pub stats: SongStatusModel,
    pub title: Seq<char>,
    pub title_with_featured: Seq<char>,
    pub tracking_paths: Option<TrackingPathsModel>,
    pub twitter_share_message: Option<Seq<char>>,
    pub twitter_share_message_without_url: Option<Seq<char>>,
    pub updated_by_human_at: Option<u64>,
    pub url: Seq<char>,
    pub viewable_by_roles: Option<Seq<Seq<char>>>,
    pub youtube_start: Option<Seq<char>>,
    pub youtube_url: Option<Seq<char>>,
    pub current_user_metadata: Option<UserMetadataModel>,
    pub primary_artist: ArtistModel,
    pub album: Option<AlbumModel>,
    pub albums: Option<Seq<AlbumModel>>,
    pub custom_performances: Option<Seq<SongPerformanceModel>>,
    pub description_annotation: Option<ReferentModel>,
    pub featured_artists: Option<Seq<ArtistModel>>,
    pub media: Option<Seq<SongMediaModel>>,
    pub producer_artists: Option<Seq<ArtistModel>>,
    pub song_relationships: Option<Seq<SongRelationshipModel>>,
    pub verified_annotations_by: Option<Seq<UserModel>>,
    pub verified_contributors: Option<Seq<SongContributorModel>>,
    pub verified_lyrics_by: Option<Seq<UserModel>>,
    pub writer_artists: Option<Seq<ArtistModel>>,
}

/// The model of a song, member by member.
pub open spec fn song_model(song: Song) -> SongModel
    decreases song, 1int,
{
    SongModel {
        annotation_count: song.annotation_count.deep_view(),
        api_path: song.api_path.deep_view(),
        apple_music_id: optional_model(song.apple_music_id),
        apple_music_player_url: optional_model(song.apple_music_player_url),
        comment_count: optional_model(song.comment_count),
        custom_header_image_url: optional_model(song.custom_header_image_url),
        custom_song_art_image_url: optional_model(song.custom_song_art_image_url),
        description: optional_model(song.description),
        description_preview: optional_model(song.description_preview),
        embed_content: optional_model(song.embed_content),
        facebook_share_message_without_url: optional_model(song.facebook_share_message_without_url),
        featured_video: optional_model(song.featured_video),
        full_title: song.full_title.deep_view(),
        has_instagram_reel_annotations: optional_model(song.has_instagram_reel_annotations),
        header_image_thumbnail_url: song.header_image_thumbnail_url.deep_view(),
        header_image_url: song.header_image_url.deep_view(),
        hidden: optional_model(song.hidden),
        id: song.id.deep_view(),
        instrumental: optional_model(song.instrumental),
        is_music: optional_model(song.is_music),
        lyrics: optional_model(song.lyrics),
        lyrics_owner_id: song.lyrics_owner_id.deep_view(),
        lyrics_state: song.lyrics_state.deep_view(),
        lyrics_updated_at: optional_model(song.lyrics_updated_at),
        path: song.path.deep_view(),
        pending_lyrics_edits_count: optional_model(song.pending_lyrics_edits_count),
        published: optional_model(song.published),
        pusher_channel: optional_model(song.pusher_channel),
        release_date_components: optional_model(song.release_date_components),
        pyongs_count: optional_model(song.pyongs_count),
        recording_location: optional_model(song.recording_location),
        release_date: optional_model(song.release_date),
        release_date_for_display: optional_model(song.release_date_for_display),
        share_url: optional_model(song.share_url),
        song_art_image_thumbnail_url: song.song_art_image_thumbnail_url.deep_view(),
        song_art_image_url: song.song_art_image_url.deep_view(),
        soundcloud_url: optional_model(song.soundcloud_url),
        spotify_uuid: optional_model(song.spotify_uuid),
        stats: song.stats.deep_view(),
        title: song.title.deep_view(),
        title_with_featured: song.title_with_featured.deep_view(),
        tracking_paths: optional_model(song.tracking_paths),
        twitter_share_message: optional_model(song.twitter_share_message),
        twitter_share_message_without_url: optional_model(song.twitter_share_message_without_url),
        updated_by_human_at: optional_model(song.updated_by_human_at),
        url: song.url.deep_view(),
        viewable_by_roles: optional_model(song.viewable_by_roles),
        youtube_start: optional_model(song.youtube_start),
        youtube_url: optional_model(song.youtube_url),
        current_user_metadata: optional_model(song.current_user_metadata),
        primary_artist: song.primary_artist.deep_view(),
        album: optional_model(song.album),
        albums: optional_model(song.albums),
        custom_performances: optional_model(song.custom_performances),
        description_annotation: optional_model(song.description_annotation),
        featured_artists: optional_model(song.featured_artists),
        media: optional_model(song.media),
        producer_artists: optional_model(song.producer_artists),
        song_relationships: relationships_model(song.song_relationships),
        verified_annotations_by: optional_model(song.verified_annotations_by),
        verified_contributors: optional_model(song.verified_contributors),
        verified_lyrics_by: optional_model(song.verified_lyrics_by),
        writer_artists: optional_model(song.writer_artists),
    }
}

impl DeepView for Song {
    type V = SongModel;

    open spec fn deep_view(&self) -> SongModel {
        song_model(*self)
    }
}

/// What a JSON value is read as, where a song is asked for.
pub open spec fn song_decoded(j: JsonModel) -> Result<SongModel, SchemaFault>
    decreases j, 1int,
{
    let annotation_count = field::<u32>(j, "annotation_count"@);
    let api_path = field::<String>(j, "api_path"@);
    let apple_music_id = optional_field::<String>(j, "apple_music_id"@);
    let apple_music_player_url = optional_field::<String>(j, "apple_music_player_url"@);
    let comment_count = optional_field::<u32>(j, "comment_count"@);
    let custom_header_image_url = optional_field::<String>(j, "custom_header_image_url"@);
    let custom_song_art_image_url = optional_field::<String>(j, "custom_song_art_image_url"@);
    let description = optional_field::<Body>(j, "description"@);
    let description_preview = optional_field::<String>(j, "description_preview"@);
    let embed_content = optional_field::<String>(j, "embed_content"@);
    let facebook_share_message_without_url = optional_field::<String>(
        j,
        "facebook_share_message_without_url"@,
    );
    let featured_video = optional_field::<bool>(j, "featured_video"@);
    let full_title = field::<String>(j, "full_title"@);
    let has_instagram_reel_annotations = optional_field::<bool>(
        j,
        "has_instagram_reel_annotations"@,
    );
    let header_image_thumbnail_url = field::<String>(j, "header_image_thumbnail_url"@);
    let header_image_url = field::<String>(j, "header_image_url"@);
    let hidden = optional_field::<bool>(j, "hidden"@);
    let id = field::<u32>(j, "id"@);
    let instrumental = optional_field::<bool>(j, "instrumental"@);
    let is_music = optional_field::<bool>(j, "is_music"@);
    let lyrics = optional_field::<Body>(j, "lyrics"@);
    let lyrics_owner_id = field::<u32>(j, "lyrics_owner_id"@);
    let lyrics_state = field::<String>(j, "lyrics_state"@);
    let lyrics_updated_at = optional_field::<u64>(j, "lyrics_updated_at"@);
    let path = field::<String>(j, "path"@);
    let pending_lyrics_edits_count = optional_field::<u32>(j, "pending_lyrics_edits_count"@);
    let published = optional_field::<bool>(j, "published"@);
    let pusher_channel = optional_field::<String>(j, "pusher_channel"@);
    let release_date_components = optional_field::<Date>(j, "release_date_components"@);
    let pyongs_count = optional_field::<u32>(j, "pyongs_count"@);
    let recording_location = optional_field::<String>(j, "recording_location"@);
    let release_date = optional_field::<String>(j, "release_date"@);
    let release_date_for_display = optional_field::<String>(j, "release_date_for_display"@);
    let share_url = optional_field::<String>(j, "share_url"@);
    let song_art_image_thumbnail_url = field::<String>(j, "song_art_image_thumbnail_url"@);
    let song_art_image_url = field::<String>(j, "song_art_image_url"@);
    let soundcloud_url = optional_field::<String>(j, "soundcloud_url"@);
    let spotify_uuid = optional_field::<String>(j, "spotify_uuid"@);
    let stats = field::<SongStatus>(j, "stats"@);
    let title = field::<String>(j, "title"@);
    let title_with_featured = field::<String>(j, "title_with_featured"@);
    let tracking_paths = optional_field::<TrackingPaths>(j, "tracking_paths"@);
    let twitter_share_message = optional_field::<String>(j, "twitter_share_message"@);
    let twitter_share_message_without_url = optional_field::<String>(
        j,
        "twitter_share_message_without_url"@,
    );
    let updated_by_human_at = optional_field::<u64>(j, "updated_by_human_at"@);
    let url = field::<String>(j, "url"@);
    let viewable_by_roles = optional_field::<Vec<String>>(j, "viewable_by_roles"@);
    let youtube_start = optional_field::<String>(j, "youtube_start"@);
    let youtube_url = optional_field::<String>(j, "youtube_url"@);
    let current_user_metadata = optional_field::<UserMetadata>(j, "current_user_metadata"@);
    let primary_artist = field::<Artist>(j, "primary_artist"@);
    let album = optional_field::<Album>(j, "album"@);
    let albums = optional_field::<Vec<Album>>(j, "albums"@);
    let custom_performances = optional_field::<Vec<SongPerformance>>(j, "custom_performances"@);
    let description_annotation = optional_field::<Referent>(j, "description_annotation"@);
    let featured_artists = optional_field::<Vec<Artist>>(j, "featured_artists"@);
    let media = optional_field::<Vec<SongMedia>>(j, "media"@);
    let producer_artists = optional_field::<Vec<Artist>>(j, "producer_artists"@);
    let song_relationships = relationships_field(j);
    let verified_annotations_by = optional_field::<Vec<User>>(j, "verified_annotations_by"@);
    let verified_contributors = optional_field::<Vec<SongContributor>>(j, "verified_contributors"@);
    let verified_lyrics_by = optional_field::<Vec<User>>(j, "verified_lyrics_by"@);
    let writer_artists = optional_field::<Vec<Artist>>(j, "writer_artists"@);
    if !(j is Object) {
        Err(fault(SchemaErrorKind::WrongType))
    } else if annotation_count is Err {
        Err(annotation_count->Err_0)
    } else if api_path is Err {
        Err(api_path->Err_0)
    } else if apple_music_id is Err {
        Err(apple_music_id->Err_0)
    } else if apple_music_player_url is Err {
        Err(apple_music_player_url->Err_0)
    } else if comment_count is Err {
        Err(comment_count->Err_0)
    } else if custom_header_image_url is Err {
        Err(custom_header_image_url->Err_0)
    } else if custom_song_art_image_url is Err {
        Err(custom_song_art_image_url->Err_0)
    } else if description is Err {
        Err(description->Err_0)
    } else if description_preview is Err {
        Err(description_preview->Err_0)
    } else if embed_content is Err {
        Err(embed_content->Err_0)
    } else if facebook_share_message_without_url is Err {
        Err(facebook_share_message_without_url->Err_0)
    } else if featured_video is Err {
        Err(featured_video->Err_0)
    } else if full_title is Err {
        Err(full_title->Err_0)
    } else if has_instagram_reel_annotations is Err {
        Err(has_instagram_reel_annotations->Err_0)
    } else if header_image_thumbnail_url is Err {
        Err(header_image_thumbnail_url->Err_0)
    } else if header_image_url is Err {
        Err(header_image_url->Err_0)
    } else if hidden is Err {
        Err(hidden->Err_0)
    } else if id is Err {
        Err(id->Err_0)
    } else if instrumental is Err {
        Err(instrumental->Err_0)
    } else if is_music is Err {
        Err(is_music->Err_0)
    } else if lyrics is Err {
        Err(lyrics->Err_0)
    } else if lyrics_owner_id is Err {
        Err(lyrics_owner_id->Err_0)
    } else if lyrics_state is Err {
        Err(lyrics_state->Err_0)
    } else if lyrics_updated_at is Err {
        Err(lyrics_updated_at->Err_0)
    } else if path is Err {
        Err(path->Err_0)
    } else if pending_lyrics_edits_count is Err {
        Err(pending_lyrics_edits_count->Err_0)
    } else if published is Err {
        Err(published->Err_0)
    } else if pusher_channel is Err {
        Err(pusher_channel->Err_0)
    } else if release_date_components is Err {
        Err(release_date_components->Err_0)
    } else if pyongs_count is Err {
        Err(pyongs_count->Err_0)
    } else if recording_location is Err {
        Err(recording_location->Err_0)
    } else if release_date is Err {
        Err(release_date->Err_0)
    } else if release_date_for_display is Err {
        Err(release_date_for_display->Err_0)
    } else if share_url is Err {
        Err(share_url->Err_0)
    } else if song_art_image_thumbnail_url is Err {
        Err(song_art_image_thumbnail_url->Err_0)
    } else if song_art_image_url is Err {
        Err(song_art_image_url->Err_0)
    } else if soundcloud_url is Err {
        Err(soundcloud_url->Err_0)
    } else if spotify_uuid is Err {
        Err(spotify_uuid->Err_0)
    } else if stats is Err {
        Err(stats->Err_0)
    } else if title is Err {
        Err(title->Err_0)
    } else if title_with_featured is Err {
        Err(title_with_featured->Err_0)
    } else if tracking_paths is Err {
        Err(tracking_paths->Err_0)
    } else if twitter_share_message is Err {
        Err(twitter_share_message->Err_0)
    } else if twitter_share_message_without_url is Err {
        Err(twitter_share_message_without_url->Err_0)
    } else if updated_by_human_at is Err {
        Err(updated_by_human_at->Err_0)
    } else if url is Err {
        Err(url->Err_0)
    } else if viewable_by_roles is Err {
        Err(viewable_by_roles->Err_0)
    } else if youtube_start is Err {
        Err(youtube_start->Err_0)
    } else if youtube_url is Err {
        Err(youtube_url->Err_0)
    } else if current_user_metadata is Err {
        Err(current_user_metadata->Err_0)
    } else if primary_artist is Err {
        Err(primary_artist->Err_0)
    } else if album is Err {
        Err(album->Err_0)
    } else if albums is Err {
        Err(albums->Err_0)
    } else if custom_performances is Err {
        Err(custom_performances->Err_0)
    } else if description_annotation is Err {
        Err(description_annotation->Err_0)
    } else if featured_artists is Err {
        Err(featured_artists->Err_0)
    } else if media is Err {
        Err(media->Err_0)
    } else if producer_artists is Err {
        Err(producer_artists->Err_0)
    } else if song_relationships is Err {
        Err(song_relationships->Err_0)
    } else if verified_annotations_by is Err {
        Err(verified_annotations_by->Err_0)
    } else if verified_contributors is Err {
        Err(verified_contributors->Err_0)
    } else if verified_lyrics_by is Err {
        Err(verified_lyrics_by->Err_0)
    } else if writer_artists is Err {
        Err(writer_artists->Err_0)
    } else {
        Ok(
            SongModel {
                annotation_count: annotation_count->Ok_0,
                api_path: api_path->Ok_0,
                apple_music_id: apple_music_id->Ok_0,
                apple_music_player_url: apple_music_player_url->Ok_0,
                comment_count: comment_count->Ok_0,
                custom_header_image_url: custom_header_image_url->Ok_0,
                custom_song_art_image_url: custom_song_art_image_url->Ok_0,
                description: description->Ok_0,
                description_preview: description_preview->Ok_0,
                embed_content: embed_content->Ok_0,
                facebook_share_message_without_url: facebook_share_message_without_url->Ok_0,
                featured_video: featured_video->Ok_0,
                full_title: full_title->Ok_0,
                has_instagram_reel_annotations: has_instagram_reel_annotations->Ok_0,
                header_image_thumbnail_url: header_image_thumbnail_url->Ok_0,
                header_image_url: header_image_url->Ok_0,
                hidden: hidden->Ok_0,
                id: id->Ok_0,
                instrumental: instrumental->Ok_0,
                is_music: is_music->Ok_0,
                lyrics: lyrics->Ok_0,
                lyrics_owner_id: lyrics_owner_id->Ok_0,
                lyrics_state: lyrics_state->Ok_0,
                lyrics_updated_at: lyrics_updated_at->Ok_0,
                path: path->Ok_0,
                pending_lyrics_edits_count: pending_lyrics_edits_count->Ok_0,
                published: published->Ok_0,
                pusher_channel: pusher_channel->Ok_0,
                release_date_components: release_date_components->Ok_0,
                pyongs_count: pyongs_count->Ok_0,
                recording_location: recording_location->Ok_0,
                release_date: release_date->Ok_0,
                release_date_for_display: release_date_for_display->Ok_0,
                share_url: share_url->Ok_0,
                song_art_image_thumbnail_url: song_art_image_thumbnail_url->Ok_0,
                song_art_image_url: song_art_image_url->Ok_0,
                soundcloud_url: soundcloud_url->Ok_0,
                spotify_uuid: spotify_uuid->Ok_0,
                stats: stats->Ok_0,
                title: title->Ok_0,
                title_with_featured: title_with_featured->Ok_0,
                tracking_paths: tracking_paths->Ok_0,
                twitter_share_message: twitter_share_message->Ok_0,
                twitter_share_message_without_url: twitter_share_message_without_url->Ok_0,
                updated_by_human_at: updated_by_human_at->Ok_0,
                url: url->Ok_0,
                viewable_by_roles: viewable_by_roles->Ok_0,
                youtube_start: youtube_start->Ok_0,
                youtube_url: youtube_url->Ok_0,
                current_user_metadata: current_user_metadata->Ok_0,
                primary_artist: primary_artist->Ok_0,
                album: album->Ok_0,
                albums: albums->Ok_0,
                custom_performances: custom_performances->Ok_0,
                description_annotation: description_annotation->Ok_0,
                featured_artists: featured_artists->Ok_0,
                media: media->Ok_0,
                producer_artists: producer_artists->Ok_0,
                song_relationships: song_relationships->Ok_0,
                verified_annotations_by: verified_annotations_by->Ok_0,
                verified_contributors: verified_contributors->Ok_0,
                verified_lyrics_by: verified_lyrics_by->Ok_0,
                writer_artists: writer_artists->Ok_0,
            },
        )
    }
}

/// Reads a song.
pub fn read_song(j: &Json) -> (r: Result<Song, SchemaError>)
    ensures
        outcome(r) == song_decoded(j@),
    decreases j, 1int,
{
    if !j.is_object() {
        return Err(SchemaError::at_root(SchemaErrorKind::WrongType));
    }
    let annotation_count = match read_field::<u32>(j, "annotation_count") {
        Ok(value) => value,
        Err(e) => return Err(e),
    };
    let api_path = match read_field::<String>(j, "api_path") {
        Ok(value) => value,
        Err(e) => return Err(e),
    };
    let apple_music_id = match read_optional_field::<String>(j, "apple_music_id") {
        Ok(value) => value,
        Err(e) => return Err(e),
    };
    let apple_music_player_url = match read_optional_field::<String>(j, "apple_music_player_url") {
        Ok(value) => value,
        Err(e) => return Err(e),
    };
    let comment_count = match read_optional_field::<u32>(j, "comment_count") {
        Ok(value) => value,
        Err(e) => return Err(e),
    };
    let custom_header_image_url = match read_optional_field::<String>(
        j,
        "custom_header_image_url",
    ) {
        Ok(value) => value,
        Err(e) => return Err(e),
    };
    let custom_song_art_image_url = match read_optional_field::<String>(
        j,
        "custom_song_art_image_url",
    ) {
        Ok(value) => value,
        Err(e) => return Err(e),
    };
    let description = match read_optional_field::<Body>(j, "description") {
        Ok(value) => value,
        Err(e) => return Err(e),
    };
    let description_preview = match read_optional_field::<String>(j, "description_preview") {
        Ok(value) => value,
        Err(e) => return Err(e),
    };
    let embed_content = match read_optional_field::<String>(j, "embed_content") {
        Ok(value) => value,
        Err(e) => return Err(e),
    };
    let facebook_share_message_without_url = match read_optional_field::<String>(
        j,
        "facebook_share_message_without_url",
    ) {
        Ok(value) => value,
        Err(e) => return Err(e),
    };
    let featured_video = match read_optional_field::<bool>(j, "featured_video") {
        Ok(value) => value,
        Err(e) => return Err(e),
    };
    let full_title = match read_field::<String>(j, "full_title") {
        Ok(value) => value,
        Err(e) => return Err(e),
    };
    let has_instagram_reel_annotations = match read_optional_field::<bool>(
        j,
        "has_instagram_reel_annotations",
    ) {
        Ok(value) => value,
        Err(e) => return Err(e),
    };
    let header_image_thumbnail_url = match read_field::<String>(j, "header_image_thumbnail_url") {
        Ok(value) => value,
        Err(e) => return Err(e),
    };
    let header_image_url = match read_field::<String>(j, "header_image_url") {
        Ok(value) => value,
        Err(e) => return Err(e),
    };
    let hidden = match read_optional_field::<bool>(j, "hidden") {
        Ok(value) => value,
        Err(e) => return Err(e),
    };
    let id = match read_field::<u32>(j, "id") {
        Ok(value) => value,
        Err(e) => return Err(e),
    };
    let instrumental = match read_optional_field::<bool>(j, "instrumental") {
        Ok(value) => value,
        Err(e) => return Err(e),
    };
    let is_music = match read_optional_field::<bool>(j, "is_music") {
        Ok(value) => value,
        Err(e) => return Err(e),
    };
    let lyrics = match read_optional_field::<Body>(j, "lyrics") {
        Ok(value) => value,
        Err(e) => return Err(e),
    };
    let lyrics_owner_id = match read_field::<u32>(j, "lyrics_owner_id") {
        Ok(value) => value,
        Err(e) => return Err(e),
    };
    let lyrics_state = match read_field::<String>(j, "lyrics_state") {
        Ok(value) => value,
        Err(e) => return Err(e),
    };
    let lyrics_updated_at = match read_optional_field::<u64>(j, "lyrics_updated_at") {
        Ok(value) => value,
        Err(e) => return Err(e),
    };
    let path = match read_field::<String>(j, "path") {
        Ok(value) => value,
        Err(e) => return Err(e),
    };
    let pending_lyrics_edits_count = match read_optional_field::<u32>(
        j,
        "pending_lyrics_edits_count",
    ) {
        Ok(value) => value,
        Err(e) => return Err(e),
    };
    let published = match read_optional_field::<bool>(j, "published") {
        Ok(value) => value,
        Err(e) => return Err(e),
    };
    let pusher_channel = match read_optional_field::<String>(j, "pusher_channel") {
        Ok(value) => value,
        Err(e) => return Err(e),
    };
    let release_date_components = match read_optional_field::<Date>(j, "release_date_components") {
        Ok(value) => value,
        Err(e) => return Err(e),
    };
    let pyongs_count = match read_optional_field::<u32>(j, "pyongs_count") {
        Ok(value) => value,
        Err(e) => return Err(e),
    };
    let recording_location = match read_optional_field::<String>(j, "recording_location") {
        Ok(value) => value,
        Err(e) => return Err(e),
    };
    let release_date = match read_optional_field::<String>(j, "release_date") {
        Ok(value) => value,
        Err(e) => return Err(e),
    };
    let release_date_for_display = match read_optional_field::<String>(
        j,
        "release_date_for_display",
    ) {
        Ok(value) => value,
        Err(e) => return Err(e),
    };
    let share_url = match read_optional_field::<String>(j, "share_url") {
        Ok(value) => value,
        Err(e) => return Err(e),
    };
    let song_art_image_thumbnail_url = match read_field::<String>(
        j,
        "song_art_image_thumbnail_url",
    ) {
        Ok(value) => value,
        Err(e) => return Err(e),
    };
    let song_art_image_url = match read_field::<String>(j, "song_art_image_url") {
        Ok(value) => value,
        Err(e) => return Err(e),
    };
    let soundcloud_url = match read_optional_field::<String>(j, "soundcloud_url") {
        Ok(value) => value,
        Err(e) => return Err(e),
    };
    let spotify_uuid = match read_optional_field::<String>(j, "spotify_uuid") {
        Ok(value) => value,
        Err(e) => return Err(e),
    };
    let stats = match read_field::<SongStatus>(j, "stats") {
        Ok(value) => value,
        Err(e) => return Err(e),
    };
    let title = match read_field::<String>(j, "title") {
        Ok(value) => value,
        Err(e) => return Err(e),
    };
    let title_with_featured = match read_field::<String>(j, "title_with_featured") {
        Ok(value) => value,
        Err(e) => return Err(e),
    };
    let tracking_paths = match read_optional_field::<TrackingPaths>(j, "tracking_paths") {
        Ok(value) => value,
        Err(e) => return Err(e),
    };
    let twitter_share_message = match read_optional_field::<String>(j, "twitter_share_message") {
        Ok(value) => value,
        Err(e) => return Err(e),
    };
    let twitter_share_message_without_url = match read_optional_field::<String>(
        j,
        "twitter_share_message_without_url",
    ) {
        Ok(value) => value,
        Err(e) => return Err(e),
    };
    let updated_by_human_at = match read_optional_field::<u64>(j, "updated_by_human_at") {
        Ok(value) => value,
        Err(e) => return Err(e),
    };
    let url = match read_field::<String>(j, "url") {
        Ok(value) => value,
        Err(e) => return Err(e),
    };
    let viewable_by_roles = match read_optional_field::<Vec<String>>(j, "viewable_by_roles") {
        Ok(value) => value,
        Err(e) => return Err(e),
    };
    let youtube_start = match read_optional_field::<String>(j, "youtube_start") {
        Ok(value) => value,
        Err(e) => return Err(e),
    };
    let youtube_url = match read_optional_field::<String>(j, "youtube_url") {
        Ok(value) => value,
        Err(e) => return Err(e),
    };
    let current_user_metadata = match read_optional_field::<UserMetadata>(
        j,
        "current_user_metadata",
    ) {
        Ok(value) => value,
        Err(e) => return Err(e),
    };
    let primary_artist = match read_field::<Artist>(j, "primary_artist") {
        Ok(value) => value,
        Err(e) => return Err(e),
    };
    let album = match read_optional_field::<Album>(j, "album") {
        Ok(value) => value,
        Err(e) => return Err(e),
    };
    let albums = match read_optional_field::<Vec<Album>>(j, "albums") {
        Ok(value) => value,
        Err(e) => return Err(e),
    };
    let custom_performances = match read_optional_field::<Vec<SongPerformance>>(
        j,
        "custom_performances",
    ) {
        Ok(value) => value,
        Err(e) => return Err(e),
    };
    let description_annotation = match read_optional_field::<Referent>(
        j,
        "description_annotation",
    ) {
        Ok(value) => value,
        Err(e) => return Err(e),
    };
    let featured_artists = match read_optional_field::<Vec<Artist>>(j, "featured_artists") {
        Ok(value) => value,
        Err(e) => return Err(e),
    };
    let media = match read_optional_field::<Vec<SongMedia>>(j, "media") {
        Ok(value) => value,
        Err(e) => return Err(e),
    };
    let producer_artists = match read_optional_field::<Vec<Artist>>(j, "producer_artists") {
        Ok(value) => value,
        Err(e) => return Err(e),
    };
    let song_relationships = match read_relationships_field(j) {
        Ok(value) => value,
        Err(e) => return Err(e),
    };
    let verified_annotations_by = match read_optional_field::<Vec<User>>(
        j,
        "verified_annotations_by",
    ) {
        Ok(value) => value,
        Err(e) => return Err(e),
    };
    let verified_contributors = match read_optional_field::<Vec<SongContributor>>(
        j,
        "verified_contributors",
    ) {
        Ok(value) => value,
        Err(e) => return Err(e),
    };
    let verified_lyrics_by = match read_optional_field::<Vec<User>>(j, "verified_lyrics_by") {
        Ok(value) => value,
        Err(e) => return Err(e),
    };
    let writer_artists = match read_optional_field::<Vec<Artist>>(j, "writer_artists") {
        Ok(value) => value,
        Err(e) => return Err(e),
    };
    Ok(
        Song {
            annotation_count,
            api_path,
            apple_music_id,
            apple_music_player_url,
            comment_count,
            custom_header_image_url,
            custom_song_art_image_url,
            description,
            description_preview,
            embed_content,
            facebook_share_message_without_url,
            featured_video,
            full_title,
            has_instagram_reel_annotations,
            header_image_thumbnail_url,
            header_image_url,
            hidden,
            id,
            instrumental,
            is_music,
            lyrics,
            lyrics_owner_id,
            lyrics_state,
            lyrics_updated_at,
            path,
            pending_lyrics_edits_count,
            published,
            pusher_channel,
            release_date_components,
            pyongs_count,
            recording_location,
            release_date,
            release_date_for_display,
            share_url,
            song_art_image_thumbnail_url,
            song_art_image_url,
            soundcloud_url,
            spotify_uuid,
            stats,
            title,
            title_with_featured,
            tracking_paths,
            twitter_share_message,
            twitter_share_message_without_url,
            updated_by_human_at,
            url,
            viewable_by_roles,
            youtube_start,
            youtube_url,
            current_user_metadata,
            primary_artist,
            album,
            albums,
            custom_performances,
            description_annotation,
            featured_artists,
            media,
            producer_artists,
            song_relationships,
            verified_annotations_by,
            verified_contributors,
            verified_lyrics_by,
            writer_artists,
        },
    )
}

impl Decode for Song {
    open spec fn decoded(j: JsonModel) -> Result<SongModel, SchemaFault> {
        song_decoded(j)
    }

    fn from_json(j: &Json) -> (r: Result<Song, SchemaError>) {
        read_song(j)
    }
}

impl Song {
    /// Whether the record reads the member of that name.
    pub open spec fn reads(name: Seq<char>) -> bool {
        name == "annotation_count"@
        || name == "api_path"@
        || name == "apple_music_id"@
        || name == "apple_music_player_url"@
        || name == "comment_count"@
        || name == "custom_header_image_url"@
        || name == "custom_song_art_image_url"@
        || name == "description"@
        || name == "description_preview"@
        || name == "embed_content"@
        || name == "facebook_share_message_without_url"@
        || name == "featured_video"@
        || name == "full_title"@
        || name == "has_instagram_reel_annotations"@
        || name == "header_image_thumbnail_url"@
        || name == "header_image_url"@
        || name == "hidden"@
        || name == "id"@
        || name == "instrumental"@
        || name == "is_music"@
        || name == "lyrics"@
        || name == "lyrics_owner_id"@
        || name == "lyrics_state"@
        || name == "lyrics_updated_at"@
        || name == "path"@
        || name == "pending_lyrics_edits_count"@
        || name == "published"@
        || name == "pusher_channel"@
        || name == "release_date_components"@
        || name == "pyongs_count"@
        || name == "recording_location"@
        || name == "release_date"@
        || name == "release_date_for_display"@
        || name == "share_url"@
        || name == "song_art_image_thumbnail_url"@
        || name == "song_art_image_url"@
        || name == "soundcloud_url"@
        || name == "spotify_uuid"@
        || name == "stats"@
        || name == "title"@
        || name == "title_with_featured"@
        || name == "tracking_paths"@
        || name == "twitter_share_message"@
        || name == "twitter_share_message_without_url"@
        || name == "updated_by_human_at"@
        || name == "url"@
        || name == "viewable_by_roles"@
        || name == "youtube_start"@
        || name == "youtube_url"@
        || name == "current_user_metadata"@
        || name == "primary_artist"@
        || name == "album"@
        || name == "albums"@
        || name == "custom_performances"@
        || name == "description_annotation"@
        || name == "featured_artists"@
        || name == "media"@
        || name == "producer_artists"@
        || name == "song_relationships"@
        || name == "verified_annotations_by"@
        || name == "verified_contributors"@
        || name == "verified_lyrics_by"@
        || name == "writer_artists"@
    }

    /// What an object is read as depends on the members that the record
    /// reads alone: members of other names, wherever they stand, are ignored.
    pub proof fn lemma_other_members_ignored(
        first: Seq<(Seq<char>, JsonModel)>,
        second: Seq<(Seq<char>, JsonModel)>,
    )
        requires
            forall|name: Seq<char>|
                Self::reads(name) ==> member(first, name) == member(second, name),
        ensures
            song_decoded(JsonModel::Object(first)) == song_decoded(JsonModel::Object(second)),
    {
        assert(Self::reads("annotation_count"@));
        assert(Self::reads("api_path"@));
        assert(Self::reads("apple_music_id"@));
        assert(Self::reads("apple_music_player_url"@));
        assert(Self::reads("comment_count"@));
        assert(Self::reads("custom_header_image_url"@));
        assert(Self::reads("custom_song_art_image_url"@));
        assert(Self::reads("description"@));
        assert(Self::reads("description_preview"@));
        assert(Self::reads("embed_content"@));
        assert(Self::reads("facebook_share_message_without_url"@));
        assert(Self::reads("featured_video"@));
        assert(Self::reads("full_title"@));
        assert(Self::reads("has_instagram_reel_annotations"@));
        assert(Self::reads("header_image_thumbnail_url"@));
        assert(Self::reads("header_image_url"@));
        assert(Self::reads("hidden"@));
        assert(Self::reads("id"@));
        assert(Self::reads("instrumental"@));
        assert(Self::reads("is_music"@));
        assert(Self::reads("lyrics"@));
        assert(Self::reads("lyrics_owner_id"@));
        assert(Self::reads("lyrics_state"@));
        assert(Self::reads("lyrics_updated_at"@));
        assert(Self::reads("path"@));
        assert(Self::reads("pending_lyrics_edits_count"@));
        assert(Self::reads("published"@));
        assert(Self::reads("pusher_channel"@));
        assert(Self::reads("release_date_components"@));
        assert(Self::reads("pyongs_count"@));
        assert(Self::reads("recording_location"@));
        assert(Self::reads("release_date"@));
        assert(Self::reads("release_date_for_display"@));
        assert(Self::reads("share_url"@));
        assert(Self::reads("song_art_image_thumbnail_url"@));
        assert(Self::reads("song_art_image_url"@));
        assert(Self::reads("soundcloud_url"@));
        assert(Self::reads("spotify_uuid"@));
        assert(Self::reads("stats"@));
        assert(Self::reads("title"@));
        assert(Self::reads("title_with_featured"@));
        assert(Self::reads("tracking_paths"@));
        assert(Self::reads("twitter_share_message"@));
        assert(Self::reads("twitter_share_message_without_url"@));
        assert(Self::reads("updated_by_human_at"@));
        assert(Self::reads("url"@));
        assert(Self::reads("viewable_by_roles"@));
        assert(Self::reads("youtube_start"@));
        assert(Self::reads("youtube_url"@));
        assert(Self::reads("current_user_metadata"@));
        assert(Self::reads("primary_artist"@));
        assert(Self::reads("album"@));
        assert(Self::reads("albums"@));
        assert(Self::reads("custom_performances"@));
        assert(Self::reads("description_annotation"@));
        assert(Self::reads("featured_artists"@));
        assert(Self::reads("media"@));
        assert(Self::reads("producer_artists"@));
        assert(Self::reads("song_relationships"@));
        assert(Self::reads("verified_annotations_by"@));
        assert(Self::reads("verified_contributors"@));
        assert(Self::reads("verified_lyrics_by"@));
        assert(Self::reads("writer_artists"@));
    }
}

/// The JSON value that a song is written as.
pub open spec fn song_encoded(m: SongModel) -> JsonModel
    decreases m, 1int,
{
    let members = Seq::empty();
    let members = with_field::<u32>(members, "annotation_count"@, m.annotation_count);
    let members = with_field::<String>(members, "api_path"@, m.api_path);
    let members = with_optional_field::<String>(members, "apple_music_id"@, m.apple_music_id);
    let members = with_optional_field::<String>(
        members,
        "apple_music_player_url"@,
        m.apple_music_player_url,
    );
    let members = with_optional_field::<u32>(members, "comment_count"@, m.comment_count);
    let members = with_optional_field::<String>(
        members,
        "custom_header_image_url"@,
        m.custom_header_image_url,
    );
    let members = with_optional_field::<String>(
        members,
        "custom_song_art_image_url"@,
        m.custom_song_art_image_url,
    );
    let members = with_optional_field::<Body>(members, "description"@, m.description);
    let members = with_optional_field::<String>(
        members,
        "description_preview"@,
        m.description_preview,
    );
    let members = with_optional_field::<String>(members, "embed_content"@, m.embed_content);
    let members = with_optional_field::<String>(
        members,
        "facebook_share_message_without_url"@,
        m.facebook_share_message_without_url,
    );
    let members = with_optional_field::<bool>(members, "featured_video"@, m.featured_video);
    let members = with_field::<String>(members, "full_title"@, m.full_title);
    let members = with_optional_field::<bool>(
        members,
        "has_instagram_reel_annotations"@,
        m.has_instagram_reel_annotations,
    );
    let members = with_field::<String>(
        members,
        "header_image_thumbnail_url"@,
        m.header_image_thumbnail_url,
    );
    let members = with_field::<String>(members, "header_image_url"@, m.header_image_url);
    let members = with_optional_field::<bool>(members, "hidden"@, m.hidden);
    let members = with_field::<u32>(members, "id"@, m.id);
    let members = with_optional_field::<bool>(members, "instrumental"@, m.instrumental);
    let members = with_optional_field::<bool>(members, "is_music"@, m.is_music);
    let members = with_optional_field::<Body>(members, "lyrics"@, m.lyrics);
    let members = with_field::<u32>(members, "lyrics_owner_id"@, m.lyrics_owner_id);
    let members = with_field::<String>(members, "lyrics_state"@, m.lyrics_state);
    let members = with_optional_field::<u64>(members, "lyrics_updated_at"@, m.lyrics_updated_at);
    let members = with_field::<String>(members, "path"@, m.path);
    let members = with_optional_field::<u32>(
        members,
        "pending_lyrics_edits_count"@,
        m.pending_lyrics_edits_count,
    );
    let members = with_optional_field::<bool>(members, "published"@, m.published);
    let members = with_optional_field::<String>(members, "pusher_channel"@, m.pusher_channel);
    let members = with_optional_field::<Date>(
        members,
        "release_date_components"@,
        m.release_date_components,
    );
    let members = with_optional_field::<u32>(members, "pyongs_count"@, m.pyongs_count);
    let members = with_optional_field::<String>(
        members,
        "recording_location"@,
        m.recording_location,
    );
    let members = with_optional_field::<String>(members, "release_date"@, m.release_date);
    let members = with_optional_field::<String>(
        members,
        "release_date_for_display"@,
        m.release_date_for_display,
    );
    let members = with_optional_field::<String>(members, "share_url"@, m.share_url);
    let members = with_field::<String>(
        members,
        "song_art_image_thumbnail_url"@,
        m.song_art_image_thumbnail_url,
    );
    let members = with_field::<String>(members, "song_art_image_url"@, m.song_art_image_url);
    let members = with_optional_field::<String>(members, "soundcloud_url"@, m.soundcloud_url);
    let members = with_optional_field::<String>(members, "spotify_uuid"@, m.spotify_uuid);
    let members = with_field::<SongStatus>(members, "stats"@, m.stats);
    let members = with_field::<String>(members, "title"@, m.title);
    let members = with_field::<String>(members, "title_with_featured"@, m.title_with_featured);
    let members = with_optional_field::<TrackingPaths>(
        members,
        "tracking_paths"@,
        m.tracking_paths,
    );
    let members = with_optional_field::<String>(
        members,
        "twitter_share_message"@,
        m.twitter_share_message,
    );
    let members = with_optional_field::<String>(
        members,
        "twitter_share_message_without_url"@,
        m.twitter_share_message_without_url,
    );
    let members = with_optional_field::<u64>(
        members,
        "updated_by_human_at"@,
        m.updated_by_human_at,
    );
    let members = with_field::<String>(members, "url"@, m.url);
    let members = with_optional_field::<Vec<String>>(
        members,
        "viewable_by_roles"@,
        m.viewable_by_roles,
    );
    let members = with_optional_field::<String>(members, "youtube_start"@, m.youtube_start);
    let members = with_optional_field::<String>(members, "youtube_url"@, m.youtube_url);
    let members = with_optional_field::<UserMetadata>(
        members,
        "current_user_metadata"@,
        m.current_user_metadata,
    );
    let members = with_field::<Artist>(members, "primary_artist"@, m.primary_artist);
    let members = with_optional_field::<Album>(members, "album"@, m.album);
    let members = with_optional_field::<Vec<Album>>(members, "albums"@, m.albums);
    let members = with_optional_field::<Vec<SongPerformance>>(
        members,
        "custom_performances"@,
        m.custom_performances,
    );
    let members = with_optional_field::<Referent>(
        members,
        "description_annotation"@,
        m.description_annotation,
    );
    let members = with_optional_field::<Vec<Artist>>(
        members,
        "featured_artists"@,
        m.featured_artists,
    );
    let members = with_optional_field::<Vec<SongMedia>>(members, "media"@, m.media);
    let members = with_optional_field::<Vec<Artist>>(
        members,
        "producer_artists"@,
        m.producer_artists,
    );
    let members = with_present(
        members,
        "song_relationships"@,
        relationships_written(m.song_relationships),
    );
    let members = with_optional_field::<Vec<User>>(
        members,
        "verified_annotations_by"@,
        m.verified_annotations_by,
    );
    let members = with_optional_field::<Vec<SongContributor>>(
        members,
        "verified_contributors"@,
        m.verified_contributors,
    );
    let members = with_optional_field::<Vec<User>>(
        members,
        "verified_lyrics_by"@,
        m.verified_lyrics_by,
    );
    let members = with_optional_field::<Vec<Artist>>(members, "writer_artists"@, m.writer_artists);
    JsonModel::Object(members)
}

/// Writes a song.
pub fn write_song(song: &Song) -> (j: Json)
    ensures
        j@ == song_encoded(song_model(*song)),
    decreases song, 1int,
{
    let mut members: Vec<(String, Json)> = Vec::new();
    assert(members_model(members@) == Seq::<(Seq<char>, JsonModel)>::empty());
    write_field::<u32>(&mut members, "annotation_count", &song.annotation_count);
    write_field::<String>(&mut members, "api_path", &song.api_path);
    write_optional_field::<String>(&mut members, "apple_music_id", &song.apple_music_id);
    write_optional_field::<String>(
        &mut members,
        "apple_music_player_url",
        &song.apple_music_player_url,
    );
    write_optional_field::<u32>(&mut members, "comment_count", &song.comment_count);
    write_optional_field::<String>(
        &mut members,
        "custom_header_image_url",
        &song.custom_header_image_url,
    );
    write_optional_field::<String>(
        &mut members,
        "custom_song_art_image_url",
        &song.custom_song_art_image_url,
    );
    write_optional_field::<Body>(&mut members, "description", &song.description);
    write_optional_field::<String>(&mut members, "description_preview", &song.description_preview);
    write_optional_field::<String>(&mut members, "embed_content", &song.embed_content);
    write_optional_field::<String>(
        &mut members,
        "facebook_share_message_without_url",
        &song.facebook_share_message_without_url,
    );
    write_optional_field::<bool>(&mut members, "featured_video", &song.featured_video);
    write_field::<String>(&mut members, "full_title", &song.full_title);
    write_optional_field::<bool>(
        &mut members,
        "has_instagram_reel_annotations",
        &song.has_instagram_reel_annotations,
    );
    write_field::<String>(
        &mut members,
        "header_image_thumbnail_url",
        &song.header_image_thumbnail_url,
    );
    write_field::<String>(&mut members, "header_image_url", &song.header_image_url);
    write_optional_field::<bool>(&mut members, "hidden", &song.hidden);
    write_field::<u32>(&mut members, "id", &song.id);
    write_optional_field::<bool>(&mut members, "instrumental", &song.instrumental);
    write_optional_field::<bool>(&mut members, "is_music", &song.is_music);
    write_optional_field::<Body>(&mut members, "lyrics", &song.lyrics);
    write_field::<u32>(&mut members, "lyrics_owner_id", &song.lyrics_owner_id);
    write_field::<String>(&mut members, "lyrics_state", &song.lyrics_state);
    write_optional_field::<u64>(&mut members, "lyrics_updated_at", &song.lyrics_updated_at);
    write_field::<String>(&mut members, "path", &song.path);
    write_optional_field::<u32>(
        &mut members,
        "pending_lyrics_edits_count",
        &song.pending_lyrics_edits_count,
    );
    write_optional_field::<bool>(&mut members, "published", &song.published);
    write_optional_field::<String>(&mut members, "pusher_channel", &song.pusher_channel);
    write_optional_field::<Date>(
        &mut members,
        "release_date_components",
        &song.release_date_components,
    );
    write_optional_field::<u32>(&mut members, "pyongs_count", &song.pyongs_count);
    write_optional_field::<String>(&mut members, "recording_location", &song.recording_location);
    write_optional_field::<String>(&mut members, "release_date", &song.release_date);
    write_optional_field::<String>(
        &mut members,
        "release_date_for_display",
        &song.release_date_for_display,
    );
    write_optional_field::<String>(&mut members, "share_url", &song.share_url);
    write_field::<String>(
        &mut members,
        "song_art_image_thumbnail_url",
        &song.song_art_image_thumbnail_url,
    );
    write_field::<String>(&mut members, "song_art_image_url", &song.song_art_image_url);
    write_optional_field::<String>(&mut members, "soundcloud_url", &song.soundcloud_url);
    write_optional_field::<String>(&mut members, "spotify_uuid", &song.spotify_uuid);
    write_field::<SongStatus>(&mut members, "stats", &song.stats);
    write_field::<String>(&mut members, "title", &song.title);
    write_field::<String>(&mut members, "title_with_featured", &song.title_with_featured);
    write_optional_field::<TrackingPaths>(&mut members, "tracking_paths", &song.tracking_paths);
    write_optional_field::<String>(
        &mut members,
        "twitter_share_message",
        &song.twitter_share_message,
    );
    write_optional_field::<String>(
        &mut members,
        "twitter_share_message_without_url",
        &song.twitter_share_message_without_url,
    );
    write_optional_field::<u64>(&mut members, "updated_by_human_at", &song.updated_by_human_at);
    write_field::<String>(&mut members, "url", &song.url);
    write_optional_field::<Vec<String>>(&mut members, "viewable_by_roles", &song.viewable_by_roles);
    write_optional_field::<String>(&mut members, "youtube_start", &song.youtube_start);
    write_optional_field::<String>(&mut members, "youtube_url", &song.youtube_url);
    write_optional_field::<UserMetadata>(
        &mut members,
        "current_user_metadata",
        &song.current_user_metadata,
    );
    write_field::<Artist>(&mut members, "primary_artist", &song.primary_artist);
    write_optional_field::<Album>(&mut members, "album", &song.album);
    write_optional_field::<Vec<Album>>(&mut members, "albums", &song.albums);
    write_optional_field::<Vec<SongPerformance>>(
        &mut members,
        "custom_performances",
        &song.custom_performances,
    );
    write_optional_field::<Referent>(
        &mut members,
        "description_annotation",
        &song.description_annotation,
    );
    write_optional_field::<Vec<Artist>>(&mut members, "featured_artists", &song.featured_artists);
    write_optional_field::<Vec<SongMedia>>(&mut members, "media", &song.media);
    write_optional_field::<Vec<Artist>>(&mut members, "producer_artists", &song.producer_artists);
    write_relationships(&mut members, &song.song_relationships);
    write_optional_field::<Vec<User>>(
        &mut members,
        "verified_annotations_by",
        &song.verified_annotations_by,
    );
    write_optional_field::<Vec<SongContributor>>(
        &mut members,
        "verified_contributors",
        &song.verified_contributors,
    );
    write_optional_field::<Vec<User>>(&mut members, "verified_lyrics_by", &song.verified_lyrics_by);
    write_optional_field::<Vec<Artist>>(&mut members, "writer_artists", &song.writer_artists);
    Json::object(members)
}

/// Reading the value that a song was written as gives the song back.
#[verifier::rlimit(60)]
pub proof fn lemma_song_round_trip(m: SongModel)
    ensures
        song_decoded(song_encoded(m)) == Ok::<SongModel, SchemaFault>(m),
        song_encoded(m) is Object,
    decreases m, 1int,
{
    broadcast use {
        lemma_member_none,
        lemma_member_with_field,
        lemma_member_with_optional_field,
        lemma_member_with_present,
        lemma_or_else_none,
        lemma_required_reads_back,
        lemma_optional_reads_back,
    };

    reveal_strlit("annotation_count");
    reveal_strlit("api_path");
    reveal_strlit("apple_music_id");
    reveal_strlit("apple_music_player_url");
    reveal_strlit("comment_count");
    reveal_strlit("custom_header_image_url");
    reveal_strlit("custom_song_art_image_url");
    reveal_strlit("description");
    reveal_strlit("description_preview");
    reveal_strlit("embed_content");
    reveal_strlit("facebook_share_message_without_url");
    reveal_strlit("featured_video");
    reveal_strlit("full_title");
    reveal_strlit("has_instagram_reel_annotations");
    reveal_strlit("header_image_thumbnail_url");
    reveal_strlit("header_image_url");
    reveal_strlit("hidden");
    reveal_strlit("id");
    reveal_strlit("instrumental");
    reveal_strlit("is_music");
    reveal_strlit("lyrics");
    reveal_strlit("lyrics_owner_id");
    reveal_strlit("lyrics_state");
    reveal_strlit("lyrics_updated_at");
    reveal_strlit("path");
    reveal_strlit("pending_lyrics_edits_count");
    reveal_strlit("published");
    reveal_strlit("pusher_channel");
    reveal_strlit("release_date_components");
    reveal_strlit("pyongs_count");
    reveal_strlit("recording_location");
    reveal_strlit("release_date");
    reveal_strlit("release_date_for_display");
    reveal_strlit("share_url");
    reveal_strlit("song_art_image_thumbnail_url");
    reveal_strlit("song_art_image_url");
    reveal_strlit("soundcloud_url");
    reveal_strlit("spotify_uuid");
    reveal_strlit("stats");
    reveal_strlit("title");
    reveal_strlit("title_with_featured");
    reveal_strlit("tracking_paths");
    reveal_strlit("twitter_share_message");
    reveal_strlit("twitter_share_message_without_url");
    reveal_strlit("updated_by_human_at");
    reveal_strlit("url");
    reveal_strlit("viewable_by_roles");
    reveal_strlit("youtube_start");
    reveal_strlit("youtube_url");
    reveal_strlit("current_user_metadata");
    reveal_strlit("primary_artist");
    reveal_strlit("album");
    reveal_strlit("albums");
    reveal_strlit("custom_performances");
    reveal_strlit("description_annotation");
    reveal_strlit("featured_artists");
    reveal_strlit("media");
    reveal_strlit("producer_artists");
    reveal_strlit("song_relationships");
    reveal_strlit("verified_annotations_by");
    reveal_strlit("verified_contributors");
    reveal_strlit("verified_lyrics_by");
    reveal_strlit("writer_artists");
    lemma_outline("annotation_count"@);
    lemma_outline("api_path"@);
    lemma_outline("apple_music_id"@);
    lemma_outline("apple_music_player_url"@);
    lemma_outline("comment_count"@);
    lemma_outline("custom_header_image_url"@);
    lemma_outline("custom_song_art_image_url"@);
    lemma_outline("description"@);
    lemma_outline("description_preview"@);
    lemma_outline("embed_content"@);
    lemma_outline("facebook_share_message_without_url"@);
    lemma_outline("featured_video"@);
    lemma_outline("full_title"@);
    lemma_outline("has_instagram_reel_annotations"@);
    lemma_outline("header_image_thumbnail_url"@);
    lemma_outline("header_image_url"@);
    lemma_outline("hidden"@);
    lemma_outline("id"@);
    lemma_outline("instrumental"@);
    lemma_outline("is_music"@);
    lemma_outline("lyrics"@);
    lemma_outline("lyrics_owner_id"@);
    lemma_outline("lyrics_state"@);
    lemma_outline("lyrics_updated_at"@);
    lemma_outline("path"@);
    lemma_outline("pending_lyrics_edits_count"@);
    lemma_outline("published"@);
    lemma_outline("pusher_channel"@);
    lemma_outline("release_date_components"@);
    lemma_outline("pyongs_count"@);
    lemma_outline("recording_location"@);
    lemma_outline("release_date"@);
    lemma_outline("release_date_for_display"@);
    lemma_outline("share_url"@);
    lemma_outline("song_art_image_thumbnail_url"@);
    lemma_outline("song_art_image_url"@);
    lemma_outline("soundcloud_url"@);
    lemma_outline("spotify_uuid"@);
    lemma_outline("stats"@);
    lemma_outline("title"@);
    lemma_outline("title_with_featured"@);
    lemma_outline("tracking_paths"@);
    lemma_outline("twitter_share_message"@);
    lemma_outline("twitter_share_message_without_url"@);
    lemma_outline("updated_by_human_at"@);
    lemma_outline("url"@);
    lemma_outline("viewable_by_roles"@);
    lemma_outline("youtube_start"@);
    lemma_outline("youtube_url"@);
    lemma_outline("current_user_metadata"@);
    lemma_outline("primary_artist"@);
    lemma_outline("album"@);
    lemma_outline("albums"@);
    lemma_outline("custom_performances"@);
    lemma_outline("description_annotation"@);
    lemma_outline("featured_artists"@);
    lemma_outline("media"@);
    lemma_outline("producer_artists"@);
    lemma_outline("song_relationships"@);
    lemma_outline("verified_annotations_by"@);
    lemma_outline("verified_contributors"@);
    lemma_outline("verified_lyrics_by"@);
    lemma_outline("writer_artists"@);
    lemma_relationships_read_back(song_encoded(m), m.song_relationships);
}

impl Encode for Song {
    open spec fn encoded(m: SongModel) -> JsonModel {
        song_encoded(m)
    }

    fn to_json(&self) -> (j: Json) {
        write_song(self)
    }

    proof fn lemma_round_trip(m: SongModel) {
        lemma_song_round_trip(m);
    }
}

/// How a song relates to other songs, and those songs.
#[derive(Debug, PartialEq)]
pub struct SongRelationship {
    /// The kind of relationship: `samples`, `sampled_in`, `interpolates`,
    /// `interpolated_by`, `cover_of`, `covered_by`, `remix_of`, `remixed_by`,
    /// `live_version_of` or `performed_live_as`.
    pub relationship_type: String,
    /// The songs that stand in this relationship, in the order received. A
    /// song that the service sent as `null` is `None`.
    pub songs: Vec<Option<Song>>,
}

/// The model of a [`SongRelationship`].
pub struct SongRelationshipModel {
    pub relationship_type: Seq<char>,
    pub songs: Seq<Option<SongModel>>,
}

/// The models of the relationships of a song.
pub open spec fn relationship_models(list: Seq<SongRelationship>) -> Seq<SongRelationshipModel>
    decreases list, 0int,
{
    Seq::new(
        list.len(),
        |i: int|
            if 0 <= i < list.len() {
                relationship_model(list[i])
            } else {
                arbitrary()
            },
    )
}

/// The model of a relationship.
pub open spec fn relationship_model(relationship: SongRelationship) -> SongRelationshipModel
    decreases relationship, 1int,
{
    SongRelationshipModel {
        relationship_type: relationship.relationship_type@,
        songs: song_models(relationship.songs@),
    }
}

/// The models of the songs of a relationship.
pub open spec fn song_models(songs: Seq<Option<Song>>) -> Seq<Option<SongModel>>
    decreases songs, 0int,
{
    Seq::new(
        songs.len(),
        |i: int|
            if 0 <= i < songs.len() {
                match songs[i] {
                    Some(song) => Some(song_model(song)),
                    None => None,
                }
            } else {
                None
            },
    )
}

impl DeepView for SongRelationship {
    type V = SongRelationshipModel;

    open spec fn deep_view(&self) -> SongRelationshipModel {
        relationship_model(*self)
    }
}

/// What the member `song_relationships` of a song is read as: like any
/// optional list, absent where the member is not there or is `null`.
pub open spec fn relationships_field(j: JsonModel) -> Result<
    Option<Seq<SongRelationshipModel>>,
    SchemaFault,
>
    decreases j, 0int,
{
    match j.get("song_relationships"@) {
        None | Some(JsonModel::Null) => Ok(None),
        Some(JsonModel::Array(items)) => {
            proof {
                lemma_member_decreases(j, "song_relationships"@);
            }
            match collected(relationship_results(items)) {
                Ok(list) => Ok(Some(list)),
                Err(inner) => Err(under(StepModel::Field("song_relationships"@), inner)),
            }
        },
        Some(_) => Err(
            under(StepModel::Field("song_relationships"@), fault(SchemaErrorKind::WrongType)),
        ),
    }
}

/// What each item of an array is read as, where relationships are asked for.
pub open spec fn relationship_results(items: Seq<JsonModel>) -> Seq<
    Result<SongRelationshipModel, SchemaFault>,
>
    decreases items, 0int,
{
    Seq::new(
        items.len(),
        |i: int|
            if 0 <= i < items.len() {
                relationship_decoded(items[i])
            } else {
                Err(fault(SchemaErrorKind::WrongType))
            },
    )
}

/// What a JSON value is read as, where a relationship is asked for.
pub open spec fn relationship_decoded(j: JsonModel) -> Result<SongRelationshipModel, SchemaFault>
    decreases j, 1int,
{
    let relationship_type = field::<String>(j, "relationship_type"@);
    let songs = songs_field(j);
    if !(j is Object) {
        Err(fault(SchemaErrorKind::WrongType))
    } else if relationship_type is Err {
        Err(relationship_type->Err_0)
    } else if songs is Err {
        Err(songs->Err_0)
    } else {
        Ok(SongRelationshipModel { relationship_type: relationship_type->Ok_0, songs: songs->Ok_0 })
    }
}

/// What the member `songs` of a relationship is read as: a list in which
/// `null` stands for a song that is absent.
pub open spec fn songs_field(j: JsonModel) -> Result<Seq<Option<SongModel>>, SchemaFault>
    decreases j, 0int,
{
    match j.get("songs"@) {
        None => Err(under(StepModel::Field("songs"@), fault(SchemaErrorKind::MissingField))),
        Some(JsonModel::Array(items)) => {
            proof {
                lemma_member_decreases(j, "songs"@);
            }
            match collected(song_results(items)) {
                Ok(list) => Ok(list),
                Err(inner) => Err(under(StepModel::Field("songs"@), inner)),
            }
        },
        Some(_) => Err(under(StepModel::Field("songs"@), fault(SchemaErrorKind::WrongType))),
    }
}

/// What each item of an array is read as, where songs that may be absent
/// are asked for.
pub open spec fn song_results(items: Seq<JsonModel>) -> Seq<Result<Option<SongModel>, SchemaFault>>
    decreases items, 0int,
{
    Seq::new(
        items.len(),
        |i: int|
            if 0 <= i < items.len() {
                match items[i] {
                    JsonModel::Null => Ok(None),
                    _ => match song_decoded(items[i]) {
                        Ok(song) => Ok(Some(song)),
                        Err(f) => Err(f),
                    },
                }
            } else {
                Ok(None)
            },
    )
}

/// The songs of a relationship keep their places: the list has an entry for
/// each item of the array, in the order of the items; the entry is absent
/// exactly where the item is `null`, and else the song that the item is read
/// as.
pub proof fn lemma_songs_keep_their_places(items: Seq<JsonModel>, songs: Seq<Option<SongModel>>)
    requires
        collected(song_results(items)) == Ok::<Seq<Option<SongModel>>, SchemaFault>(songs),
    ensures
        songs.len() == items.len(),
        forall|i: int|
            0 <= i < items.len() ==> (songs[i] is None <==> items[i] is Null) && (!(items[i]
                is Null) ==> song_decoded(items[i]) == Ok::<SongModel, SchemaFault>(songs[i]->0)),
{
    lemma_collected_each(song_results(items), songs);
    assert forall|i: int| 0 <= i < items.len() implies (songs[i] is None <==> items[i] is Null)
        && (!(items[i] is Null) ==> song_decoded(items[i]) == Ok::<SongModel, SchemaFault>(
        songs[i]->0,
    )) by {
        assert(song_results(items)[i] == Ok::<Option<SongModel>, SchemaFault>(songs[i]));
    }
}

/// Reads the member `song_relationships` of a song.
pub fn read_relationships_field(j: &Json) -> (r: Result<
    Option<Vec<SongRelationship>>,
    SchemaError,
>)
    ensures
        match r {
            Ok(list) => relationships_field(j@) == Ok::<
                Option<Seq<SongRelationshipModel>>,
                SchemaFault,
            >(relationships_model(list)),
            Err(e) => relationships_field(j@) == Err::<
                Option<Seq<SongRelationshipModel>>,
                SchemaFault,
            >(e.deep_view()),
        },
    decreases j, 0int,
{
    match j.get("song_relationships") {
        None | Some(Json::Null) => Ok(None),
        Some(Json::Array(items)) => {
            assert(j@.get("song_relationships"@)->0->Array_0 =~= items_model(items@));
            match read_relationships(items) {
                Ok(list) => Ok(Some(list)),
                Err(e) => Err(e.below(PathStep::Field("song_relationships".to_owned()))),
            }
        },
        Some(_) => Err(
            SchemaError::at_root(SchemaErrorKind::WrongType).below(
                PathStep::Field("song_relationships".to_owned()),
            ),
        ),
    }
}

/// The model of the relationships of a song, where the song has them.
pub open spec fn relationships_model(list: Option<Vec<SongRelationship>>) -> Option<
    Seq<SongRelationshipModel>,
>
    decreases list, 1int,
{
    match list {
        Some(relationships) => Some(relationship_models(relationships@)),
        None => None,
    }
}

/// Reads relationships from the items of an array.
pub fn read_relationships(items: &Vec<Json>) -> (r: Result<Vec<SongRelationship>, SchemaError>)
    ensures
        match r {
            Ok(list) => collected(relationship_results(items_model(items@))) == Ok::<
                Seq<SongRelationshipModel>,
                SchemaFault,
            >(relationship_models(list@)),
            Err(e) => collected(relationship_results(items_model(items@))) == Err::<
                Seq<SongRelationshipModel>,
                SchemaFault,
            >(e.deep_view()),
        },
    decreases items, 0int,
{
    let ghost results = relationship_results(items_model(items@));
    let mut list: Vec<SongRelationship> = Vec::new();
    let mut i: usize = 0;
    assert(results.subrange(0, 0) == Seq::<Result<SongRelationshipModel, SchemaFault>>::empty());
    assert(relationship_models(list@) == Seq::<SongRelationshipModel>::empty());
    while i < items.len()
        invariant
            i <= items.len(),
            results == relationship_results(items_model(items@)),
            results.len() == items.len(),
            collected(results.subrange(0, i as int)) == Ok::<
                Seq<SongRelationshipModel>,
                SchemaFault,
            >(relationship_models(list@)),
        decreases items.len() - i,
    {
        let ghost before = relationship_models(list@);
        proof {
            lemma_collected_next(results, i as int);
        }
        match read_relationship(&items[i]) {
            Ok(relationship) => {
                list.push(relationship);
                assert(relationship_models(list@) == before.push(relationship_model(relationship)));
            },
            Err(e) => {
                proof {
                    lemma_fault_stays(results, i + 1);
                }
                return Err(e.below(PathStep::Item(i)));
            },
        }
        i = i + 1;
    }
    assert(results.subrange(0, i as int) == results);
    Ok(list)
}

/// Reads a relationship.
pub fn read_relationship(j: &Json) -> (r: Result<SongRelationship, SchemaError>)
    ensures
        outcome(r) == relationship_decoded(j@),
    decreases j, 1int,
{
    if !j.is_object() {
        return Err(SchemaError::at_root(SchemaErrorKind::WrongType));
    }
    let relationship_type = match read_field::<String>(j, "relationship_type") {
        Ok(value) => value,
        Err(e) => return Err(e),
    };
    let songs = match read_songs_field(j) {
        Ok(value) => value,
        Err(e) => return Err(e),
    };
    Ok(SongRelationship { relationship_type, songs })
}

/// Reads the member `songs` of a relationship.
pub fn read_songs_field(j: &Json) -> (r: Result<Vec<Option<Song>>, SchemaError>)
    ensures
        match r {
            Ok(list) => songs_field(j@) == Ok::<Seq<Option<SongModel>>, SchemaFault>(
                song_models(list@),
            ),
            Err(e) => songs_field(j@) == Err::<Seq<Option<SongModel>>, SchemaFault>(
                e.deep_view(),
            ),
        },
    decreases j, 0int,
{
    match j.get("songs") {
        None => Err(
            SchemaError::at_root(SchemaErrorKind::MissingField).below(
                PathStep::Field("songs".to_owned()),
            ),
        ),
        Some(Json::Array(items)) => {
            assert(j@.get("songs"@)->0->Array_0 =~= items_model(items@));
            match read_songs(items) {
                Ok(list) => Ok(list),
                Err(e) => Err(e.below(PathStep::Field("songs".to_owned()))),
            }
        },
        Some(_) => Err(
            SchemaError::at_root(SchemaErrorKind::WrongType).below(
                PathStep::Field("songs".to_owned()),
            ),
        ),
    }
}

/// Reads songs, any of which may be `null`, from the items of an array.
pub fn read_songs(items: &Vec<Json>) -> (r: Result<Vec<Option<Song>>, SchemaError>)
    ensures
        match r {
            Ok(list) => collected(song_results(items_model(items@))) == Ok::<
                Seq<Option<SongModel>>,
                SchemaFault,
            >(song_models(list@)),
            Err(e) => collected(song_results(items_model(items@))) == Err::<
                Seq<Option<SongModel>>,
                SchemaFault,
            >(e.deep_view()),
        },
    decreases items, 0int,
{
    let ghost results = song_results(items_model(items@));
    let mut list: Vec<Option<Song>> = Vec::new();
    let mut i: usize = 0;
    assert(results.subrange(0, 0) == Seq::<Result<Option<SongModel>, SchemaFault>>::empty());
    assert(song_models(list@) == Seq::<Option<SongModel>>::empty());
    while i < items.len()
        invariant
            i <= items.len(),
            results == song_results(items_model(items@)),
            results.len() == items.len(),
            collected(results.subrange(0, i as int)) == Ok::<Seq<Option<SongModel>>, SchemaFault>(
                song_models(list@),
            ),
        decreases items.len() - i,
    {
        let ghost before = song_models(list@);
        proof {
            lemma_collected_next(results, i as int);
        }
        assert(items_model(items@)[i as int] == items@[i as int]@);
        match &items[i] {
            Json::Null => {
                list.push(None);
                assert(song_models(list@) == before.push(None));
            },
            item => match read_song(item) {
                Ok(song) => {
                    list.push(Some(song));
                    assert(song_models(list@) == before.push(Some(song_model(song))));
                },
                Err(e) => {
                    proof {
                        lemma_fault_stays(results, i + 1);
                    }
                    return Err(e.below(PathStep::Item(i)));
                },
            },
        }
        i = i + 1;
    }
    assert(results.subrange(0, i as int) == results);
    Ok(list)
}

impl Decode for SongRelationship {
    open spec fn decoded(j: JsonModel) -> Result<SongRelationshipModel, SchemaFault> {
        relationship_decoded(j)
    }

    fn from_json(j: &Json) -> (r: Result<SongRelationship, SchemaError>) {
        read_relationship(j)
    }
}

impl SongRelationship {
    /// Whether the record reads the member of that name.
    pub open spec fn reads(name: Seq<char>) -> bool {
        name == "relationship_type"@ || name == "songs"@
    }

    /// What an object is read as depends on the members that the record
    /// reads alone: members of other names, wherever they stand, are ignored.
    pub proof fn lemma_other_members_ignored(
        first: Seq<(Seq<char>, JsonModel)>,
        second: Seq<(Seq<char>, JsonModel)>,
    )
        requires
            forall|name: Seq<char>|
                Self::reads(name) ==> member(first, name) == member(second, name),
        ensures
            relationship_decoded(JsonModel::Object(first)) == relationship_decoded(
                JsonModel::Object(second),
            ),
    {
        assert(Self::reads("relationship_type"@));
        assert(Self::reads("songs"@));
    }
}

/// What the relationships of a song are written as, where the song has them.
pub open spec fn relationships_written(list: Option<Seq<SongRelationshipModel>>) -> Option<
    JsonModel,
>
    decreases list, 1int,
{
    match list {
        Some(relationships) => Some(JsonModel::Array(relationships_encoded(relationships))),
        None => None,
    }
}

/// What relationships are written as, one by one.
pub open spec fn relationships_encoded(list: Seq<SongRelationshipModel>) -> Seq<JsonModel>
    decreases list, 0int,
{
    Seq::new(
        list.len(),
        |i: int|
            if 0 <= i < list.len() {
                relationship_encoded(list[i])
            } else {
                JsonModel::Null
            },
    )
}

/// The JSON value that a relationship is written as.
pub open spec fn relationship_encoded(m: SongRelationshipModel) -> JsonModel
    decreases m, 1int,
{
    let members = Seq::empty();
    let members = with_field::<String>(members, "relationship_type"@, m.relationship_type);
    let members = members.push(("songs"@, JsonModel::Array(songs_encoded(m.songs))));
    JsonModel::Object(members)
}

/// What the songs of a relationship are written as, one by one: an absent
/// song as `null`.
pub open spec fn songs_encoded(songs: Seq<Option<SongModel>>) -> Seq<JsonModel>
    decreases songs, 0int,
{
    Seq::new(
        songs.len(),
        |i: int|
            if 0 <= i < songs.len() {
                match songs[i] {
                    Some(song) => song_encoded(song),
                    None => JsonModel::Null,
                }
            } else {
                JsonModel::Null
            },
    )
}

/// Puts the member `song_relationships` behind the others, where the song
/// has relationships.
pub fn write_relationships(
    members: &mut Vec<(String, Json)>,
    list: &Option<Vec<SongRelationship>>,
)
    ensures
        members_model(final(members)@) == with_present(
            members_model(old(members)@),
            "song_relationships"@,
            relationships_written(relationships_model(*list)),
        ),
    decreases list, 0int,
{
    reveal(with_present);
    match list {
        Some(relationships) => {
            let mut items: Vec<Json> = Vec::new();
            let mut i: usize = 0;
            while i < relationships.len()
                invariant
                    i <= relationships.len(),
                    *list == Some(*relationships),
                    items.len() == i,
                    forall|k: int|
                        0 <= k < i ==> items@[k]@ == relationship_encoded(
                            relationship_model(relationships@[k]),
                        ),
                decreases relationships.len() - i,
            {
                assert(decreases_to!(*list => list->Some_0));
                assert(decreases_to!(relationships => relationships[i as int]));
                items.push(write_relationship(&relationships[i]));
                i = i + 1;
            }
            assert(items_model(items@) == relationships_encoded(
                relationship_models(relationships@),
            ));
            let value = Json::array(items);
            members.push(("song_relationships".to_owned(), value));
            assert(members_model(members@) =~= members_model(old(members)@).push(
                ("song_relationships"@, value@),
            ));
        },
        None => {},
    }
}

/// Writes a relationship.
pub fn write_relationship(relationship: &SongRelationship) -> (j: Json)
    ensures
        j@ == relationship_encoded(relationship_model(*relationship)),
    decreases relationship, 1int,
{
    let mut members: Vec<(String, Json)> = Vec::new();
    assert(members_model(members@) == Seq::<(Seq<char>, JsonModel)>::empty());
    write_field::<String>(&mut members, "relationship_type", &relationship.relationship_type);
    let ghost before = members_model(members@);
    let mut items: Vec<Json> = Vec::new();
    let mut i: usize = 0;
    while i < relationship.songs.len()
        invariant
            i <= relationship.songs.len(),
            items.len() == i,
            forall|k: int|
                0 <= k < i ==> items@[k]@ == match relationship.songs@[k] {
                    Some(song) => song_encoded(song_model(song)),
                    None => JsonModel::Null,
                },
        decreases relationship.songs.len() - i,
    {
        assert(decreases_to!(*relationship => relationship.songs));
        assert(decreases_to!(relationship.songs => relationship.songs[i as int]));
        match &relationship.songs[i] {
            Some(song) => {
                assert(decreases_to!(relationship.songs[i as int] => song));
                items.push(write_song(song));
            },
            None => {
                items.push(Json::Null);
            },
        }
        i = i + 1;
    }
    assert(items_model(items@) == songs_encoded(song_models(relationship.songs@)));
    let value = Json::array(items);
    members.push(("songs".to_owned(), value));
    assert(members_model(members@) =~= before.push(("songs"@, value@)));
    Json::object(members)
}

/// Where the member `song_relationships` of a value is what the
/// relationships of a song were written as, it is read as those
/// relationships.
pub proof fn lemma_relationships_read_back(j: JsonModel, list: Option<Seq<SongRelationshipModel>>)
    requires
        j.get("song_relationships"@) == relationships_written(list),
    ensures
        relationships_field(j) == Ok::<Option<Seq<SongRelationshipModel>>, SchemaFault>(list),
    decreases list, 0int,
{
    if let Some(relationships) = list {
        let items = relationships_encoded(relationships);
        assert forall|i: int| 0 <= i < relationships.len() implies relationship_results(items)[i]
            == Ok::<SongRelationshipModel, SchemaFault>(relationships[i]) by {
            lemma_relationship_round_trip(relationships[i]);
        }
        lemma_collected_all(relationship_results(items), relationships);
    }
}

/// Reading the value that a relationship was written as gives the
/// relationship back.
pub proof fn lemma_relationship_round_trip(m: SongRelationshipModel)
    ensures
        relationship_decoded(relationship_encoded(m)) == Ok::<SongRelationshipModel, SchemaFault>(
            m,
        ),
        relationship_encoded(m) is Object,
    decreases m, 1int,
{
    broadcast use {lemma_member_none, lemma_member_with_field, lemma_required_reads_back};

    reveal_strlit("relationship_type");
    reveal_strlit("songs");
    lemma_outline("relationship_type"@);
    lemma_outline("songs"@);
    let j = relationship_encoded(m);
    let first = with_field::<String>(Seq::empty(), "relationship_type"@, m.relationship_type);
    let items = songs_encoded(m.songs);
    lemma_member_push(first, "songs"@, JsonModel::Array(items), "songs"@);
    lemma_member_push(first, "songs"@, JsonModel::Array(items), "relationship_type"@);
    assert forall|i: int| 0 <= i < m.songs.len() implies song_results(items)[i] == Ok::<
        Option<SongModel>,
        SchemaFault,
    >(m.songs[i]) by {
        if let Some(song) = m.songs[i] {
            lemma_song_round_trip(song);
        }
    }
    lemma_collected_all(song_results(items), m.songs);
}

impl Encode for SongRelationship {
    open spec fn encoded(m: SongRelationshipModel) -> JsonModel {
        relationship_encoded(m)
    }

    fn to_json(&self) -> (j: Json) {
        write_relationship(self)
    }

    proof fn lemma_round_trip(m: SongRelationshipModel) {
        lemma_relationship_round_trip(m);
    }
}

/// Paths under which views of a song are counted.
#[derive(Debug, PartialEq)]
pub struct TrackingPaths {
    pub aggregate: String,
    pub concurrent: String,
}

/// The model of a [`TrackingPaths`].
pub struct TrackingPathsModel {
    pub aggregate: Seq<char>,
    pub concurrent: Seq<char>,
}

impl DeepView for TrackingPaths {
    type V = TrackingPathsModel;

    open spec fn deep_view(&self) -> TrackingPathsModel {
        TrackingPathsModel {
            aggregate: self.aggregate.deep_view(),
            concurrent: self.concurrent.deep_view(),
        }
    }
}

impl Decode for TrackingPaths {
    #[verifier::opaque]
    open spec fn decoded(j: JsonModel) -> Result<TrackingPathsModel, SchemaFault> {
        let aggregate = field::<String>(j, "aggregate"@);
        let concurrent = field::<String>(j, "concurrent"@);
        if !(j is Object) {
            Err(fault(SchemaErrorKind::WrongType))
        } else if aggregate is Err {
            Err(aggregate->Err_0)
        } else if concurrent is Err {
            Err(concurrent->Err_0)
        } else {
            Ok(
                TrackingPathsModel {
                    aggregate: aggregate->Ok_0,
                    concurrent: concurrent->Ok_0,
                },
            )
        }
    }

    fn from_json(j: &Json) -> (r: Result<TrackingPaths, SchemaError>) {
        reveal(<TrackingPaths as Decode>::decoded);
        if !j.is_object() {
            return Err(SchemaError::at_root(SchemaErrorKind::WrongType));
        }
        let aggregate = match read_field::<String>(j, "aggregate") {
            Ok(value) => value,
            Err(e) => return Err(e),
        };
        let concurrent = match read_field::<String>(j, "concurrent") {
            Ok(value) => value,
            Err(e) => return Err(e),
        };
        Ok(TrackingPaths { aggregate, concurrent })
    }
}

impl TrackingPaths {
    /// Whether the record reads the member of that name.
    pub open spec fn reads(name: Seq<char>) -> bool {
        name == "aggregate"@
        || name == "concurrent"@
    }

    /// What an object is read as depends on the members that the record
    /// reads alone: members of other names, wherever they stand, are ignored.
    pub proof fn lemma_other_members_ignored(
        first: Seq<(Seq<char>, JsonModel)>,
        second: Seq<(Seq<char>, JsonModel)>,
    )
        requires
            forall|name: Seq<char>|
                Self::reads(name) ==> member(first, name) == member(second, name),
        ensures
            Self::decoded(JsonModel::Object(first)) == Self::decoded(JsonModel::Object(second)),
    {
        reveal(<TrackingPaths as Decode>::decoded);
        assert(Self::reads("aggregate"@));
        assert(Self::reads("concurrent"@));
    }
}

impl Encode for TrackingPaths {
    open spec fn encoded(m: TrackingPathsModel) -> JsonModel {
        let members = Seq::empty();
        let members = with_field::<String>(members, "aggregate"@, m.aggregate);
        let members = with_field::<String>(members, "concurrent"@, m.concurrent);
        JsonModel::Object(members)
    }

    fn to_json(&self) -> (j: Json) {
        let mut members: Vec<(String, Json)> = Vec::new();
        assert(members_model(members@) == Seq::<(Seq<char>, JsonModel)>::empty());
        write_field::<String>(&mut members, "aggregate", &self.aggregate);
        write_field::<String>(&mut members, "concurrent", &self.concurrent);
        Json::object(members)
    }

    proof fn lemma_round_trip(m: TrackingPathsModel) {
        broadcast use {
            lemma_member_none,
            lemma_member_with_field,
            lemma_member_with_optional_field,
            lemma_or_else_none,
            lemma_required_reads_back,
            lemma_optional_reads_back,
        };

        reveal(<TrackingPaths as Decode>::decoded);
        reveal_strlit("aggregate");
        reveal_strlit("concurrent");
        lemma_outline("aggregate"@);
        lemma_outline("concurrent"@);
    }
}

/// A verified contributor to a song.
#[derive(Debug, PartialEq)]
pub struct SongContributor {
    pub contributions: Vec<String>,
    pub artist: Artist,
    pub user: Option<User>,
}

/// The model of a [`SongContributor`].
pub struct SongContributorModel {
    pub contributions: Seq<Seq<char>>,
    pub artist: ArtistModel,
    pub user: Option<UserModel>,
}

impl DeepView for SongContributor {
    type V = SongContributorModel;

    open spec fn deep_view(&self) -> SongContributorModel {
        SongContributorModel {
            contributions: self.contributions.deep_view(),
            artist: self.artist.deep_view(),
            user: optional_model(self.user),
        }
    }
}

impl Decode for SongContributor {
    #[verifier::opaque]
    open spec fn decoded(j: JsonModel) -> Result<SongContributorModel, SchemaFault> {
        let contributions = field::<Vec<String>>(j, "contributions"@);
        let artist = field::<Artist>(j, "artist"@);
        let user = optional_field::<User>(j, "user"@);
        if !(j is Object) {
            Err(fault(SchemaErrorKind::WrongType))
        } else if contributions is Err {
            Err(contributions->Err_0)
        } else if artist is Err {
            Err(artist->Err_0)
        } else if user is Err {
            Err(user->Err_0)
        } else {
            Ok(
                SongContributorModel {
                    contributions: contributions->Ok_0,
                    artist: artist->Ok_0,
                    user: user->Ok_0,
                },
            )
        }
    }

    fn from_json(j: &Json) -> (r: Result<SongContributor, SchemaError>) {
        reveal(<SongContributor as Decode>::decoded);
        if !j.is_object() {
            return Err(SchemaError::at_root(SchemaErrorKind::WrongType));
        }
        let contributions = match read_field::<Vec<String>>(j, "contributions") {
            Ok(value) => value,
            Err(e) => return Err(e),
        };
        let artist = match read_field::<Artist>(j, "artist") {
            Ok(value) => value,
            Err(e) => return Err(e),
        };
        let user = match read_optional_field::<User>(j, "user") {
            Ok(value) => value,
            Err(e) => return Err(e),
        };
        Ok(SongContributor { contributions, artist, user })
    }
}

impl SongContributor {
    /// Whether the record reads the member of that name.
    pub open spec fn reads(name: Seq<char>) -> bool {
        name == "contributions"@
        || name == "artist"@
        || name == "user"@
    }

    /// What an object is read as depends on the members that the record
    /// reads alone: members of other names, wherever they stand, are ignored.
    pub proof fn lemma_other_members_ignored(
        first: Seq<(Seq<char>, JsonModel)>,
        second: Seq<(Seq<char>, JsonModel)>,
    )
        requires
            forall|name: Seq<char>|
                Self::reads(name) ==> member(first, name) == member(second, name),
        ensures
            Self::decoded(JsonModel::Object(first)) == Self::decoded(JsonModel::Object(second)),
    {
        reveal(<SongContributor as Decode>::decoded);
        assert(Self::reads("contributions"@));
        assert(Self::reads("artist"@));
        assert(Self::reads("user"@));
    }
}

impl Encode for SongContributor {
    open spec fn encoded(m: SongContributorModel) -> JsonModel {
        let members = Seq::empty();
        let members = with_field::<Vec<String>>(members, "contributions"@, m.contributions);
        let members = with_field::<Artist>(members, "artist"@, m.artist);
        let members = with_optional_field::<User>(members, "user"@, m.user);
        JsonModel::Object(members)
    }

    fn to_json(&self) -> (j: Json) {
        let mut members: Vec<(String, Json)> = Vec::new();
        assert(members_model(members@) == Seq::<(Seq<char>, JsonModel)>::empty());
        write_field::<Vec<String>>(&mut members, "contributions", &self.contributions);
        write_field::<Artist>(&mut members, "artist", &self.artist);
        write_optional_field::<User>(&mut members, "user", &self.user);
        Json::object(members)
    }

    proof fn lemma_round_trip(m: SongContributorModel) {
        broadcast use {
            lemma_member_none,
            lemma_member_with_field,
            lemma_member_with_optional_field,
            lemma_or_else_none,
            lemma_required_reads_back,
            lemma_optional_reads_back,
        };

        reveal(<SongContributor as Decode>::decoded);
        reveal_strlit("contributions");
        reveal_strlit("artist");
        reveal_strlit("user");
        lemma_outline("contributions"@);
        lemma_outline("artist"@);
        lemma_outline("user"@);
    }
}

/// A credit on a song or an album: a role and the artists in it.
#[derive(Debug, PartialEq)]
pub struct SongPerformance {
    pub label: String,
    pub artists: Vec<Artist>,
}

/// The model of a [`SongPerformance`].
pub struct SongPerformanceModel {
    pub label: Seq<char>,
    pub artists: Seq<ArtistModel>,
}

impl DeepView for SongPerformance {
    type V = SongPerformanceModel;

    open spec fn deep_view(&self) -> SongPerformanceModel {
        SongPerformanceModel {
            label: self.label.deep_view(),
            artists: self.artists.deep_view(),
        }
    }
}

impl Decode for SongPerformance {
    #[verifier::opaque]
    open spec fn decoded(j: JsonModel) -> Result<SongPerformanceModel, SchemaFault> {
        let label = field::<String>(j, "label"@);
        let artists = field::<Vec<Artist>>(j, "artists"@);
        if !(j is Object) {
            Err(fault(SchemaErrorKind::WrongType))
        } else if label is Err {
            Err(label->Err_0)
        } else if artists is Err {
            Err(artists->Err_0)
        } else {
            Ok(
                SongPerformanceModel {
                    label: label->Ok_0,
                    artists: artists->Ok_0,
                },
            )
        }
    }

    fn from_json(j: &Json) -> (r: Result<SongPerformance, SchemaError>) {
        reveal(<SongPerformance as Decode>::decoded);
        if !j.is_object() {
            return Err(SchemaError::at_root(SchemaErrorKind::WrongType));
        }
        let label = match read_field::<String>(j, "label") {
            Ok(value) => value,
            Err(e) => return Err(e),
        };
        let artists = match read_field::<Vec<Artist>>(j, "artists") {
            Ok(value) => value,
            Err(e) => return Err(e),
        };
        Ok(SongPerformance { label, artists })
    }
}

impl SongPerformance {
    /// Whether the record reads the member of that name.
    pub open spec fn reads(name: Seq<char>) -> bool {
        name == "label"@
        || name == "artists"@
    }

    /// What an object is read as depends on the members that the record
    /// reads alone: members of other names, wherever they stand, are ignored.
    pub proof fn lemma_other_members_ignored(
        first: Seq<(Seq<char>, JsonModel)>,
        second: Seq<(Seq<char>, JsonModel)>,
    )
        requires
            forall|name: Seq<char>|
                Self::reads(name) ==> member(first, name) == member(second, name),
        ensures
            Self::decoded(JsonModel::Object(first)) == Self::decoded(JsonModel::Object(second)),
    {
        reveal(<SongPerformance as Decode>::decoded);
        assert(Self::reads("label"@));
        assert(Self::reads("artists"@));
    }
}

impl Encode for SongPerformance {
    open spec fn encoded(m: SongPerformanceModel) -> JsonModel {
        let members = Seq::empty();
        let members = with_field::<String>(members, "label"@, m.label);
        let members = with_field::<Vec<Artist>>(members, "artists"@, m.artists);
        JsonModel::Object(members)
    }

    fn to_json(&self) -> (j: Json) {
        let mut members: Vec<(String, Json)> = Vec::new();
        assert(members_model(members@) == Seq::<(Seq<char>, JsonModel)>::empty());
        write_field::<String>(&mut members, "label", &self.label);
        write_field::<Vec<Artist>>(&mut members, "artists", &self.artists);
        Json::object(members)
    }

    proof fn lemma_round_trip(m: SongPerformanceModel) {
        broadcast use {
            lemma_member_none,
            lemma_member_with_field,
            lemma_member_with_optional_field,
            lemma_or_else_none,
            lemma_required_reads_back,
            lemma_optional_reads_back,
        };

        reveal(<SongPerformance as Decode>::decoded);
        reveal_strlit("label");
        reveal_strlit("artists");
        lemma_outline("label"@);
        lemma_outline("artists"@);
    }
}

/// A place where a song can be played.
#[derive(Debug, PartialEq)]
pub struct SongMedia {
    /// The address of the song at Spotify, with `:` in place of `/`.
    pub native_uri: Option<String>,
    /// The name of the uploader (SoundCloud).
    pub attribution: Option<String>,
    /// The song host provider `youtube`, `soundcloud` or `spotify`.
    pub provider: String,
    /// The second of the video at which the music starts (YouTube).
    pub start: Option<u32>,
    /// Media type: `video` or `audio`. Its member is called `type`.
    pub media_type: String,
    /// The url of the song in the media host.
    pub url: String,
}

/// The model of a [`SongMedia`].
pub struct SongMediaModel {
    pub native_uri: Option<Seq<char>>,
    pub attribution: Option<Seq<char>>,
    pub provider: Seq<char>,
    pub start: Option<u32>,
    pub media_type: Seq<char>,
    pub url: Seq<char>,
}

impl DeepView for SongMedia {
    type V = SongMediaModel;

    open spec fn deep_view(&self) -> SongMediaModel {
        SongMediaModel {
            native_uri: optional_model(self.native_uri),
            attribution: optional_model(self.attribution),
            provider: self.provider.deep_view(),
            start: optional_model(self.start),
            media_type: self.media_type.deep_view(),
            url: self.url.deep_view(),
        }
    }
}

impl Decode for SongMedia {
    #[verifier::opaque]
    open spec fn decoded(j: JsonModel) -> Result<SongMediaModel, SchemaFault> {
        let native_uri = optional_field::<String>(j, "native_uri"@);
        let attribution = optional_field::<String>(j, "attribution"@);
        let provider = field::<String>(j, "provider"@);
        let start = optional_field::<u32>(j, "start"@);
        let media_type = field::<String>(j, "type"@);
        let url = field::<String>(j, "url"@);
        if !(j is Object) {
            Err(fault(SchemaErrorKind::WrongType))
        } else if native_uri is Err {
            Err(native_uri->Err_0)
        } else if attribution is Err {
            Err(attribution->Err_0)
        } else if provider is Err {
            Err(provider->Err_0)
        } else if start is Err {
            Err(start->Err_0)
        } else if media_type is Err {
            Err(media_type->Err_0)
        } else if url is Err {
            Err(url->Err_0)
        } else {
            Ok(
                SongMediaModel {
                    native_uri: native_uri->Ok_0,
                    attribution: attribution->Ok_0,
                    provider: provider->Ok_0,
                    start: start->Ok_0,
                    media_type: media_type->Ok_0,
                    url: url->Ok_0,
                },
            )
        }
    }

    fn from_json(j: &Json) -> (r: Result<SongMedia, SchemaError>) {
        reveal(<SongMedia as Decode>::decoded);
        if !j.is_object() {
            return Err(SchemaError::at_root(SchemaErrorKind::WrongType));
        }
        let native_uri = match read_optional_field::<String>(j, "native_uri") {
            Ok(value) => value,
            Err(e) => return Err(e),
        };
        let attribution = match read_optional_field::<String>(j, "attribution") {
            Ok(value) => value,
            Err(e) => return Err(e),
        };
        let provider = match read_field::<String>(j, "provider") {
            Ok(value) => value,
            Err(e) => return Err(e),
        };
        let start = match read_optional_field::<u32>(j, "start") {
            Ok(value) => value,
            Err(e) => return Err(e),
        };
        let media_type = match read_field::<String>(j, "type") {
            Ok(value) => value,
            Err(e) => return Err(e),
        };
        let url = match read_field::<String>(j, "url") {
            Ok(value) => value,
            Err(e) => return Err(e),
        };
        Ok(SongMedia { native_uri, attribution, provider, start, media_type, url })
    }
}

impl SongMedia {
    /// Whether the record reads the member of that name.
    pub open spec fn reads(name: Seq<char>) -> bool {
        name == "native_uri"@
        || name == "attribution"@
        || name == "provider"@
        || name == "start"@
        || name == "type"@
        || name == "url"@
    }

    /// What an object is read as depends on the members that the record
    /// reads alone: members of other names, wherever they stand, are ignored.
    pub proof fn lemma_other_members_ignored(
        first: Seq<(Seq<char>, JsonModel)>,
        second: Seq<(Seq<char>, JsonModel)>,
    )
        requires
            forall|name: Seq<char>|
                Self::reads(name) ==> member(first, name) == member(second, name),
        ensures
            Self::decoded(JsonModel::Object(first)) == Self::decoded(JsonModel::Object(second)),
    {
        reveal(<SongMedia as Decode>::decoded);
        assert(Self::reads("native_uri"@));
        assert(Self::reads("attribution"@));
        assert(Self::reads("provider"@));
        assert(Self::reads("start"@));
        assert(Self::reads("type"@));
        assert(Self::reads("url"@));
    }
}

impl Encode for SongMedia {
    open spec fn encoded(m: SongMediaModel) -> JsonModel {
        let members = Seq::empty();
        let members = with_optional_field::<String>(members, "native_uri"@, m.native_uri);
        let members = with_optional_field::<String>(members, "attribution"@, m.attribution);
        let members = with_field::<String>(members, "provider"@, m.provider);
        let members = with_optional_field::<u32>(members, "start"@, m.start);
        let members = with_field::<String>(members, "type"@, m.media_type);
        let members = with_field::<String>(members, "url"@, m.url);
        JsonModel::Object(members)
    }

    fn to_json(&self) -> (j: Json) {
        let mut members: Vec<(String, Json)> = Vec::new();
        assert(members_model(members@) == Seq::<(Seq<char>, JsonModel)>::empty());
        write_optional_field::<String>(&mut members, "native_uri", &self.native_uri);
        write_optional_field::<String>(&mut members, "attribution", &self.attribution);
        write_field::<String>(&mut members, "provider", &self.provider);
        write_optional_field::<u32>(&mut members, "start", &self.start);
        write_field::<String>(&mut members, "type", &self.media_type);
        write_field::<String>(&mut members, "url", &self.url);
        Json::object(members)
    }

    proof fn lemma_round_trip(m: SongMediaModel) {
        broadcast use {
            lemma_member_none,
            lemma_member_with_field,
            lemma_member_with_optional_field,
            lemma_or_else_none,
            lemma_required_reads_back,
            lemma_optional_reads_back,
        };

        reveal(<SongMedia as Decode>::decoded);
        reveal_strlit("native_uri");
        reveal_strlit("attribution");
        reveal_strlit("provider");
        reveal_strlit("start");
        reveal_strlit("type");
        reveal_strlit("url");
        lemma_outline("native_uri"@);
        lemma_outline("attribution"@);
        lemma_outline("provider"@);
        lemma_outline("start"@);
        lemma_outline("type"@);
        lemma_outline("url"@);
    }
}

/// Counts of what was contributed to a song.
#[derive(Debug, PartialEq)]
pub struct SongStatus {
    /// Number of annotations accepted on this song.
    pub accepted_annotations: Option<u32>,
    /// Number of contributors.
    pub contributors: Option<u32>,
    /// Number of users who have earned iq.
    pub iq_earners: Option<u32>,
    /// Number of transcribers.
    pub transcribers: Option<u32>,
    /// Number of verified annotations.
    pub verified_annotations: Option<u32>,
    /// Number of unreviewed annotations.
    pub unreviewed_annotations: u32,
    /// Whether the song is trending.
    pub hot: bool,
    /// Number of page views.
    pub pageviews: Option<u32>,
}

/// The model of a [`SongStatus`].
pub struct SongStatusModel {
    pub accepted_annotations: Option<u32>,
    pub contributors: Option<u32>,
    pub iq_earners: Option<u32>,
    pub transcribers: Option<u32>,
    pub verified_annotations: Option<u32>,
    pub unreviewed_annotations: u32,
    pub hot: bool,
    pub pageviews: Option<u32>,
}

impl DeepView for SongStatus {
    type V = SongStatusModel;

    open spec fn deep_view(&self) -> SongStatusModel {
        SongStatusModel {
            accepted_annotations: optional_model(self.accepted_annotations),
            contributors: optional_model(self.contributors),
            iq_earners: optional_model(self.iq_earners),
            transcribers: optional_model(self.transcribers),
            verified_annotations: optional_model(self.verified_annotations),
            unreviewed_annotations: self.unreviewed_annotations.deep_view(),
            hot: self.hot.deep_view(),
            pageviews: optional_model(self.pageviews),
        }
    }
}

impl Decode for SongStatus {
    #[verifier::opaque]
    open spec fn decoded(j: JsonModel) -> Result<SongStatusModel, SchemaFault> {
        let accepted_annotations = optional_field::<u32>(j, "accepted_annotations"@);
        let contributors = optional_field::<u32>(j, "contributors"@);
        let iq_earners = optional_field::<u32>(j, "iq_earners"@);
        let transcribers = optional_field::<u32>(j, "transcribers"@);
        let verified_annotations = optional_field::<u32>(j, "verified_annotations"@);
        let unreviewed_annotations = field::<u32>(j, "unreviewed_annotations"@);
        let hot = field::<bool>(j, "hot"@);
        let pageviews = optional_field::<u32>(j, "pageviews"@);
        if !(j is Object) {
            Err(fault(SchemaErrorKind::WrongType))
        } else if accepted_annotations is Err {
            Err(accepted_annotations->Err_0)
        } else if contributors is Err {
            Err(contributors->Err_0)
        } else if iq_earners is Err {
            Err(iq_earners->Err_0)
        } else if transcribers is Err {
            Err(transcribers->Err_0)
        } else if verified_annotations is Err {
            Err(verified_annotations->Err_0)
        } else if unreviewed_annotations is Err {
            Err(unreviewed_annotations->Err_0)
        } else if hot is Err {
            Err(hot->Err_0)
        } else if pageviews is Err {
            Err(pageviews->Err_0)
        } else {
            Ok(
                SongStatusModel {
                    accepted_annotations: accepted_annotations->Ok_0,
                    contributors: contributors->Ok_0,
                    iq_earners: iq_earners->Ok_0,
                    transcribers: transcribers->Ok_0,
                    verified_annotations: verified_annotations->Ok_0,
                    unreviewed_annotations: unreviewed_annotations->Ok_0,
                    hot: hot->Ok_0,
                    pageviews: pageviews->Ok_0,
                },
            )
        }
    }

    fn from_json(j: &Json) -> (r: Result<SongStatus, SchemaError>) {
        reveal(<SongStatus as Decode>::decoded);
        if !j.is_object() {
            return Err(SchemaError::at_root(SchemaErrorKind::WrongType));
        }
        let accepted_annotations = match read_optional_field::<u32>(j, "accepted_annotations") {
            Ok(value) => value,
            Err(e) => return Err(e),
        };
        let contributors = match read_optional_field::<u32>(j, "contributors") {
            Ok(value) => value,
            Err(e) => return Err(e),
        };
        let iq_earners = match read_optional_field::<u32>(j, "iq_earners") {
            Ok(value) => value,
            Err(e) => return Err(e),
        };
        let transcribers = match read_optional_field::<u32>(j, "transcribers") {
            Ok(value) => value,
            Err(e) => return Err(e),
        };
        let verified_annotations = match read_optional_field::<u32>(j, "verified_annotations") {
            Ok(value) => value,
            Err(e) => return Err(e),
        };
        let unreviewed_annotations = match read_field::<u32>(j, "unreviewed_annotations") {
            Ok(value) => value,
            Err(e) => return Err(e),
        };
        let hot = match read_field::<bool>(j, "hot") {
            Ok(value) => value,
            Err(e) => return Err(e),
        };
        let pageviews = match read_optional_field::<u32>(j, "pageviews") {
            Ok(value) => value,
            Err(e) => return Err(e),
        };
        Ok(
            SongStatus {
                accepted_annotations,
                contributors,
                iq_earners,
                transcribers,
                verified_annotations,
                unreviewed_annotations,
                hot,
                pageviews,
            },
        )
    }
}

impl SongStatus {
    /// Whether the record reads the member of that name.
    pub open spec fn reads(name: Seq<char>) -> bool {
        name == "accepted_annotations"@
        || name == "contributors"@
        || name == "iq_earners"@
        || name == "transcribers"@
        || name == "verified_annotations"@
        || name == "unreviewed_annotations"@
        || name == "hot"@
        || name == "pageviews"@
    }

    /// What an object is read as depends on the members that the record
    /// reads alone: members of other names, wherever they stand, are ignored.
    pub proof fn lemma_other_members_ignored(
        first: Seq<(Seq<char>, JsonModel)>,
        second: Seq<(Seq<char>, JsonModel)>,
    )
        requires
            forall|name: Seq<char>|
                Self::reads(name) ==> member(first, name) == member(second, name),
        ensures
            Self::decoded(JsonModel::Object(first)) == Self::decoded(JsonModel::Object(second)),
    {
        reveal(<SongStatus as Decode>::decoded);
        assert(Self::reads("accepted_annotations"@));
        assert(Self::reads("contributors"@));
        assert(Self::reads("iq_earners"@));
        assert(Self::reads("transcribers"@));
        assert(Self::reads("verified_annotations"@));
        assert(Self::reads("unreviewed_annotations"@));
        assert(Self::reads("hot"@));
        assert(Self::reads("pageviews"@));
    }
}

impl Encode for SongStatus {
    open spec fn encoded(m: SongStatusModel) -> JsonModel {
        let members = Seq::empty();
        let members = with_optional_field::<u32>(
            members,
            "accepted_annotations"@,
            m.accepted_annotations,
        );
        let members = with_optional_field::<u32>(members, "contributors"@, m.contributors);
        let members = with_optional_field::<u32>(members, "iq_earners"@, m.iq_earners);
        let members = with_optional_field::<u32>(members, "transcribers"@, m.transcribers);
        let members = with_optional_field::<u32>(
            members,
            "verified_annotations"@,
            m.verified_annotations,
        );
        let members = with_field::<u32>(
            members,
            "unreviewed_annotations"@,
            m.unreviewed_annotations,
        );
        let members = with_field::<bool>(members, "hot"@, m.hot);
        let members = with_optional_field::<u32>(members, "pageviews"@, m.pageviews);
        JsonModel::Object(members)
    }

    fn to_json(&self) -> (j: Json) {
        let mut members: Vec<(String, Json)> = Vec::new();
        assert(members_model(members@) == Seq::<(Seq<char>, JsonModel)>::empty());
        write_optional_field::<u32>(
            &mut members,
            "accepted_annotations",
            &self.accepted_annotations,
        );
        write_optional_field::<u32>(&mut members, "contributors", &self.contributors);
        write_optional_field::<u32>(&mut members, "iq_earners", &self.iq_earners);
        write_optional_field::<u32>(&mut members, "transcribers", &self.transcribers);
        write_optional_field::<u32>(
            &mut members,
            "verified_annotations",
            &self.verified_annotations,
        );
        write_field::<u32>(&mut members, "unreviewed_annotations", &self.unreviewed_annotations);
        write_field::<bool>(&mut members, "hot", &self.hot);
        write_optional_field::<u32>(&mut members, "pageviews", &self.pageviews);
        Json::object(members)
    }

    proof fn lemma_round_trip(m: SongStatusModel) {
        broadcast use {
            lemma_member_none,
            lemma_member_with_field,
            lemma_member_with_optional_field,
            lemma_or_else_none,
            lemma_required_reads_back,
            lemma_optional_reads_back,
        };

        reveal(<SongStatus as Decode>::decoded);
        reveal_strlit("accepted_annotations");
        reveal_strlit("contributors");
        reveal_strlit("iq_earners");
        reveal_strlit("transcribers");
        reveal_strlit("verified_annotations");
        reveal_strlit("unreviewed_annotations");
        reveal_strlit("hot");
        reveal_strlit("pageviews");
        lemma_outline("accepted_annotations"@);
        lemma_outline("contributors"@);
        lemma_outline("iq_earners"@);
        lemma_outline("transcribers"@);
        lemma_outline("verified_annotations"@);
        lemma_outline("unreviewed_annotations"@);
        lemma_outline("hot"@);
        lemma_outline("pageviews"@);
    }
}

/// An artist.
#[derive(Debug, PartialEq)]
pub struct Artist {
    /// Path of the API.
    pub api_path: String,
    /// Artist header image.
    pub header_image_url: String,
    /// Artist id.
    pub id: u32,
    /// Artist image.
    pub image_url: String,
    /// First letter of the artist name.
    /// Sent only to a `user-core` level token.
    pub index_character: Option<char>,
    /// Whether the artist is verified as a meme.
    pub is_meme_verified: bool,
    /// Whether the artist is verified.
    pub is_verified: bool,
    /// Name of the artist.
    pub name: String,
    /// Sent only to a `user-core` level token.
    pub slug: Option<String>,
    /// Url of the artist page.
    pub url: String,
    /// How much iq this artist has.
    pub iq: Option<u32>,
}

/// The model of an [`Artist`].
pub struct ArtistModel {
    pub api_path: Seq<char>,
    pub header_image_url: Seq<char>,
    pub id: u32,
    pub image_url: Seq<char>,
    pub index_character: Option<char>,
    pub is_meme_verified: bool,
    pub is_verified: bool,
    pub name: Seq<char>,
    pub slug: Option<Seq<char>>,
    pub url: Seq<char>,
    pub iq: Option<u32>,
}

impl DeepView for Artist {
    type V = ArtistModel;

    open spec fn deep_view(&self) -> ArtistModel {
        ArtistModel {
            api_path: self.api_path.deep_view(),
            header_image_url: self.header_image_url.deep_view(),
            id: self.id.deep_view(),
            image_url: self.image_url.deep_view(),
            index_character: optional_model(self.index_character),
            is_meme_verified: self.is_meme_verified.deep_view(),
            is_verified: self.is_verified.deep_view(),
            name: self.name.deep_view(),
            slug: optional_model(self.slug),
            url: self.url.deep_view(),
            iq: optional_model(self.iq),
        }
    }
}

impl Decode for Artist {
    #[verifier::opaque]
    open spec fn decoded(j: JsonModel) -> Result<ArtistModel, SchemaFault> {
        let api_path = field::<String>(j, "api_path"@);
        let header_image_url = field::<String>(j, "header_image_url"@);
        let id = field::<u32>(j, "id"@);
        let image_url = field::<String>(j, "image_url"@);
        let index_character = optional_field::<char>(j, "index_character"@);
        let is_meme_verified = field::<bool>(j, "is_meme_verified"@);
        let is_verified = field::<bool>(j, "is_verified"@);
        let name = field::<String>(j, "name"@);
        let slug = optional_field::<String>(j, "slug"@);
        let url = field::<String>(j, "url"@);
        let iq = optional_field::<u32>(j, "iq"@);
        if !(j is Object) {
            Err(fault(SchemaErrorKind::WrongType))
        } else if api_path is Err {
            Err(api_path->Err_0)
        } else if header_image_url is Err {
            Err(header_image_url->Err_0)
        } else if id is Err {
            Err(id->Err_0)
        } else if image_url is Err {
            Err(image_url->Err_0)
        } else if index_character is Err {
            Err(index_character->Err_0)
        } else if is_meme_verified is Err {
            Err(is_meme_verified->Err_0)
        } else if is_verified is Err {
            Err(is_verified->Err_0)
        } else if name is Err {
            Err(name->Err_0)
        } else if slug is Err {
            Err(slug->Err_0)
        } else if url is Err {
            Err(url->Err_0)
        } else if iq is Err {
            Err(iq->Err_0)
        } else {
            Ok(
                ArtistModel {
                    api_path: api_path->Ok_0,
                    header_image_url: header_image_url->Ok_0,
                    id: id->Ok_0,
                    image_url: image_url->Ok_0,
                    index_character: index_character->Ok_0,
                    is_meme_verified: is_meme_verified->Ok_0,
                    is_verified: is_verified->Ok_0,
                    name: name->Ok_0,
                    slug: slug->Ok_0,
                    url: url->Ok_0,
                    iq: iq->Ok_0,
                },
            )
        }
    }

    fn from_json(j: &Json) -> (r: Result<Artist, SchemaError>) {
        reveal(<Artist as Decode>::decoded);
        if !j.is_object() {
            return Err(SchemaError::at_root(SchemaErrorKind::WrongType));
        }
        let api_path = match read_field::<String>(j, "api_path") {
            Ok(value) => value,
            Err(e) => return Err(e),
        };
        let header_image_url = match read_field::<String>(j, "header_image_url") {
            Ok(value) => value,
            Err(e) => return Err(e),
        };
        let id = match read_field::<u32>(j, "id") {
            Ok(value) => value,
            Err(e) => return Err(e),
        };
        let image_url = match read_field::<String>(j, "image_url") {
            Ok(value) => value,
            Err(e) => return Err(e),
        };
        let index_character = match read_optional_field::<char>(j, "index_character") {
            Ok(value) => value,
            Err(e) => return Err(e),
        };
        let is_meme_verified = match read_field::<bool>(j, "is_meme_verified") {
            Ok(value) => value,
            Err(e) => return Err(e),
        };
        let is_verified = match read_field::<bool>(j, "is_verified") {
            Ok(value) => value,
            Err(e) => return Err(e),
        };
        let name = match read_field::<String>(j, "name") {
            Ok(value) => value,
            Err(e) => return Err(e),
        };
        let slug = match read_optional_field::<String>(j, "slug") {
            Ok(value) => value,
            Err(e) => return Err(e),
        };
        let url = match read_field::<String>(j, "url") {
            Ok(value) => value,
            Err(e) => return Err(e),
        };
        let iq = match read_optional_field::<u32>(j, "iq") {
            Ok(value) => value,
            Err(e) => return Err(e),
        };
        Ok(
            Artist {
                api_path,
                header_image_url,
                id,
                image_url,
                index_character,
                is_meme_verified,
                is_verified,
                name,
                slug,
                url,
                iq,
            },
        )
    }
}

impl Artist {
    /// Whether the record reads the member of that name.
    pub open spec fn reads(name: Seq<char>) -> bool {
        name == "api_path"@
        || name == "header_image_url"@
        || name == "id"@
        || name == "image_url"@
        || name == "index_character"@
        || name == "is_meme_verified"@
        || name == "is_verified"@
        || name == "name"@
        || name == "slug"@
        || name == "url"@
        || name == "iq"@
    }

    /// What an object is read as depends on the members that the record
    /// reads alone: members of other names, wherever they stand, are ignored.
    pub proof fn lemma_other_members_ignored(
        first: Seq<(Seq<char>, JsonModel)>,
        second: Seq<(Seq<char>, JsonModel)>,
    )
        requires
            forall|name: Seq<char>|
                Self::reads(name) ==> member(first, name) == member(second, name),
        ensures
            Self::decoded(JsonModel::Object(first)) == Self::decoded(JsonModel::Object(second)),
    {
        reveal(<Artist as Decode>::decoded);
        assert(Self::reads("api_path"@));
        assert(Self::reads("header_image_url"@));
        assert(Self::reads("id"@));
        assert(Self::reads("image_url"@));
        assert(Self::reads("index_character"@));
        assert(Self::reads("is_meme_verified"@));
        assert(Self::reads("is_verified"@));
        assert(Self::reads("name"@));
        assert(Self::reads("slug"@));
        assert(Self::reads("url"@));
        assert(Self::reads("iq"@));
    }
}

impl Encode for Artist {
    open spec fn encoded(m: ArtistModel) -> JsonModel {
        let members = Seq::empty();
        let members = with_field::<String>(members, "api_path"@, m.api_path);
        let members = with_field::<String>(members, "header_image_url"@, m.header_image_url);
        let members = with_field::<u32>(members, "id"@, m.id);
        let members = with_field::<String>(members, "image_url"@, m.image_url);
        let members = with_optional_field::<char>(members, "index_character"@, m.index_character);
        let members = with_field::<bool>(members, "is_meme_verified"@, m.is_meme_verified);
        let members = with_field::<bool>(members, "is_verified"@, m.is_verified);
        let members = with_field::<String>(members, "name"@, m.name);
        let members = with_optional_field::<String>(members, "slug"@, m.slug);
        let members = with_field::<String>(members, "url"@, m.url);
        let members = with_optional_field::<u32>(members, "iq"@, m.iq);
        JsonModel::Object(members)
    }

    fn to_json(&self) -> (j: Json) {
        let mut members: Vec<(String, Json)> = Vec::new();
        assert(members_model(members@) == Seq::<(Seq<char>, JsonModel)>::empty());
        write_field::<String>(&mut members, "api_path", &self.api_path);
        write_field::<String>(&mut members, "header_image_url", &self.header_image_url);
        write_field::<u32>(&mut members, "id", &self.id);
        write_field::<String>(&mut members, "image_url", &self.image_url);
        write_optional_field::<char>(&mut members, "index_character", &self.index_character);
        write_field::<bool>(&mut members, "is_meme_verified", &self.is_meme_verified);
        write_field::<bool>(&mut members, "is_verified", &self.is_verified);
        write_field::<String>(&mut members, "name", &self.name);
        write_optional_field::<String>(&mut members, "slug", &self.slug);
        write_field::<String>(&mut members, "url", &self.url);
        write_optional_field::<u32>(&mut members, "iq", &self.iq);
        Json::object(members)
    }

    proof fn lemma_round_trip(m: ArtistModel) {
        broadcast use {
            lemma_member_none,
            lemma_member_with_field,
            lemma_member_with_optional_field,
            lemma_or_else_none,
            lemma_required_reads_back,
            lemma_optional_reads_back,
        };

        reveal(<Artist as Decode>::decoded);
        reveal_strlit("api_path");
        reveal_strlit("header_image_url");
        reveal_strlit("id");
        reveal_strlit("image_url");
        reveal_strlit("index_character");
        reveal_strlit("is_meme_verified");
        reveal_strlit("is_verified");
        reveal_strlit("name");
        reveal_strlit("slug");
        reveal_strlit("url");
        reveal_strlit("iq");
        lemma_outline("api_path"@);
        lemma_outline("header_image_url"@);
        lemma_outline("id"@);
        lemma_outline("image_url"@);
        lemma_outline("index_character"@);
        lemma_outline("is_meme_verified"@);
        lemma_outline("is_verified"@);
        lemma_outline("name"@);
        lemma_outline("slug"@);
        lemma_outline("url"@);
        lemma_outline("iq"@);
    }
}

} // verus!
