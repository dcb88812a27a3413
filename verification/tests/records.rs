use genius_rs::album::{Album, CoverArt};
use genius_rs::annotation::{Annotation, AnnotationAuthor, Referent};
use genius_rs::json::{Json, Number};
use genius_rs::schema::{from_text, to_text, Decode, Encode, PathStep, SchemaError, SchemaErrorKind};
use genius_rs::search::Hit;
use genius_rs::song::{
    Artist, Song, SongContributor, SongMedia, SongPerformance, SongRelationship, SongStatus,
    TrackingPaths,
};
use genius_rs::table::Table;
use genius_rs::user::{AvatarImage, Interactions, User, UserMetadata};
use genius_rs::{Body, Date};

const ARTIST: &str = r#"{"api_path":"/artists/1","header_image_url":"h","id":1,"image_url":"i","is_meme_verified":false,"is_verified":true,"name":"Sia","url":"u"}"#;

fn song_text_without(left_out: &str) -> String {
    let members = [
        ("annotation_count", "3".to_string()),
        ("api_path", "\"/songs/378195\"".to_string()),
        ("full_title", "\"Chandelier by Sia\"".to_string()),
        ("header_image_thumbnail_url", "\"t\"".to_string()),
        ("header_image_url", "\"h\"".to_string()),
        ("id", "378195".to_string()),
        ("lyrics_owner_id", "104344".to_string()),
        ("lyrics_state", "\"complete\"".to_string()),
        ("path", "\"/Sia-chandelier-lyrics\"".to_string()),
        ("song_art_image_thumbnail_url", "\"s\"".to_string()),
        ("song_art_image_url", "\"a\"".to_string()),
        ("stats", "{\"unreviewed_annotations\":0,\"hot\":false}".to_string()),
        ("title", "\"Chandelier\"".to_string()),
        ("title_with_featured", "\"Chandelier\"".to_string()),
        ("url", "\"https://genius.com/Sia-chandelier-lyrics\"".to_string()),
        ("primary_artist", ARTIST.to_string()),
    ];
    let mut text = String::from("{");
    let mut first = true;
    for (name, value) in members.iter() {
        if *name == left_out {
            continue;
        }
        if !first {
            text.push(',');
        }
        first = false;
        text.push_str(&format!("\"{}\":{}", name, value));
    }
    text.push('}');
    text
}

fn song_text() -> String {
    song_text_without("")
}

fn body() -> Body {
    Body {
        formats: vec![
            ("html".to_string(), Json::String("<p>Hello</p>".to_string())),
            ("plain".to_string(), Json::String("Hello".to_string())),
        ],
    }
}

fn field(name: &str) -> PathStep {
    PathStep::Field(name.to_string())
}

fn minimal_user_metadata() -> UserMetadata {
    UserMetadata {
        permissions: Vec::new(),
        excluded_permissions: Vec::new(),
        interactions: None,
    }
}

fn minimal_user() -> User {
    User {
        api_path: "api path".to_string(),
        avatar: Table { entries: Vec::new() },
        header_image_url: "header image url".to_string(),
        human_readable_role_for_display: None,
        id: 101,
        iq: None,
        login: "login".to_string(),
        name: "name".to_string(),
        role_for_display: None,
        url: "url".to_string(),
        current_user_metadata: minimal_user_metadata(),
    }
}

fn minimal_referent() -> Referent {
    Referent {
        _type: " type".to_string(),
        annotator_id: 103,
        annotator_login: "annotator login".to_string(),
        api_path: "api path".to_string(),
        classification: "classification".to_string(),
        fragment: "fragment".to_string(),
        id: 104,
        ios_app_url: None,
        is_description: true,
        is_image: None,
        path: "path".to_string(),
        range: Table { entries: vec![("content".to_string(), "all".to_string())] },
        song_id: None,
        url: "url".to_string(),
        current_user_metadata: None,
        annotations: Vec::new(),
    }
}

fn minimal_song_status() -> SongStatus {
    SongStatus {
        accepted_annotations: None,
        contributors: None,
        iq_earners: None,
        transcribers: None,
        verified_annotations: None,
        unreviewed_annotations: 106,
        hot: false,
        pageviews: None,
    }
}

fn minimal_artist() -> Artist {
    Artist {
        api_path: "api path".to_string(),
        header_image_url: "header image url".to_string(),
        id: 107,
        image_url: "image url".to_string(),
        index_character: None,
        is_meme_verified: true,
        is_verified: false,
        name: "name".to_string(),
        slug: None,
        url: "url".to_string(),
        iq: None,
    }
}

fn minimal_album() -> Album {
    Album {
        api_path: "api path".to_string(),
        comment_count: None,
        cover_art_thumbnail_url: None,
        cover_art_url: "cover art url".to_string(),
        custom_header_image_url: None,
        full_title: "full title".to_string(),
        header_image_url: None,
        id: 108,
        lock_state: None,
        name: "name".to_string(),
        name_with_artist: None,
        pyongs_count: None,
        release_date: None,
        release_date_components: None,
        url: "url".to_string(),
        current_user_metadata: None,
        album_pageviews: None,
        artist: minimal_artist(),
        cover_arts: None,
        description_annotation: None,
        song_performances: None,
    }
}

fn minimal_song() -> Song {
    Song {
        annotation_count: 109,
        api_path: "api path".to_string(),
        apple_music_id: None,
        apple_music_player_url: None,
        comment_count: None,
        custom_header_image_url: None,
        custom_song_art_image_url: None,
        description: None,
        description_preview: None,
        embed_content: None,
        facebook_share_message_without_url: None,
        featured_video: None,
        full_title: "full title".to_string(),
        has_instagram_reel_annotations: None,
        header_image_thumbnail_url: "header image thumbnail url".to_string(),
        header_image_url: "header image url".to_string(),
        hidden: None,
        id: 110,
        instrumental: None,
        is_music: None,
        lyrics: None,
        lyrics_owner_id: 111,
        lyrics_state: "lyrics state".to_string(),
        lyrics_updated_at: None,
        path: "path".to_string(),
        pending_lyrics_edits_count: None,
        published: None,
        pusher_channel: None,
        release_date_components: None,
        pyongs_count: None,
        recording_location: None,
        release_date: None,
        release_date_for_display: None,
        share_url: None,
        song_art_image_thumbnail_url: "song art image thumbnail url".to_string(),
        song_art_image_url: "song art image url".to_string(),
        soundcloud_url: None,
        spotify_uuid: None,
        stats: minimal_song_status(),
        title: "title".to_string(),
        title_with_featured: "title with featured".to_string(),
        tracking_paths: None,
        twitter_share_message: None,
        twitter_share_message_without_url: None,
        updated_by_human_at: None,
        url: "url".to_string(),
        viewable_by_roles: None,
        youtube_start: None,
        youtube_url: None,
        current_user_metadata: None,
        primary_artist: minimal_artist(),
        album: None,
        albums: None,
        custom_performances: None,
        description_annotation: None,
        featured_artists: None,
        media: None,
        producer_artists: None,
        song_relationships: None,
        verified_annotations_by: None,
        verified_contributors: None,
        verified_lyrics_by: None,
        writer_artists: None,
    }
}

fn full_interactions() -> Interactions {
    Interactions {
        cosign: Some(true),
        pyong: Some(false),
        vote: Some(112),
    }
}

fn full_user_metadata() -> UserMetadata {
    UserMetadata {
        permissions: vec!["permissions".to_string()],
        excluded_permissions: vec!["excluded permissions".to_string()],
        interactions: Some(full_interactions()),
    }
}

fn full_avatar_image() -> AvatarImage {
    AvatarImage {
        url: "url".to_string(),
        bounding_box: Table { entries: vec![("height".to_string(), 32), ("width".to_string(), 48)] },
    }
}

fn full_user() -> User {
    User {
        api_path: "api path".to_string(),
        avatar: Table { entries: vec![("medium".to_string(), full_avatar_image()), ("tiny".to_string(), full_avatar_image())] },
        header_image_url: "header image url".to_string(),
        human_readable_role_for_display: Some("human readable role for display".to_string()),
        id: 113,
        iq: Some(114),
        login: "login".to_string(),
        name: "name".to_string(),
        role_for_display: Some("role for display".to_string()),
        url: "url".to_string(),
        current_user_metadata: full_user_metadata(),
    }
}

fn full_annotation_author() -> AnnotationAuthor {
    AnnotationAuthor {
        attribution: Number::Fraction("0.5".to_string()),
        user: full_user(),
    }
}

fn full_annotation() -> Annotation {
    Annotation {
        api_path: "api path".to_string(),
        body: body(),
        comment_count: Some(115),
        community: false,
        has_voters: true,
        id: 116,
        pinned: true,
        share_url: "share url".to_string(),
        state: "state".to_string(),
        url: "url".to_string(),
        verified: true,
        votes_total: Some(-7),
        current_user_metadata: full_user_metadata(),
        authors: vec![full_annotation_author()],
    }
}

fn full_referent() -> Referent {
    Referent {
        _type: " type".to_string(),
        annotator_id: 117,
        annotator_login: "annotator login".to_string(),
        api_path: "api path".to_string(),
        classification: "classification".to_string(),
        fragment: "fragment".to_string(),
        id: 118,
        ios_app_url: Some("ios app url".to_string()),
        is_description: true,
        is_image: Some(true),
        path: "path".to_string(),
        range: Table { entries: vec![("content".to_string(), "all".to_string())] },
        song_id: Some(119),
        url: "url".to_string(),
        current_user_metadata: Some(full_user_metadata()),
        annotations: vec![full_annotation()],
    }
}

fn full_cover_art() -> CoverArt {
    CoverArt {
        annotated: false,
        api_path: "api path".to_string(),
        id: 120,
        image_url: "image url".to_string(),
        thumbnail_image_url: "thumbnail image url".to_string(),
        url: "url".to_string(),
    }
}

fn full_date() -> Date {
    Date {
        year: Some(121),
        month: Some(122),
        day: Some(123),
    }
}

fn full_tracking_paths() -> TrackingPaths {
    TrackingPaths {
        aggregate: "aggregate".to_string(),
        concurrent: "concurrent".to_string(),
    }
}

fn full_song_status() -> SongStatus {
    SongStatus {
        accepted_annotations: Some(124),
        contributors: Some(125),
        iq_earners: Some(126),
        transcribers: Some(127),
        verified_annotations: Some(128),
        unreviewed_annotations: 129,
        hot: false,
        pageviews: Some(130),
    }
}

fn full_artist() -> Artist {
    Artist {
        api_path: "api path".to_string(),
        header_image_url: "header image url".to_string(),
        id: 131,
        image_url: "image url".to_string(),
        index_character: Some('a'),
        is_meme_verified: true,
        is_verified: false,
        name: "name".to_string(),
        slug: Some("slug".to_string()),
        url: "url".to_string(),
        iq: Some(132),
    }
}

fn full_song_performance() -> SongPerformance {
    SongPerformance {
        label: "label".to_string(),
        artists: vec![full_artist()],
    }
}

fn full_song_media() -> SongMedia {
    SongMedia {
        native_uri: Some("native uri".to_string()),
        attribution: Some("attribution".to_string()),
        provider: "provider".to_string(),
        start: Some(133),
        media_type: "media type".to_string(),
        url: "url".to_string(),
    }
}

fn full_song_contributor() -> SongContributor {
    SongContributor {
        contributions: vec!["contributions".to_string()],
        artist: full_artist(),
        user: Some(full_user()),
    }
}

fn full_album() -> Album {
    Album {
        api_path: "api path".to_string(),
        comment_count: Some(134),
        cover_art_thumbnail_url: Some("cover art thumbnail url".to_string()),
        cover_art_url: "cover art url".to_string(),
        custom_header_image_url: Some("custom header image url".to_string()),
        full_title: "full title".to_string(),
        header_image_url: Some("header image url".to_string()),
        id: 135,
        lock_state: Some("lock state".to_string()),
        name: "name".to_string(),
        name_with_artist: Some("name with artist".to_string()),
        pyongs_count: Some(136),
        release_date: Some("release date".to_string()),
        release_date_components: Some(full_date()),
        url: "url".to_string(),
        current_user_metadata: Some(full_user_metadata()),
        album_pageviews: Some(137),
        artist: full_artist(),
        cover_arts: Some(vec![full_cover_art()]),
        description_annotation: Some(full_referent()),
        song_performances: Some(vec![full_song_performance()]),
    }
}

fn full_song() -> Song {
    Song {
        annotation_count: 138,
        api_path: "api path".to_string(),
        apple_music_id: Some("apple music id".to_string()),
        apple_music_player_url: Some("apple music player url".to_string()),
        comment_count: Some(139),
        custom_header_image_url: Some("custom header image url".to_string()),
        custom_song_art_image_url: Some("custom song art image url".to_string()),
        description: Some(body()),
        description_preview: Some("description preview".to_string()),
        embed_content: Some("embed content".to_string()),
        facebook_share_message_without_url: Some("facebook share message without url".to_string()),
        featured_video: Some(true),
        full_title: "full title".to_string(),
        has_instagram_reel_annotations: Some(true),
        header_image_thumbnail_url: "header image thumbnail url".to_string(),
        header_image_url: "header image url".to_string(),
        hidden: Some(true),
        id: 140,
        instrumental: Some(true),
        is_music: Some(true),
        lyrics: Some(body()),
        lyrics_owner_id: 141,
        lyrics_state: "lyrics state".to_string(),
        lyrics_updated_at: Some(142),
        path: "path".to_string(),
        pending_lyrics_edits_count: Some(143),
        published: Some(false),
        pusher_channel: Some("pusher channel".to_string()),
        release_date_components: Some(full_date()),
        pyongs_count: Some(144),
        recording_location: Some("recording location".to_string()),
        release_date: Some("release date".to_string()),
        release_date_for_display: Some("release date for display".to_string()),
        share_url: Some("share url".to_string()),
        song_art_image_thumbnail_url: "song art image thumbnail url".to_string(),
        song_art_image_url: "song art image url".to_string(),
        soundcloud_url: Some("soundcloud url".to_string()),
        spotify_uuid: Some("spotify uuid".to_string()),
        stats: full_song_status(),
        title: "title".to_string(),
        title_with_featured: "title with featured".to_string(),
        tracking_paths: Some(full_tracking_paths()),
        twitter_share_message: Some("twitter share message".to_string()),
        twitter_share_message_without_url: Some("twitter share message without url".to_string()),
        updated_by_human_at: Some(145),
        url: "url".to_string(),
        viewable_by_roles: Some(vec!["viewable by roles".to_string()]),
        youtube_start: Some("youtube start".to_string()),
        youtube_url: Some("youtube url".to_string()),
        current_user_metadata: Some(full_user_metadata()),
        primary_artist: full_artist(),
        album: Some(full_album()),
        albums: Some(vec![full_album()]),
        custom_performances: Some(vec![full_song_performance()]),
        description_annotation: Some(full_referent()),
        featured_artists: Some(vec![full_artist()]),
        media: Some(vec![full_song_media()]),
        producer_artists: Some(vec![full_artist()]),
        song_relationships: Some(vec![SongRelationship {
            relationship_type: "samples".to_string(),
            songs: vec![None, Some(minimal_song()), None],
        }]),
        verified_annotations_by: Some(vec![full_user()]),
        verified_contributors: Some(vec![full_song_contributor()]),
        verified_lyrics_by: Some(vec![full_user()]),
        writer_artists: Some(vec![full_artist()]),
    }
}

#[test]
fn a_song_with_only_its_required_members_decodes() {
    let song: Song = from_text(&song_text()).unwrap();
    assert_eq!(song.id, 378195);
    assert_eq!(song.title, "Chandelier");
    assert_eq!(song.primary_artist.name, "Sia");
    assert_eq!(song.stats.hot, false);
    assert_eq!(song.stats.pageviews, None);
    assert_eq!(song.apple_music_id, None);
    assert_eq!(song.pyongs_count, None);
    assert_eq!(song.album, None);
    assert_eq!(song.song_relationships, None);
    assert_eq!(song.primary_artist.iq, None);
    assert_eq!(song.primary_artist.index_character, None);
}

#[test]
fn a_song_without_its_id_is_a_schema_error() {
    let r: Result<Song, SchemaError> = from_text(&song_text_without("id"));
    assert_eq!(
        r,
        Err(SchemaError { kind: SchemaErrorKind::MissingField, path: vec![field("id")] })
    );
}

#[test]
fn every_required_member_of_a_song_is_missed() {
    for name in [
        "annotation_count",
        "api_path",
        "full_title",
        "header_image_thumbnail_url",
        "header_image_url",
        "id",
        "lyrics_owner_id",
        "lyrics_state",
        "path",
        "song_art_image_thumbnail_url",
        "song_art_image_url",
        "stats",
        "title",
        "title_with_featured",
        "url",
        "primary_artist",
    ] {
        let r: Result<Song, SchemaError> = from_text(&song_text_without(name));
        assert_eq!(
            r,
            Err(SchemaError { kind: SchemaErrorKind::MissingField, path: vec![field(name)] })
        );
    }
}

#[test]
fn the_first_fault_in_the_order_of_the_record_is_reported() {
    let text = song_text_without("title").replace("\"id\":378195", "\"id\":\"x\"");
    let r: Result<Song, SchemaError> = from_text(&text);
    assert_eq!(r, Err(SchemaError { kind: SchemaErrorKind::WrongType, path: vec![field("id")] }));
}

#[test]
fn a_wrong_type_deep_in_a_song_is_named_by_its_path() {
    let text = song_text().replace("\"id\":1,", "\"id\":\"one\",");
    let r: Result<Song, SchemaError> = from_text(&text);
    assert_eq!(
        r,
        Err(SchemaError {
            kind: SchemaErrorKind::WrongType,
            path: vec![field("primary_artist"), field("id")],
        })
    );
}

#[test]
fn a_value_that_is_no_object_is_no_song() {
    let r: Result<Song, SchemaError> = from_text("[1, 2]");
    assert_eq!(r, Err(SchemaError { kind: SchemaErrorKind::WrongType, path: vec![] }));
}

#[test]
fn a_text_that_is_no_json_is_malformed() {
    let r: Result<Song, SchemaError> = from_text("{\"id\": ");
    assert_eq!(r, Err(SchemaError { kind: SchemaErrorKind::Malformed, path: vec![] }));
}

#[test]
fn unknown_members_of_a_song_are_ignored() {
    let text = song_text().replace(
        "\"id\":378195",
        "\"id\":378195,\"brand_new\":{\"deep\":[1,2,3]},\"another\":null",
    );
    let with_extras: Song = from_text(&text).unwrap();
    let without: Song = from_text(&song_text()).unwrap();
    assert_eq!(with_extras, without);
}

#[test]
fn an_optional_member_that_is_null_is_absent() {
    let text = song_text().replace("\"id\":378195", "\"id\":378195,\"apple_music_id\":null");
    let song: Song = from_text(&text).unwrap();
    assert_eq!(song.apple_music_id, None);
}

#[test]
fn a_required_member_that_is_null_is_of_wrong_type() {
    let text = song_text().replace("\"id\":378195", "\"id\":null");
    let r: Result<Song, SchemaError> = from_text(&text);
    assert_eq!(r, Err(SchemaError { kind: SchemaErrorKind::WrongType, path: vec![field("id")] }));
}

#[test]
fn a_fully_populated_song_comes_back_from_its_text() {
    let song = full_song();
    let text = to_text(&song);
    let back: Song = from_text(&text).unwrap();
    assert_eq!(back, song);
}

#[test]
fn a_fully_populated_song_comes_back_from_its_value() {
    let song = full_song();
    let back = Song::from_json(&song.to_json()).unwrap();
    assert_eq!(back, song);
}

#[test]
fn absent_members_stay_absent_and_are_never_written_as_null() {
    let song = minimal_song();
    let text = to_text(&song);
    assert!(!text.contains("null"));
    assert!(!text.contains("apple_music_id"));
    assert!(!text.contains("song_relationships"));
    let back: Song = from_text(&text).unwrap();
    assert_eq!(back, song);
    assert_eq!(back.apple_music_id, None);
}

#[test]
fn a_written_song_has_a_member_for_each_present_value() {
    let j = minimal_song().to_json();
    assert_eq!(j.get("title"), Some(&Json::String("title".to_string())));
    assert_eq!(j.get("hidden"), None);
    match j {
        Json::Object(members) => assert_eq!(members.len(), 16),
        _ => panic!("a song is written as an object"),
    }
}

#[test]
fn a_null_among_the_songs_of_a_relationship_is_an_absent_song() {
    let text = format!(
        "{{\"relationship_type\":\"samples\",\"songs\":[null,{},null,null]}}",
        song_text()
    );
    let relationship: SongRelationship = from_text(&text).unwrap();
    assert_eq!(relationship.relationship_type, "samples");
    assert_eq!(relationship.songs.len(), 4);
    assert_eq!(relationship.songs[0], None);
    assert_eq!(relationship.songs[1].as_ref().map(|song| song.id), Some(378195));
    assert_eq!(relationship.songs[2], None);
    assert_eq!(relationship.songs[3], None);
}

#[test]
fn an_absent_song_of_a_relationship_is_written_as_null() {
    let relationship = SongRelationship {
        relationship_type: "cover_of".to_string(),
        songs: vec![None, Some(minimal_song())],
    };
    let j = relationship.to_json();
    match j.get("songs") {
        Some(Json::Array(items)) => {
            assert_eq!(items.len(), 2);
            assert_eq!(items[0], Json::Null);
            assert!(matches!(items[1], Json::Object(_)));
        },
        _ => panic!("the songs are written as an array"),
    }
    assert_eq!(SongRelationship::from_json(&j).unwrap(), relationship);
}

#[test]
fn a_fault_in_a_song_of_a_relationship_is_named_by_its_place() {
    let text = format!(
        "{{\"relationship_type\":\"samples\",\"songs\":[null,{},{}]}}",
        song_text(),
        song_text_without("path")
    );
    let r: Result<SongRelationship, SchemaError> = from_text(&text);
    assert_eq!(
        r,
        Err(SchemaError {
            kind: SchemaErrorKind::MissingField,
            path: vec![field("songs"), PathStep::Item(2), field("path")],
        })
    );
}

#[test]
fn the_relationships_of_a_song_are_read_in_order() {
    let text = song_text().replace(
        "\"id\":378195",
        "\"id\":378195,\"song_relationships\":[{\"relationship_type\":\"samples\",\"songs\":[]},{\"relationship_type\":\"remix_of\",\"songs\":[null]}]",
    );
    let song: Song = from_text(&text).unwrap();
    let relationships = song.song_relationships.unwrap();
    assert_eq!(relationships.len(), 2);
    assert_eq!(relationships[0].relationship_type, "samples");
    assert_eq!(relationships[0].songs, Vec::new());
    assert_eq!(relationships[1].relationship_type, "remix_of");
    assert_eq!(relationships[1].songs, vec![None]);
}

#[test]
fn relationships_that_are_no_array_are_of_wrong_type() {
    let text = song_text().replace("\"id\":378195", "\"id\":378195,\"song_relationships\":7");
    let r: Result<Song, SchemaError> = from_text(&text);
    assert_eq!(
        r,
        Err(SchemaError {
            kind: SchemaErrorKind::WrongType,
            path: vec![field("song_relationships")],
        })
    );
}

#[test]
fn a_fault_in_a_relationship_is_named_by_its_place() {
    let text = song_text().replace(
        "\"id\":378195",
        "\"id\":378195,\"song_relationships\":[{\"relationship_type\":\"samples\",\"songs\":[]},{\"songs\":[]}]",
    );
    let r: Result<Song, SchemaError> = from_text(&text);
    assert_eq!(
        r,
        Err(SchemaError {
            kind: SchemaErrorKind::MissingField,
            path: vec![field("song_relationships"), PathStep::Item(1), field("relationship_type")],
        })
    );
}

fn album_text(extra: &str) -> String {
    format!(
        "{{\"api_path\":\"/albums/1\",\"cover_art_url\":\"c\",\"full_title\":\"f\",\"id\":9,\"name\":\"n\",\"url\":\"u\",\"artist\":{}{}}}",
        ARTIST, extra
    )
}

#[test]
fn the_page_views_of_an_album_are_read_from_song_pageviews() {
    let album: Album = from_text(&album_text(",\"song_pageviews\":1234")).unwrap();
    assert_eq!(album.album_pageviews, Some(1234));
    assert_eq!(album.id, 9);
}

#[test]
fn a_member_called_album_pageviews_is_not_read() {
    let album: Album = from_text(&album_text(",\"album_pageviews\":1234")).unwrap();
    assert_eq!(album.album_pageviews, None);
}

#[test]
fn the_page_views_of_an_album_are_written_as_song_pageviews() {
    let mut album = minimal_album();
    album.album_pageviews = Some(77);
    let j = album.to_json();
    assert_eq!(j.get("song_pageviews"), Some(&Json::Number(Number::Unsigned(77))));
    assert_eq!(j.get("album_pageviews"), None);
}

#[test]
fn the_type_of_a_hit_is_read_from_type() {
    let text = format!("{{\"index\":\"song\",\"type\":\"song\",\"result\":{}}}", song_text());
    let hit: Hit = from_text(&text).unwrap();
    assert_eq!(hit.index, "song");
    assert_eq!(hit.hit_type, "song");
    assert_eq!(hit.result.id, 378195);
    assert_eq!(hit.to_json().get("type"), Some(&Json::String("song".to_string())));
    assert_eq!(hit.to_json().get("hit_type"), None);
}

#[test]
fn a_hit_without_type_is_a_schema_error() {
    let text = format!("{{\"index\":\"song\",\"hit_type\":\"song\",\"result\":{}}}", song_text());
    let r: Result<Hit, SchemaError> = from_text(&text);
    assert_eq!(
        r,
        Err(SchemaError { kind: SchemaErrorKind::MissingField, path: vec![field("type")] })
    );
}

#[test]
fn the_type_of_a_medium_is_read_from_type() {
    let medium: SongMedia =
        from_text("{\"provider\":\"youtube\",\"start\":12,\"type\":\"video\",\"url\":\"u\"}").unwrap();
    assert_eq!(medium.media_type, "video");
    assert_eq!(medium.provider, "youtube");
    assert_eq!(medium.start, Some(12));
    assert_eq!(medium.native_uri, None);
    assert_eq!(medium.attribution, None);
}

#[test]
fn the_index_character_of_an_artist_is_one_character() {
    let one = ARTIST.replace("\"id\":1,", "\"id\":1,\"index_character\":\"s\",");
    let artist: Artist = from_text(&one).unwrap();
    assert_eq!(artist.index_character, Some('s'));
    assert_eq!(artist.to_json().get("index_character"), Some(&Json::String("s".to_string())));
    let two = ARTIST.replace("\"id\":1,", "\"id\":1,\"index_character\":\"si\",");
    let r: Result<Artist, SchemaError> = from_text(&two);
    assert_eq!(
        r,
        Err(SchemaError {
            kind: SchemaErrorKind::WrongType,
            path: vec![field("index_character")],
        })
    );
    let none = ARTIST.replace("\"id\":1,", "\"id\":1,\"index_character\":\"\",");
    let r: Result<Artist, SchemaError> = from_text(&none);
    assert!(r.is_err());
}

#[test]
fn an_id_is_a_whole_number_from_zero_to_the_largest_u32() {
    let largest = ARTIST.replace("\"id\":1,", "\"id\":4294967295,");
    let artist: Artist = from_text(&largest).unwrap();
    assert_eq!(artist.id, 4294967295);
    for bad in ["4294967296", "-1", "1.5", "\"1\"", "true", "[1]"] {
        let text = ARTIST.replace("\"id\":1,", &format!("\"id\":{},", bad));
        let r: Result<Artist, SchemaError> = from_text(&text);
        assert_eq!(
            r,
            Err(SchemaError { kind: SchemaErrorKind::WrongType, path: vec![field("id")] })
        );
    }
}

fn annotation_text(votes: &str) -> String {
    format!(
        "{{\"api_path\":\"a\",\"body\":{{\"plain\":\"text\"}},\"community\":true,\"has_voters\":false,\"id\":5,\"pinned\":false,\"share_url\":\"s\",\"state\":\"accepted\",\"url\":\"u\",\"verified\":false,\"votes_total\":{},\"current_user_metadata\":{{\"permissions\":[\"vote\"],\"excluded_permissions\":[]}},\"authors\":[]}}",
        votes
    )
}

#[test]
fn the_votes_of_an_annotation_may_be_negative() {
    let annotation: Annotation = from_text(&annotation_text("-12")).unwrap();
    assert_eq!(annotation.votes_total, Some(-12));
    assert_eq!(annotation.current_user_metadata.permissions, vec!["vote".to_string()]);
    let text = to_text(&annotation);
    assert!(text.contains("\"votes_total\":-12"));
    let lowest: Annotation = from_text(&annotation_text("-2147483648")).unwrap();
    assert_eq!(lowest.votes_total, Some(i32::MIN));
    let highest: Annotation = from_text(&annotation_text("2147483647")).unwrap();
    assert_eq!(highest.votes_total, Some(i32::MAX));
    for bad in ["-2147483649", "2147483648", "0.5"] {
        let r: Result<Annotation, SchemaError> = from_text(&annotation_text(bad));
        assert_eq!(
            r,
            Err(SchemaError {
                kind: SchemaErrorKind::WrongType,
                path: vec![field("votes_total")],
            })
        );
    }
}

#[test]
fn the_share_of_an_author_is_kept_as_received() {
    let user = to_text(&minimal_user());
    let half: AnnotationAuthor =
        from_text(&format!("{{\"attribution\":0.5,\"user\":{}}}", user)).unwrap();
    assert_eq!(half.attribution, Number::Fraction("0.5".to_string()));
    let whole: AnnotationAuthor =
        from_text(&format!("{{\"attribution\":1,\"user\":{}}}", user)).unwrap();
    assert_eq!(whole.attribution, Number::Unsigned(1));
    assert!(to_text(&half).contains("\"attribution\":0.5"));
    let r: Result<AnnotationAuthor, SchemaError> =
        from_text(&format!("{{\"attribution\":\"half\",\"user\":{}}}", user));
    assert_eq!(
        r,
        Err(SchemaError { kind: SchemaErrorKind::WrongType, path: vec![field("attribution")] })
    );
}

#[test]
fn a_body_keeps_its_payloads_by_format() {
    let b: Body = from_text("{\"dom\":{\"tag\":\"root\",\"children\":[1,null]},\"plain\":\"x\"}").unwrap();
    assert_eq!(b.formats.len(), 2);
    assert_eq!(b.formats[0].0, "dom");
    assert_eq!(b.formats[1], ("plain".to_string(), Json::String("x".to_string())));
    assert_eq!(to_text(&b), "{\"dom\":{\"children\":[1,null],\"tag\":\"root\"},\"plain\":\"x\"}");
    let r: Result<Body, SchemaError> = from_text("\"plain text\"");
    assert_eq!(r, Err(SchemaError { kind: SchemaErrorKind::WrongType, path: vec![] }));
}

#[test]
fn a_table_keeps_its_entries_and_finds_the_last_of_a_name() {
    let image: AvatarImage =
        from_text("{\"url\":\"u\",\"bounding_box\":{\"width\":48,\"height\":32}}").unwrap();
    assert_eq!(image.bounding_box.len(), 2);
    assert_eq!(image.bounding_box.get("width"), Some(&48));
    assert_eq!(image.bounding_box.get("height"), Some(&32));
    assert_eq!(image.bounding_box.get("depth"), None);
    let repeated = Table {
        entries: vec![("a".to_string(), 1), ("b".to_string(), 2), ("a".to_string(), 3)],
    };
    assert_eq!(repeated.len(), 3);
    assert_eq!(repeated.get("a"), Some(&3));
    assert_eq!(repeated.get("b"), Some(&2));
}

#[test]
fn a_value_put_under_a_name_takes_the_place_of_the_one_before() {
    let mut table: Table<u32> = Table::new();
    assert_eq!(table.len(), 0);
    assert_eq!(table.get("a"), None);
    table.insert("a".to_string(), 1);
    table.insert("b".to_string(), 2);
    assert_eq!(table.entries, vec![("a".to_string(), 1), ("b".to_string(), 2)]);
    table.insert("a".to_string(), 3);
    assert_eq!(table.len(), 2);
    assert_eq!(table.get("a"), Some(&3));
    assert_eq!(table.get("b"), Some(&2));
    assert_eq!(table.entries, vec![("a".to_string(), 3), ("b".to_string(), 2)]);
    table.insert("c".to_string(), 4);
    assert_eq!(
        table.entries,
        vec![("a".to_string(), 3), ("b".to_string(), 2), ("c".to_string(), 4)]
    );
}

#[test]
fn a_fault_in_a_table_is_named_by_the_entry() {
    let r: Result<AvatarImage, SchemaError> =
        from_text("{\"url\":\"u\",\"bounding_box\":{\"height\":32,\"width\":\"wide\"}}");
    assert_eq!(
        r,
        Err(SchemaError {
            kind: SchemaErrorKind::WrongType,
            path: vec![field("bounding_box"), field("width")],
        })
    );
    let r: Result<AvatarImage, SchemaError> = from_text("{\"url\":\"u\",\"bounding_box\":[]}");
    assert_eq!(
        r,
        Err(SchemaError { kind: SchemaErrorKind::WrongType, path: vec![field("bounding_box")] })
    );
}

#[test]
fn a_fault_in_a_list_is_named_by_the_position() {
    let r: Result<UserMetadata, SchemaError> =
        from_text("{\"permissions\":[\"a\",\"b\",3],\"excluded_permissions\":[]}");
    assert_eq!(
        r,
        Err(SchemaError {
            kind: SchemaErrorKind::WrongType,
            path: vec![field("permissions"), PathStep::Item(2)],
        })
    );
    let r: Result<UserMetadata, SchemaError> =
        from_text("{\"permissions\":{},\"excluded_permissions\":[]}");
    assert_eq!(
        r,
        Err(SchemaError { kind: SchemaErrorKind::WrongType, path: vec![field("permissions")] })
    );
}

#[test]
fn a_date_in_parts_may_lack_any_part() {
    let date: Date = from_text("{\"year\":2014,\"day\":null}").unwrap();
    assert_eq!(date, Date { year: Some(2014), month: None, day: None });
    assert_eq!(to_text(&date), "{\"year\":2014}");
    assert_eq!(to_text(&Date { year: None, month: None, day: None }), "{}");
}

#[test]
fn every_record_comes_back_from_its_text() {
    assert_eq!(from_text::<User>(&to_text(&full_user())), Ok(full_user()));
    assert_eq!(from_text::<Referent>(&to_text(&full_referent())), Ok(full_referent()));
    assert_eq!(from_text::<Album>(&to_text(&full_album())), Ok(full_album()));
    assert_eq!(from_text::<CoverArt>(&to_text(&full_cover_art())), Ok(full_cover_art()));
    assert_eq!(from_text::<SongStatus>(&to_text(&full_song_status())), Ok(full_song_status()));
    assert_eq!(
        from_text::<SongContributor>(&to_text(&full_song_contributor())),
        Ok(full_song_contributor())
    );
    assert_eq!(
        from_text::<TrackingPaths>(&to_text(&full_tracking_paths())),
        Ok(full_tracking_paths())
    );
    assert_eq!(from_text::<Interactions>(&to_text(&full_interactions())), Ok(full_interactions()));
    assert_eq!(from_text::<Album>(&to_text(&minimal_album())), Ok(minimal_album()));
    assert_eq!(from_text::<User>(&to_text(&minimal_user())), Ok(minimal_user()));
    assert_eq!(from_text::<Referent>(&to_text(&minimal_referent())), Ok(minimal_referent()));
    let hit = Hit { index: "song".to_string(), hit_type: "song".to_string(), result: full_song() };
    let back: Hit = from_text(&to_text(&hit)).unwrap();
    assert_eq!(back, hit);
}
