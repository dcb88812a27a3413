use genius_rs::lyrics::ExtractionError;
use genius_rs::schema::{from_text, PathStep, SchemaError, SchemaErrorKind};
use genius_rs::{Artist, Genius, Hit, Hits, Meta, Request, SearchResponse, SongSearch, SongStatus, URL};

const HIT: &str = r#"{"index":"song","type":"song","result":{"annotation_count":27,"api_path":"/songs/378195","full_title":"Chandelier by Sia","header_image_thumbnail_url":"t","header_image_url":"h","id":378195,"lyrics_owner_id":104344,"lyrics_state":"complete","path":"/Sia-chandelier-lyrics","pyongs_count":391,"song_art_image_thumbnail_url":"s","song_art_image_url":"a","stats":{"unreviewed_annotations":0,"hot":false,"pageviews":2137586},"title":"Chandelier","title_with_featured":"Chandelier","url":"https://genius.com/Sia-chandelier-lyrics","primary_artist":{"api_path":"/artists/16775","header_image_url":"ah","id":16775,"image_url":"ai","is_meme_verified":false,"is_verified":true,"name":"Sia","url":"https://genius.com/artists/Sia"}}}"#;

fn envelope(hits: &str) -> String {
    format!("{{\"meta\":{{\"status\":200}},\"response\":{{\"hits\":[{}]}}}}", hits)
}

fn field(name: &str) -> PathStep {
    PathStep::Field(name.to_string())
}

fn expected_hit() -> Hit {
    Hit {
        index: "song".to_string(),
        hit_type: "song".to_string(),
        result: SongSearch {
            annotation_count: 27,
            api_path: "/songs/378195".to_string(),
            full_title: "Chandelier by Sia".to_string(),
            header_image_thumbnail_url: "t".to_string(),
            header_image_url: "h".to_string(),
            id: 378195,
            lyrics_owner_id: 104344,
            lyrics_state: "complete".to_string(),
            path: "/Sia-chandelier-lyrics".to_string(),
            pyongs_count: 391,
            song_art_image_thumbnail_url: "s".to_string(),
            song_art_image_url: "a".to_string(),
            song_art_primary_color: None,
            song_art_secondary_color: None,
            song_art_text_color: None,
            stats: SongStatus { unreviewed_annotations: 0, hot: false, pageviews: 2137586 },
            title: "Chandelier".to_string(),
            title_with_featured: "Chandelier".to_string(),
            url: "https://genius.com/Sia-chandelier-lyrics".to_string(),
            primary_artist: Artist {
                api_path: "/artists/16775".to_string(),
                header_image_url: "ah".to_string(),
                id: 16775,
                image_url: "ai".to_string(),
                is_meme_verified: false,
                is_verified: true,
                name: "Sia".to_string(),
                url: "https://genius.com/artists/Sia".to_string(),
                iq: None,
            },
        },
    }
}

#[test]
fn a_minimal_search_result_has_one_hit_and_no_optional_member() {
    let result = Genius::read_search(&envelope(HIT)).unwrap();
    assert_eq!(result.meta.status, 200);
    assert_eq!(result.response.hits.len(), 1);
    let song = &result.response.hits[0].result;
    assert_eq!(song.song_art_primary_color, None);
    assert_eq!(song.song_art_secondary_color, None);
    assert_eq!(song.song_art_text_color, None);
    assert_eq!(song.primary_artist.iq, None);
    assert_eq!(
        result,
        SearchResponse { meta: Meta { status: 200 }, response: Hits { hits: vec![expected_hit()] } }
    );
}

#[test]
fn the_hits_of_a_search_result_keep_their_order() {
    let second = HIT.replace("378195", "2").replace("\"index\":\"song\"", "\"index\":\"lyric\"");
    let result = Genius::read_search(&envelope(&format!("{},{}", HIT, second))).unwrap();
    assert_eq!(result.response.hits.len(), 2);
    assert_eq!(result.response.hits[0].result.id, 378195);
    assert_eq!(result.response.hits[0].index, "song");
    assert_eq!(result.response.hits[1].result.id, 2);
    assert_eq!(result.response.hits[1].index, "lyric");
}

#[test]
fn a_search_result_without_hits_is_empty() {
    let result = Genius::read_search(&envelope("")).unwrap();
    assert_eq!(result.response.hits, Vec::new());
}

#[test]
fn unknown_members_of_a_search_result_are_ignored() {
    let hit = HIT
        .replace("\"index\":\"song\"", "\"highlights\":[],\"index\":\"song\",\"score\":0.75")
        .replace("\"hot\":false", "\"hot\":false,\"concurrents\":3")
        .replace("\"name\":\"Sia\"", "\"name\":\"Sia\",\"followers\":{\"count\":1}");
    let text = format!(
        "{{\"meta\":{{\"status\":200,\"message\":\"ok\"}},\"next_page\":2,\"response\":{{\"hits\":[{}],\"took\":12}}}}",
        hit
    );
    let with_extras = Genius::read_search(&text).unwrap();
    let without = Genius::read_search(&envelope(HIT)).unwrap();
    assert_eq!(with_extras, without);
}

#[test]
fn the_optional_members_of_a_search_result_are_read_when_present() {
    let hit = HIT
        .replace("\"title\":\"Chandelier\"", "\"song_art_primary_color\":\"#fff\",\"song_art_text_color\":null,\"title\":\"Chandelier\"")
        .replace("\"name\":\"Sia\"", "\"name\":\"Sia\",\"iq\":1500");
    let result = Genius::read_search(&envelope(&hit)).unwrap();
    let song = &result.response.hits[0].result;
    assert_eq!(song.song_art_primary_color, Some("#fff".to_string()));
    assert_eq!(song.song_art_secondary_color, None);
    assert_eq!(song.song_art_text_color, None);
    assert_eq!(song.primary_artist.iq, Some(1500));
}

#[test]
fn a_fault_in_a_hit_is_named_by_its_path() {
    let hit = HIT.replace("\"pageviews\":2137586", "\"pageviews\":\"many\"");
    let r = Genius::read_search(&envelope(&format!("{},{}", HIT, hit)));
    assert_eq!(
        r,
        Err(SchemaError {
            kind: SchemaErrorKind::WrongType,
            path: vec![
                field("response"),
                field("hits"),
                PathStep::Item(1),
                field("result"),
                field("stats"),
                field("pageviews"),
            ],
        })
    );
}

#[test]
fn a_hit_without_a_member_that_the_search_result_requires_is_a_schema_error() {
    let hit = HIT.replace("\"pyongs_count\":391,", "");
    let r = Genius::read_search(&envelope(&hit));
    assert_eq!(
        r,
        Err(SchemaError {
            kind: SchemaErrorKind::MissingField,
            path: vec![
                field("response"),
                field("hits"),
                PathStep::Item(0),
                field("result"),
                field("pyongs_count"),
            ],
        })
    );
}

#[test]
fn a_search_result_without_its_status_is_a_schema_error() {
    let r = Genius::read_search("{\"meta\":{},\"response\":{\"hits\":[]}}");
    assert_eq!(
        r,
        Err(SchemaError {
            kind: SchemaErrorKind::MissingField,
            path: vec![field("meta"), field("status")],
        })
    );
    let r = Genius::read_search("{\"response\":{\"hits\":[]}}");
    assert_eq!(
        r,
        Err(SchemaError { kind: SchemaErrorKind::MissingField, path: vec![field("meta")] })
    );
}

#[test]
fn a_body_that_is_no_json_is_malformed() {
    for text in ["", "<html></html>", "{\"meta\":", "{\"meta\":{\"status\":200}} trailing"] {
        assert_eq!(
            Genius::read_search(text),
            Err(SchemaError { kind: SchemaErrorKind::Malformed, path: vec![] })
        );
    }
}

#[test]
fn a_body_that_is_no_object_is_of_wrong_type() {
    for text in ["null", "[]", "12", "\"text\""] {
        assert_eq!(
            Genius::read_search(text),
            Err(SchemaError { kind: SchemaErrorKind::WrongType, path: vec![] })
        );
    }
}

#[test]
fn reading_text_into_a_record_is_what_a_search_reads() {
    let direct: SearchResponse = from_text(&envelope(HIT)).unwrap();
    assert_eq!(Genius::read_search(&envelope(HIT)), Ok(direct));
}

#[test]
fn a_client_keeps_the_credential_as_a_bearer_header() {
    let genius = Genius::new("abc123".to_string());
    assert_eq!(genius.authorization(), "Bearer abc123");
    assert_eq!(Genius::new(String::new()).authorization(), "Bearer ");
    assert_eq!(Genius::new("with space\n".to_string()).authorization(), "Bearer with space\n");
}

#[test]
fn a_search_asks_the_search_endpoint_with_the_query_as_given() {
    let genius = Genius::new("abc123".to_string());
    assert_eq!(
        genius.search_request("Ariana Grande"),
        Request {
            url: "https://api.genius.com/search?q=Ariana Grande".to_string(),
            authorization: Some("Bearer abc123".to_string()),
        }
    );
    assert_eq!(genius.search_request("").url, format!("{}search?q=", URL));
    assert_eq!(
        genius.search_request("a&b=c#d").url,
        "https://api.genius.com/search?q=a&b=c#d"
    );
}

#[test]
fn the_page_of_a_song_is_asked_for_without_a_header() {
    let genius = Genius::new("abc123".to_string());
    assert_eq!(
        genius.lyrics_request("https://genius.com/Sia-chandelier-lyrics"),
        Request {
            url: "https://genius.com/Sia-chandelier-lyrics".to_string(),
            authorization: None,
        }
    );
}

#[test]
fn the_lyrics_of_a_page_are_read_by_the_client() {
    assert_eq!(
        Genius::read_lyrics("<html><body><div class=\"lyrics\">La la</div></body></html>"),
        Ok(vec!["La la".to_string()])
    );
    assert_eq!(
        Genius::read_lyrics("<html><body><p>nothing</p></body></html>"),
        Err(ExtractionError::NoLyricsContainer)
    );
}
