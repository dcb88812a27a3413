use genius_rs::lyrics::{
    extract_lyrics, ExtractionError, LyricsSearch, PRIMARY_SELECTOR, SECONDARY_SELECTOR,
};

fn lines(texts: &[&str]) -> Vec<String> {
    texts.iter().map(|text| text.to_string()).collect()
}

#[test]
fn the_text_nodes_of_the_class_container_are_the_lyrics() {
    assert_eq!(
        extract_lyrics("<div class=\"lyrics\">Hello<br/>World</div>"),
        Ok(lines(&["Hello", "World"]))
    );
}

#[test]
fn the_id_container_is_the_fallback() {
    assert_eq!(extract_lyrics("<div id=\"lyrics\">Hi</div>"), Ok(lines(&["Hi"])));
}

#[test]
fn a_page_without_a_container_gives_an_error() {
    assert_eq!(extract_lyrics("<p>No lyrics here</p>"), Err(ExtractionError::NoLyricsContainer));
    assert_eq!(extract_lyrics(""), Err(ExtractionError::NoLyricsContainer));
    assert_eq!(
        extract_lyrics("<span class=\"lyrics\">not a div</span><p id=\"lyrics\">nor this</p>"),
        Err(ExtractionError::NoLyricsContainer)
    );
}

#[test]
fn the_class_container_wins_over_the_id_container() {
    assert_eq!(
        extract_lyrics("<div id=\"lyrics\">by id</div><div class=\"lyrics\">by class</div>"),
        Ok(lines(&["by class"]))
    );
}

#[test]
fn the_first_container_in_the_document_is_taken() {
    assert_eq!(
        extract_lyrics("<div class=\"lyrics\">first</div><div class=\"lyrics\">second</div>"),
        Ok(lines(&["first"]))
    );
}

#[test]
fn the_class_must_be_lyrics_and_nothing_else() {
    assert_eq!(
        extract_lyrics("<div class=\"lyrics big\">no</div><div id=\"lyrics\">yes</div>"),
        Ok(lines(&["yes"]))
    );
}

#[test]
fn text_nodes_come_in_document_order_from_the_whole_subtree() {
    assert_eq!(
        extract_lyrics(
            "<html><body><div class=\"lyrics\"><p>One <a href=\"x\">two</a> three</p><p>four</p></div></body></html>"
        ),
        Ok(lines(&["One ", "two", " three", "four"]))
    );
}

#[test]
fn blank_text_nodes_are_kept_as_received() {
    assert_eq!(
        extract_lyrics("<div class=\"lyrics\">\n  <p>line</p>\n  <p> </p>\n</div>"),
        Ok(lines(&["\n  ", "line", "\n  ", " ", "\n"]))
    );
}

#[test]
fn a_container_without_text_gives_no_lines() {
    assert_eq!(extract_lyrics("<div class=\"lyrics\"><br/></div>"), Ok(Vec::new()));
}

#[test]
fn the_selectors_ask_for_a_div_by_class_and_by_id() {
    assert_eq!(PRIMARY_SELECTOR, "div[class=\"lyrics\"]");
    assert_eq!(SECONDARY_SELECTOR, "div[id=\"lyrics\"]");
    assert_eq!(LyricsSearch::SearchingPrimary.selector(), Some(PRIMARY_SELECTOR));
    assert_eq!(LyricsSearch::SearchingSecondary.selector(), Some(SECONDARY_SELECTOR));
    assert_eq!(LyricsSearch::Found(Vec::new()).selector(), None);
    assert_eq!(LyricsSearch::NotFound(ExtractionError::NoLyricsContainer).selector(), None);
}

#[test]
fn a_match_ends_the_search() {
    assert_eq!(
        LyricsSearch::SearchingPrimary.step(Some(Some(lines(&["a"])))),
        LyricsSearch::Found(lines(&["a"]))
    );
    assert_eq!(
        LyricsSearch::SearchingSecondary.step(Some(Some(lines(&["b", "c"])))),
        LyricsSearch::Found(lines(&["b", "c"]))
    );
}

#[test]
fn no_match_leads_to_the_fallback_and_then_to_the_end() {
    assert_eq!(LyricsSearch::SearchingPrimary.step(Some(None)), LyricsSearch::SearchingSecondary);
    assert_eq!(
        LyricsSearch::SearchingSecondary.step(Some(None)),
        LyricsSearch::NotFound(ExtractionError::NoLyricsContainer)
    );
}

#[test]
fn a_selector_that_is_not_accepted_ends_the_search() {
    assert_eq!(
        LyricsSearch::SearchingPrimary.step(None),
        LyricsSearch::NotFound(ExtractionError::InvalidSelector)
    );
    assert_eq!(
        LyricsSearch::SearchingSecondary.step(None),
        LyricsSearch::NotFound(ExtractionError::InvalidSelector)
    );
}

#[test]
fn a_search_that_has_ended_stays_as_it_is() {
    assert_eq!(
        LyricsSearch::Found(lines(&["a"])).step(Some(Some(lines(&["b"])))),
        LyricsSearch::Found(lines(&["a"]))
    );
    assert_eq!(
        LyricsSearch::NotFound(ExtractionError::NoLyricsContainer).step(Some(Some(lines(&["b"])))),
        LyricsSearch::NotFound(ExtractionError::NoLyricsContainer)
    );
    assert_eq!(
        LyricsSearch::NotFound(ExtractionError::InvalidSelector).step(None),
        LyricsSearch::NotFound(ExtractionError::InvalidSelector)
    );
}

#[test]
fn a_finished_search_gives_its_lines_or_its_error() {
    assert_eq!(LyricsSearch::Found(lines(&["a", "b"])).finish(), Ok(lines(&["a", "b"])));
    assert_eq!(
        LyricsSearch::NotFound(ExtractionError::InvalidSelector).finish(),
        Err(ExtractionError::InvalidSelector)
    );
    assert_eq!(
        LyricsSearch::NotFound(ExtractionError::NoLyricsContainer).finish(),
        Err(ExtractionError::NoLyricsContainer)
    );
    assert_eq!(
        LyricsSearch::SearchingPrimary.finish(),
        Err(ExtractionError::NoLyricsContainer)
    );
    assert_eq!(
        LyricsSearch::SearchingSecondary.finish(),
        Err(ExtractionError::NoLyricsContainer)
    );
}
