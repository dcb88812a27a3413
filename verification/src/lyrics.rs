//! Lyrics from the page of a song: the text of the lyrics container, found
//! by one selector or, failing that, by a second.

use vstd::prelude::*;

verus! {

/// The selector tried first: the container marked by its class.
pub const PRIMARY_SELECTOR: &'static str = "div[class=\"lyrics\"]";

/// The selector tried second: the container marked by its id.
pub const SECONDARY_SELECTOR: &'static str = "div[id=\"lyrics\"]";

/// Why no lyrics came out of a page.
#[derive(Clone, Copy, Debug, PartialEq, Eq, Structural)]
pub enum ExtractionError {
    /// Neither selector matched an element of the page.
    NoLyricsContainer,
    /// A selector was not accepted as a selector.
    InvalidSelector,
}

#[verifier::external_type_specification]
#[verifier::external_body]
pub struct ExHtml(scraper::Html);

/// What one selector gives on one page: `None` where the selector is not
/// accepted; `Some(None)` where no element matches; else the text nodes
/// below the first element that matches, in document order.
pub uninterp spec fn first_match_text(document: Seq<char>, selector: Seq<char>) -> Option<
    Option<Seq<Seq<char>>>,
>;

/// What one selector gives on a parsed page, in the same terms.
pub uninterp spec fn page_match_text(page: scraper::Html, selector: Seq<char>) -> Option<
    Option<Seq<Seq<char>>>,
>;

/// `Html::parse_document` of scraper: the page as a document tree. Any text
/// is parsed; what a selector then gives on the tree is what it gives on
/// the text.
#[verifier::external_body]
fn parse_page(document: &str) -> (page: scraper::Html)
    ensures
        forall|selector: Seq<char>| #[trigger]
            page_match_text(page, selector) == first_match_text(document@, selector),
{
    scraper::Html::parse_document(document)
}

/// `Selector::parse`, `Html::select` and `ElementRef::text` of scraper: the
/// first element that the selector matches is taken, and the text nodes
/// below it are collected as they come, one string each. What comes back
/// depends on the page and the selector alone; it is named, not described.
#[verifier::external_body]
fn select_first(page: &scraper::Html, selector: &str) -> (found: Option<Option<Vec<String>>>)
    ensures
        found.deep_view() == page_match_text(*page, selector@),
{
    let selector = scraper::Selector::parse(selector).ok()?;
    Some(page.select(&selector).next().map(|element| element.text().map(String::from).collect()))
}

/// Where the search for the lyrics container stands.
#[derive(Debug, PartialEq)]
pub enum LyricsSearch {
    /// The primary selector is to be tried.
    SearchingPrimary,
    /// The primary selector matched nothing; the secondary is to be tried.
    SearchingSecondary,
    /// A selector matched: the text nodes of the container.
    Found(Vec<String>),
    /// The search ended without lyrics.
    NotFound(ExtractionError),
}

/// The model of a [`LyricsSearch`].
pub enum SearchModel {
    SearchingPrimary,
    SearchingSecondary,
    Found(Seq<Seq<char>>),
    NotFound(ExtractionError),
}

impl DeepView for LyricsSearch {
    type V = SearchModel;

    open spec fn deep_view(&self) -> SearchModel {
        match self {
            LyricsSearch::SearchingPrimary => SearchModel::SearchingPrimary,
            LyricsSearch::SearchingSecondary => SearchModel::SearchingSecondary,
            LyricsSearch::Found(lines) => SearchModel::Found(lines.deep_view()),
            LyricsSearch::NotFound(e) => SearchModel::NotFound(*e),
        }
    }
}

impl SearchModel {
    /// The selector that is to be tried in this state, if the search goes on.
    pub open spec fn selector(self) -> Option<Seq<char>> {
        match self {
            SearchModel::SearchingPrimary => Some(PRIMARY_SELECTOR@),
            SearchModel::SearchingSecondary => Some(SECONDARY_SELECTOR@),
            _ => None,
        }
    }

    /// The state after the selector of this state gave `found`. A match ends
    /// the search; no match leads from the primary selector to the
    /// secondary and from the secondary to the end; a selector that is not
    /// accepted ends the search. A search that has ended stays as it is.
    pub open spec fn step(self, found: Option<Option<Seq<Seq<char>>>>) -> SearchModel {
        match self {
            SearchModel::SearchingPrimary => match found {
                Some(Some(lines)) => SearchModel::Found(lines),
                Some(None) => SearchModel::SearchingSecondary,
                None => SearchModel::NotFound(ExtractionError::InvalidSelector),
            },
            SearchModel::SearchingSecondary => match found {
                Some(Some(lines)) => SearchModel::Found(lines),
                Some(None) => SearchModel::NotFound(ExtractionError::NoLyricsContainer),
                None => SearchModel::NotFound(ExtractionError::InvalidSelector),
            },
            _ => self,
        }
    }

    /// How many selectors are still to be tried at most.
    pub open spec fn remaining(self) -> nat {
        match self {
            SearchModel::SearchingPrimary => 2,
            SearchModel::SearchingSecondary => 1,
            _ => 0,
        }
    }

    /// The state in which the search on `document` ends, from this state on.
    pub open spec fn run(self, document: Seq<char>) -> SearchModel
        decreases self.remaining(),
    {
        match self.selector() {
            Some(selector) => self.step(first_match_text(document, selector)).run(document),
            None => self,
        }
    }

    /// What a search that has ended gives its caller.
    pub open spec fn outcome(self) -> Result<Seq<Seq<char>>, ExtractionError> {
        match self {
            SearchModel::Found(lines) => Ok(lines),
            SearchModel::NotFound(e) => Err(e),
            _ => Err(ExtractionError::NoLyricsContainer),
        }
    }
}

/// The lyrics of a page, or why there are none.
pub open spec fn lyrics_of(document: Seq<char>) -> Result<Seq<Seq<char>>, ExtractionError> {
    SearchModel::SearchingPrimary.run(document).outcome()
}

impl LyricsSearch {
    /// The selector that is to be tried in this state, if the search goes on.
    pub fn selector(&self) -> (selector: Option<&'static str>)
        ensures
            selector.deep_view() == self.deep_view().selector(),
    {
        match self {
            LyricsSearch::SearchingPrimary => Some(PRIMARY_SELECTOR),
            LyricsSearch::SearchingSecondary => Some(SECONDARY_SELECTOR),
            _ => None,
        }
    }

    /// The state after the selector of this state gave `found`.
    pub fn step(self, found: Option<Option<Vec<String>>>) -> (next: LyricsSearch)
        ensures
            next.deep_view() == self.deep_view().step(found.deep_view()),
    {
        match self {
            LyricsSearch::SearchingPrimary => match found {
                Some(Some(lines)) => LyricsSearch::Found(lines),
                Some(None) => LyricsSearch::SearchingSecondary,
                None => LyricsSearch::NotFound(ExtractionError::InvalidSelector),
            },
            LyricsSearch::SearchingSecondary => match found {
                Some(Some(lines)) => LyricsSearch::Found(lines),
                Some(None) => LyricsSearch::NotFound(ExtractionError::NoLyricsContainer),
                None => LyricsSearch::NotFound(ExtractionError::InvalidSelector),
            },
            ended => ended,
        }
    }

    /// What a search that has ended gives its caller.
    pub fn finish(self) -> (r: Result<Vec<String>, ExtractionError>)
        ensures
            match r {
                Ok(lines) => self.deep_view().outcome() == Ok::<Seq<Seq<char>>, ExtractionError>(
                    lines.deep_view(),
                ),
                Err(e) => self.deep_view().outcome() == Err::<Seq<Seq<char>>, ExtractionError>(e),
            },
    {
        match self {
            LyricsSearch::Found(lines) => Ok(lines),
            LyricsSearch::NotFound(e) => Err(e),
            _ => Err(ExtractionError::NoLyricsContainer),
        }
    }
}

/// The lyrics of a page: the text nodes of the first element that the
/// primary selector matches or, where it matches none, of the first that
/// the secondary selector matches, one string for each text node, as
/// received.
pub fn extract_lyrics(document: &str) -> (r: Result<Vec<String>, ExtractionError>)
    ensures
        match r {
            Ok(lines) => lyrics_of(document@) == Ok::<Seq<Seq<char>>, ExtractionError>(
                lines.deep_view(),
            ),
            Err(e) => lyrics_of(document@) == Err::<Seq<Seq<char>>, ExtractionError>(e),
        },
{
    let page = parse_page(document);
    let mut state = LyricsSearch::SearchingPrimary;
    loop
        invariant
            forall|selector: Seq<char>| #[trigger]
                page_match_text(page, selector) == first_match_text(document@, selector),
            state.deep_view().run(document@) == SearchModel::SearchingPrimary.run(document@),
        decreases state.deep_view().remaining(),
    {
        let found = match state.selector() {
            Some(selector) => select_first(&page, selector),
            None => {
                return state.finish();
            },
        };
        state = state.step(found);
    }
}

/// A page on which the primary selector matches gives the text of that
/// match, whatever the secondary selector would give.
pub proof fn lemma_primary_match_wins(document: Seq<char>, lines: Seq<Seq<char>>)
    requires
        first_match_text(document, PRIMARY_SELECTOR@) == Some(Some(lines)),
    ensures
        lyrics_of(document) == Ok::<Seq<Seq<char>>, ExtractionError>(lines),
{
    reveal_with_fuel(SearchModel::run, 2);
}

/// A page on which only the secondary selector matches gives the text of
/// that match.
pub proof fn lemma_secondary_match_is_fallback(document: Seq<char>, lines: Seq<Seq<char>>)
    requires
        first_match_text(document, PRIMARY_SELECTOR@) == Some(None::<Seq<Seq<char>>>),
        first_match_text(document, SECONDARY_SELECTOR@) == Some(Some(lines)),
    ensures
        lyrics_of(document) == Ok::<Seq<Seq<char>>, ExtractionError>(lines),
{
    reveal_with_fuel(SearchModel::run, 3);
}

/// A page on which neither selector matches gives no lyrics, and an error
/// that says so.
pub proof fn lemma_no_match_is_an_error(document: Seq<char>)
    requires
        first_match_text(document, PRIMARY_SELECTOR@) == Some(None::<Seq<Seq<char>>>),
        first_match_text(document, SECONDARY_SELECTOR@) == Some(None::<Seq<Seq<char>>>),
    ensures
        lyrics_of(document) == Err::<Seq<Seq<char>>, ExtractionError>(
            ExtractionError::NoLyricsContainer,
        ),
{
    reveal_with_fuel(SearchModel::run, 3);
}

} // verus!
