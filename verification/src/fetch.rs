//! The way from a response body to result records, and the failures of a
//! search.

use vstd::prelude::*;
use crate::book::{Book, BookView};
use crate::book_list::views_of;
use crate::decode::{decode_windows_1252, decoded_text, MAX_BODY_LEN};
use crate::matcher::{
    compile, first_group_matches, first_groups, option_views, pattern_compiles, plainly_built,
    regex_source,
};

verus! {

/// What a [`FetchError`] holds, as mathematical strings.
#[verifier::ext_equal]
pub enum FetchErrorView {
    Network(Seq<char>),
    Decode,
    Protocol,
}

/// Why a search gave no records.
#[derive(Debug, Clone, PartialEq, Eq)]
pub enum FetchError {
    /// The request could not be sent or its answer could not be read; the
    /// transport's own description is kept.
    Network(String),
    /// The body could not be turned into text.
    Decode,
    /// The page did not have the expected structure.
    Protocol,
}

impl View for FetchError {
    type V = FetchErrorView;

    open spec fn view(&self) -> FetchErrorView {
        match self {
            FetchError::Network(details) => FetchErrorView::Network(details@),
            FetchError::Decode => FetchErrorView::Decode,
            FetchError::Protocol => FetchErrorView::Protocol,
        }
    }
}

/// The message shown for a failure.
pub open spec fn message_of(e: FetchErrorView) -> Seq<char> {
    match e {
        FetchErrorView::Network(details) => "network error: "@ + details,
        FetchErrorView::Decode => "the response could not be decoded"@,
        FetchErrorView::Protocol => "the response has an unexpected structure"@,
    }
}

/// No failure has an empty message.
pub proof fn lemma_message_not_empty(e: FetchErrorView)
    ensures
        message_of(e).len() > 0,
{
    reveal_strlit("network error: ");
    reveal_strlit("the response could not be decoded");
    reveal_strlit("the response has an unexpected structure");
}

impl FetchError {
    /// The message shown for this failure. It is never empty.
    pub fn message(&self) -> (text: String)
        ensures
            text@ == message_of(self@),
            text@.len() > 0,
    {
        proof {
            lemma_message_not_empty(self@);
        }
        match self {
            FetchError::Network(details) => {
                let mut text = "network error: ".to_owned();
                text.append(details.as_str());
                text
            },
            FetchError::Decode => "the response could not be decoded".to_owned(),
            FetchError::Protocol => "the response has an unexpected structure".to_owned(),
        }
    }
}

/// The four pattern texts of a [`Patterns`].
#[verifier::ext_equal]
pub struct PatternsView {
    pub title: Seq<char>,
    pub author: Seq<char>,
    pub url: Seq<char>,
    pub thumbnail: Seq<char>,
}

/// A title: the text of a link to a book page with the class `titre1`.
pub open spec fn title_pattern() -> Seq<char> {
    r#"<a href="/livres/[^"]*" class="titre1" >([^<]+)</a>"#@
}

/// An author: the text of a link to an author page with the class `libelle`.
pub open spec fn author_pattern() -> Seq<char> {
    r#"<a href="/auteur/[^"]*" class="libelle" >([^<]+)</a>"#@
}

/// A page address: the target of a link to a book page.
pub open spec fn url_pattern() -> Seq<char> {
    r#"<a href="(/livres/[^"]*)"#@
}

/// A thumbnail address: the source of a lazily loaded image.
pub open spec fn thumbnail_pattern() -> Seq<char> {
    r#"<img loading=\"lazy\" src=\"([^"]*)\""#@
}

/// The patterns that fit the catalogue's result page.
pub open spec fn catalogue_patterns() -> PatternsView {
    PatternsView {
        title: title_pattern(),
        author: author_pattern(),
        url: url_pattern(),
        thumbnail: thumbnail_pattern(),
    }
}

/// The first of four patterns, in the order title, author, page address,
/// thumbnail address, that does not compile, if there is one.
pub open spec fn first_rejected(p: PatternsView) -> Option<PatternError> {
    if !pattern_compiles(p.title) {
        Some(PatternError::Title)
    } else if !pattern_compiles(p.author) {
        Some(PatternError::Author)
    } else if !pattern_compiles(p.url) {
        Some(PatternError::Url)
    } else if !pattern_compiles(p.thumbnail) {
        Some(PatternError::Thumbnail)
    } else {
        None
    }
}

/// The address that relative links of the catalogue are relative to.
pub open spec fn origin() -> Seq<char> {
    "https://www.babelio.com"@
}

/// Which of the four patterns did not compile.
#[derive(Debug, Clone, Copy, PartialEq, Eq, Structural)]
pub enum PatternError {
    Title,
    Author,
    Url,
    Thumbnail,
}

/// The four compiled patterns that a page is searched with, each built from
/// its text alone.
#[derive(Debug)]
pub struct Patterns {
    title: regex::Regex,
    author: regex::Regex,
    url: regex::Regex,
    thumbnail: regex::Regex,
}

impl View for Patterns {
    type V = PatternsView;

    closed spec fn view(&self) -> PatternsView {
        PatternsView {
            title: regex_source(self.title),
            author: regex_source(self.author),
            url: regex_source(self.url),
            thumbnail: regex_source(self.thumbnail),
        }
    }
}

impl Patterns {
    #[verifier::type_invariant]
    spec fn built_plainly(self) -> bool {
        &&& plainly_built(self.title)
        &&& plainly_built(self.author)
        &&& plainly_built(self.url)
        &&& plainly_built(self.thumbnail)
    }

    /// Puts four compiled patterns together, or names the first of them that
    /// did not compile. Each pattern has to come from `Regex::new`: one built
    /// with other options matches otherwise than its text says.
    pub fn from_compiled(
        title: Result<regex::Regex, regex::Error>,
        author: Result<regex::Regex, regex::Error>,
        url: Result<regex::Regex, regex::Error>,
        thumbnail: Result<regex::Regex, regex::Error>,
    ) -> (patterns: Result<Patterns, PatternError>)
        requires
            title matches Ok(t) ==> plainly_built(t),
            author matches Ok(a) ==> plainly_built(a),
            url matches Ok(u) ==> plainly_built(u),
            thumbnail matches Ok(th) ==> plainly_built(th),
        ensures
            match patterns {
                Ok(p) => {
                    &&& title matches Ok(t) && p@.title == regex_source(t)
                    &&& author matches Ok(a) && p@.author == regex_source(a)
                    &&& url matches Ok(u) && p@.url == regex_source(u)
                    &&& thumbnail matches Ok(th) && p@.thumbnail == regex_source(th)
                },
                Err(PatternError::Title) => title is Err,
                Err(PatternError::Author) => title is Ok && author is Err,
                Err(PatternError::Url) => title is Ok && author is Ok && url is Err,
                Err(PatternError::Thumbnail) => title is Ok && author is Ok && url is Ok
                    && thumbnail is Err,
            },
    {
        let title = match title {
            Ok(re) => re,
            Err(_) => {
                return Err(PatternError::Title);
            },
        };
        let author = match author {
            Ok(re) => re,
            Err(_) => {
                return Err(PatternError::Author);
            },
        };
        let url = match url {
            Ok(re) => re,
            Err(_) => {
                return Err(PatternError::Url);
            },
        };
        let thumbnail = match thumbnail {
            Ok(re) => re,
            Err(_) => {
                return Err(PatternError::Thumbnail);
            },
        };
        Ok(Patterns { title, author, url, thumbnail })
    }

    /// Compiles the catalogue's patterns: all four, or the name of the first
    /// that does not compile. A failure is a fault of this library, to be met
    /// once, when a session starts.
    pub fn compile() -> (patterns: Result<Patterns, PatternError>)
        ensures
            match first_rejected(catalogue_patterns()) {
                Some(e) => patterns matches Err(f) && f == e,
                None => patterns matches Ok(p) && p@ == catalogue_patterns(),
            },
    {
        Patterns::from_compiled(
            compile(r#"<a href="/livres/[^"]*" class="titre1" >([^<]+)</a>"#),
            compile(r#"<a href="/auteur/[^"]*" class="libelle" >([^<]+)</a>"#),
            compile(r#"<a href="(/livres/[^"]*)"#),
            compile(r#"<img loading=\"lazy\" src=\"([^"]*)\""#),
        )
    }
}

/// The views of a sequence of strings.
pub open spec fn text_views(items: Seq<String>) -> Seq<Seq<char>> {
    Seq::new(items.len(), |i: int| items[i]@)
}

/// The captures that are there, in order: a match whose group is missing is
/// passed over.
pub open spec fn present(groups: Seq<Option<Seq<char>>>) -> Seq<Seq<char>>
    decreases groups.len(),
{
    if groups.len() == 0 {
        Seq::empty()
    } else {
        match groups.last() {
            Some(text) => present(groups.drop_last()).push(text),
            None => present(groups.drop_last()),
        }
    }
}

/// Each address with the catalogue's origin in front of it.
pub open spec fn absolute(paths: Seq<Seq<char>>) -> Seq<Seq<char>> {
    Seq::new(paths.len(), |i: int| origin() + paths[i])
}

/// Keeps the captures that are there, in order.
pub fn captured(groups: &Vec<Option<String>>) -> (found: Vec<String>)
    ensures
        text_views(found@) == present(option_views(groups@)),
{
    let ghost all = option_views(groups@);
    let mut found: Vec<String> = Vec::new();
    let mut k: usize = 0;
    assert(all.take(0) =~= Seq::<Option<Seq<char>>>::empty());
    while k < groups.len()
        invariant
            k <= groups.len(),
            all == option_views(groups@),
            text_views(found@) == present(all.take(k as int)),
        decreases groups.len() - k,
    {
        proof {
            assert(all.take(k + 1).drop_last() =~= all.take(k as int));
            assert(all.take(k + 1).last() == all[k as int]);
        }
        let ghost before = found@;
        match &groups[k] {
            Some(text) => {
                found.push(text.clone());
                assert(text_views(found@) =~= text_views(before).push(text@));
            },
            None => {},
        }
        k += 1;
    }
    assert(all.take(k as int) =~= all);
    found
}

/// Puts the catalogue's origin in front of an address.
pub fn absolutize(path: &str) -> (address: String)
    ensures
        address@ == origin() + path@,
{
    let mut address = "https://www.babelio.com".to_owned();
    address.append(path);
    address
}

/// Puts the catalogue's origin in front of each address.
pub fn absolutize_all(paths: &Vec<String>) -> (addresses: Vec<String>)
    ensures
        text_views(addresses@) == absolute(text_views(paths@)),
{
    let mut addresses: Vec<String> = Vec::new();
    let mut k: usize = 0;
    while k < paths.len()
        invariant
            k <= paths.len(),
            addresses.len() == k,
            forall|i: int| 0 <= i < k ==> #[trigger] addresses[i]@ == origin() + paths[i]@,
        decreases paths.len() - k,
    {
        addresses.push(absolutize(paths[k].as_str()));
        k += 1;
    }
    assert(text_views(addresses@) =~= absolute(text_views(paths@)));
    addresses
}

/// The four field sequences found in a page, as mathematical strings.
#[verifier::ext_equal]
pub struct BookInfoView {
    pub titles: Seq<Seq<char>>,
    pub authors: Seq<Seq<char>>,
    pub urls: Seq<Seq<char>>,
    pub thumbnails: Seq<Seq<char>>,
}

/// The four field sequences found in a page, each in document order. They
/// are found independently of one another and may differ in length.
#[derive(Debug, Clone, PartialEq, Eq)]
pub struct BookInfo {
    pub titles: Vec<String>,
    pub authors: Vec<String>,
    pub urls: Vec<String>,
    pub thumbnails: Vec<String>,
}

impl View for BookInfo {
    type V = BookInfoView;

    open spec fn view(&self) -> BookInfoView {
        BookInfoView {
            titles: text_views(self.titles@),
            authors: text_views(self.authors@),
            urls: text_views(self.urls@),
            thumbnails: text_views(self.thumbnails@),
        }
    }
}

/// What the patterns find in a text: titles and authors as they stand, page
/// and thumbnail addresses made absolute.
pub open spec fn book_info_of(p: PatternsView, text: Seq<char>) -> BookInfoView {
    BookInfoView {
        titles: present(first_group_matches(p.title, text)),
        authors: present(first_group_matches(p.author, text)),
        urls: absolute(present(first_group_matches(p.url, text))),
        thumbnails: absolute(present(first_group_matches(p.thumbnail, text))),
    }
}

/// The length of the shortest of the four sequences.
pub open spec fn shortest(info: BookInfoView) -> nat {
    let a = if info.titles.len() <= info.authors.len() {
        info.titles.len()
    } else {
        info.authors.len()
    };
    let b = if info.urls.len() <= info.thumbnails.len() {
        info.urls.len()
    } else {
        info.thumbnails.len()
    };
    if a <= b {
        a
    } else {
        b
    }
}

/// The records made of four sequences by position: record `i` has the
/// `i`-th title, author, page address and thumbnail address, and there are as
/// many records as the shortest sequence has entries.
pub open spec fn zipped(info: BookInfoView) -> Seq<BookView> {
    Seq::new(
        shortest(info),
        |i: int|
            BookView {
                title: info.titles[i],
                author: info.authors[i],
                url: info.urls[i],
                thumbnail: info.thumbnails[i],
            },
    )
}

/// How a search ended, as mathematical values.
pub open spec fn outcome_view(outcome: Result<Vec<Book>, FetchError>) -> Result<
    Seq<BookView>,
    FetchErrorView,
> {
    match outcome {
        Ok(books) => Ok(views_of(books@)),
        Err(e) => Err(e@),
    }
}

/// What a response body gives: the records found in its text, or a decoding
/// failure where the body is longer than [`MAX_BODY_LEN`].
pub open spec fn parsed(p: PatternsView, body: Seq<u8>) -> Result<Seq<BookView>, FetchErrorView> {
    if body.len() > MAX_BODY_LEN {
        Err(FetchErrorView::Decode)
    } else {
        Ok(zipped(book_info_of(p, decoded_text(body))))
    }
}

/// What a search gives for the transport's answer: a body is parsed, a
/// failure is passed on with the transport's description.
pub open spec fn searched(p: PatternsView, response: Result<Seq<u8>, Seq<char>>) -> Result<
    Seq<BookView>,
    FetchErrorView,
> {
    match response {
        Ok(body) => parsed(p, body),
        Err(details) => Err(FetchErrorView::Network(details)),
    }
}

/// Runs the four patterns over a page's text.
pub fn extract_book_info(patterns: &Patterns, text: &str) -> (info: BookInfo)
    ensures
        info@ == book_info_of(patterns@, text@),
{
    proof {
        use_type_invariant(patterns);
    }
    let titles = captured(&first_groups(&patterns.title, text));
    let authors = captured(&first_groups(&patterns.author, text));
    let urls = absolutize_all(&captured(&first_groups(&patterns.url, text)));
    let thumbnails = absolutize_all(&captured(&first_groups(&patterns.thumbnail, text)));
    BookInfo { titles, authors, urls, thumbnails }
}

/// Makes records of the four sequences by position. Where the sequences
/// differ in length, what lies beyond the shortest is left out.
pub fn zip_books(info: &BookInfo) -> (books: Vec<Book>)
    ensures
        views_of(books@) == zipped(info@),
        books.len() <= info.titles.len(),
        books.len() <= info.authors.len(),
        books.len() <= info.urls.len(),
        books.len() <= info.thumbnails.len(),
{
    let mut count = info.titles.len();
    if info.authors.len() < count {
        count = info.authors.len();
    }
    if info.urls.len() < count {
        count = info.urls.len();
    }
    if info.thumbnails.len() < count {
        count = info.thumbnails.len();
    }
    let mut books: Vec<Book> = Vec::new();
    let mut k: usize = 0;
    while k < count
        invariant
            k <= count,
            count == shortest(info@),
            count <= info.titles.len(),
            count <= info.authors.len(),
            count <= info.urls.len(),
            count <= info.thumbnails.len(),
            books.len() == k,
            forall|i: int| 0 <= i < k ==> #[trigger] books[i]@ == zipped(info@)[i],
        decreases count - k,
    {
        books.push(
            Book::new(
                info.titles[k].as_str(),
                info.authors[k].as_str(),
                info.urls[k].as_str(),
                info.thumbnails[k].as_str(),
            ),
        );
        k += 1;
    }
    assert(views_of(books@) =~= zipped(info@));
    books
}

/// Reads a response body: decodes it, runs the patterns and makes the
/// records. A page without matches gives no records, which is no failure.
pub fn parse_body(patterns: &Patterns, body: &[u8]) -> (outcome: Result<Vec<Book>, FetchError>)
    ensures
        outcome_view(outcome) == parsed(patterns@, body@),
{
    if body.len() > MAX_BODY_LEN {
        return Err(FetchError::Decode);
    }
    let text = decode_windows_1252(body);
    let info = extract_book_info(patterns, text.as_str());
    Ok(zip_books(&info))
}

/// Turns the transport's answer into the outcome of the search: a body is
/// parsed, a failure is passed on with the transport's description.
pub fn search_outcome(patterns: &Patterns, response: Result<Vec<u8>, String>) -> (outcome: Result<
    Vec<Book>,
    FetchError,
>)
    ensures
        outcome_view(outcome) == searched(
            patterns@,
            match response {
                Ok(body) => Ok(body@),
                Err(details) => Err(details@),
            },
        ),
{
    match response {
        Ok(body) => parse_body(patterns, body.as_slice()),
        Err(details) => Err(FetchError::Network(details)),
    }
}

} // verus!
