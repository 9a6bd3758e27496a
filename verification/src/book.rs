//! One catalogue entry and the texts derived from it.

use vstd::prelude::*;

verus! {

/// What a [`Book`] holds, as mathematical strings.
#[verifier::ext_equal]
pub struct BookView {
    pub title: Seq<char>,
    pub author: Seq<char>,
    pub url: Seq<char>,
    pub thumbnail: Seq<char>,
}

/// One extracted entry. Its fields never change after construction.
#[derive(Debug, Clone, PartialEq, Eq)]
pub struct Book {
    title: String,
    author: String,
    url: String,
    thumbnail: String,
}

impl View for Book {
    type V = BookView;

    closed spec fn view(&self) -> BookView {
        BookView {
            title: self.title@,
            author: self.author@,
            url: self.url@,
            thumbnail: self.thumbnail@,
        }
    }
}

/// The line shown for an entry in the result list: title, `" by "`, author.
pub open spec fn label_text(b: BookView) -> Seq<char> {
    b.title + " by "@ + b.author
}

/// The text exported for an entry: a first line with title and author, a
/// second with a Markdown link to the catalogue page, a third with the
/// thumbnail address.
pub open spec fn markdown_of(b: BookView) -> Seq<char> {
    b.title + " par "@ + b.author + "\n- Sur [Babelio]("@ + b.url + ")\nThumb: "@ + b.thumbnail
}

impl Book {
    pub fn new(title: &str, author: &str, url: &str, thumbnail: &str) -> (book: Book)
        ensures
            book@ == (BookView { title: title@, author: author@, url: url@, thumbnail: thumbnail@ }),
    {
        Book {
            title: title.to_owned(),
            author: author.to_owned(),
            url: url.to_owned(),
            thumbnail: thumbnail.to_owned(),
        }
    }

    pub fn title(&self) -> (s: &str)
        ensures
            s@ == self@.title,
    {
        self.title.as_str()
    }

    pub fn author(&self) -> (s: &str)
        ensures
            s@ == self@.author,
    {
        self.author.as_str()
    }

    pub fn url(&self) -> (s: &str)
        ensures
            s@ == self@.url,
    {
        self.url.as_str()
    }

    pub fn thumbnail(&self) -> (s: &str)
        ensures
            s@ == self@.thumbnail,
    {
        self.thumbnail.as_str()
    }

    /// The entry's line in the result list.
    pub fn label(&self) -> (line: String)
        ensures
            line@ == label_text(self@),
    {
        let mut line = self.title.clone();
        line.append(" by ");
        line.append(self.author.as_str());
        line
    }

    /// The entry's export text.
    pub fn markdown(&self) -> (text: String)
        ensures
            text@ == markdown_of(self@),
    {
        let mut text = self.title.clone();
        text.append(" par ");
        text.append(self.author.as_str());
        text.append("\n- Sur [Babelio](");
        text.append(self.url.as_str());
        text.append(")\nThumb: ");
        text.append(self.thumbnail.as_str());
        text
    }
}

} // verus!
