//! The one request that a search sends.

use vstd::prelude::*;

verus! {

/// What a [`SearchRequest`] holds, as mathematical strings.
#[verifier::ext_equal]
pub struct SearchRequestView {
    pub url: Seq<char>,
    pub headers: Seq<(Seq<char>, Seq<char>)>,
    pub form: Seq<(Seq<char>, Seq<char>)>,
}

/// A form-encoded POST: where it goes, the headers it carries and the fields
/// of its form, each as a name and a value.
#[derive(Debug, Clone, PartialEq, Eq)]
pub struct SearchRequest {
    pub url: &'static str,
    pub headers: Vec<(&'static str, &'static str)>,
    pub form: Vec<(&'static str, String)>,
}

impl View for SearchRequest {
    type V = SearchRequestView;

    open spec fn view(&self) -> SearchRequestView {
        SearchRequestView {
            url: self.url@,
            headers: Seq::new(
                self.headers.len() as nat,
                |i: int| (self.headers[i].0@, self.headers[i].1@),
            ),
            form: Seq::new(self.form.len() as nat, |i: int| (self.form[i].0@, self.form[i].1@)),
        }
    }
}

/// The request for a query: the catalogue's search address, the headers of a
/// desktop browser, and a form of two fields, the query and an empty one that
/// the catalogue asks for.
pub open spec fn request_for(query: Seq<char>) -> SearchRequestView {
    SearchRequestView {
        url: "https://www.babelio.com/recherche.php"@,
        headers: seq![
            (
                "user-agent"@,
                "Mozilla/5.0 (Macintosh; Intel Mac OS X 10.15; rv:129.0) Gecko/20100101 Firefox/129.0"@,
            ),
            (
                "accept"@,
                "text/html,application/xhtml+xml,application/xml;q=0.9,image/avif,image/webp,image/png,image/svg+xml,*/*;q=0.8"@,
            ),
            ("accept-language"@, "en-US,en;q=0.8,fr;q=0.5,fr-FR;q=0.3"@),
        ],
        form: seq![("Recherche"@, query), ("recherche"@, Seq::<char>::empty())],
    }
}

/// The request to send for a query.
pub fn search_request(query: &str) -> (request: SearchRequest)
    ensures
        request@ == request_for(query@),
{
    let mut headers: Vec<(&'static str, &'static str)> = Vec::new();
    headers.push(
        (
            "user-agent",
            "Mozilla/5.0 (Macintosh; Intel Mac OS X 10.15; rv:129.0) Gecko/20100101 Firefox/129.0",
        ),
    );
    headers.push(
        (
            "accept",
            "text/html,application/xhtml+xml,application/xml;q=0.9,image/avif,image/webp,image/png,image/svg+xml,*/*;q=0.8",
        ),
    );
    headers.push(("accept-language", "en-US,en;q=0.8,fr;q=0.5,fr-FR;q=0.3"));
    let mut form: Vec<(&'static str, String)> = Vec::new();
    form.push(("Recherche", query.to_owned()));
    form.push(("recherche", String::new()));
    let request = SearchRequest { url: "https://www.babelio.com/recherche.php", headers, form };
    assert(request@.headers =~= request_for(query@).headers);
    assert(request@.form =~= request_for(query@).form);
    request
}

} // verus!
