//! URLs, taken apart and put together.

use crate::text::has_prefix;
use vstd::prelude::*;

verus! {

/// What a URL consists of.
pub struct UrlParts {
    /// The URL in its normal form.
    pub text: String,
    pub host: Option<String>,
    /// The port, or the one that the scheme implies.
    pub port: Option<u16>,
    pub path: String,
    /// The decoded names and values of the query, in order.
    pub query: Vec<(String, String)>,
}

/// What a URL consists of, as texts.
#[verifier::ext_equal]
pub struct UrlPartsView {
    pub text: Seq<char>,
    pub host: Option<Seq<char>>,
    pub port: Option<u16>,
    pub path: Seq<char>,
    pub query: Seq<(Seq<char>, Seq<char>)>,
}

/// The names and values that a list of string pairs holds.
pub open spec fn pair_texts(pairs: Seq<(String, String)>) -> Seq<(Seq<char>, Seq<char>)> {
    pairs.map_values(|p: (String, String)| (p.0@, p.1@))
}

impl View for UrlParts {
    type V = UrlPartsView;

    open spec fn view(&self) -> UrlPartsView {
        UrlPartsView {
            text: self.text@,
            host: match self.host {
                Some(h) => Some(h@),
                None => None,
            },
            port: self.port,
            path: self.path@,
            query: pair_texts(self.query@),
        }
    }
}

/// What a text consists of as a URL, where it is one.
pub uninterp spec fn url_parts(text: Seq<char>) -> Option<UrlPartsView>;

/// The URL `text` with its query made of the given names and values.
pub uninterp spec fn url_with_query(
    text: Seq<char>,
    pairs: Seq<(Seq<char>, Seq<char>)>,
) -> Seq<char>;

/// The URL `text` with another path.
pub uninterp spec fn url_with_path(text: Seq<char>, path: Seq<char>) -> Seq<char>;

/// Reading the URL's normal form gives the same URL.
pub open spec fn reads_back(parts: UrlPartsView) -> bool {
    url_parts(parts.text) == Some(parts)
}

/// The URL is the address of a file.
pub open spec fn of_a_file(parts: UrlPartsView) -> bool {
    has_prefix(parts.text, "file:"@)
}

/// Calls `url::Url::parse` and reads the parts off the result: whether the
/// text is a URL, and its parts, depend on the text alone. The normal form of a
/// URL reads back, which is not claimed of the address of a file: there the
/// reader drops empty segments at the start of the path, and may find a drive
/// letter only when it reads the result.
#[verifier::external_body]
pub(crate) fn parse_url(text: &str) -> (parts: Option<UrlParts>)
    ensures
        match parts {
            Some(p) => url_parts(text@) == Some(p@),
            None => url_parts(text@) is None,
        },
        parts matches Some(p) ==> (!of_a_file(p@) ==> reads_back(p@)),
{
    url::Url::parse(text).ok().map(|u| UrlParts {
        text: u.to_string(),
        host: u.host().map(|h| h.to_string()),
        port: u.port_or_known_default(),
        path: u.path().to_string(),
        query: u.query_pairs().map(|p| (p.0.into_owned(), p.1.into_owned())).collect(),
    })
}

/// Calls `url::Url::set_query` to drop the query and appends each pair with
/// `append_pair` of `query_pairs_mut`: the result depends on the URL and the
/// pairs alone. Where the URL reads back, the result is a URL whose query
/// consists of the pairs, and replacing the query once more gives what
/// replacing it in the first place would have given. Nothing is returned for a
/// text that is no URL.
#[verifier::external_body]
pub(crate) fn replace_query(text: &str, pairs: &Vec<(String, String)>) -> (changed: Option<String>)
    ensures
        changed is Some <==> url_parts(text@) is Some,
        changed is Some ==> changed->0@ == url_with_query(text@, pair_texts(pairs@)),
        changed is Some && reads_back(url_parts(text@)->0) ==> url_parts(changed->0@) is Some
            && url_parts(changed->0@)->0.query == pair_texts(pairs@),
        changed is Some && reads_back(url_parts(text@)->0) ==> (forall|
            others: Seq<(Seq<char>, Seq<char>)>,
        | #[trigger]
            url_with_query(changed->0@, others) == url_with_query(text@, others)),
{
    let mut parsed = url::Url::parse(text).ok()?;
    parsed.set_query(None);
    parsed.query_pairs_mut().extend_pairs(pairs);
    Some(parsed.into())
}

/// Calls `url::Url::set_path`: the result depends on the URL and the path
/// alone. Nothing is returned for a text that is no URL.
#[verifier::external_body]
pub(crate) fn replace_path(text: &str, path: &str) -> (changed: Option<String>)
    ensures
        changed is Some <==> url_parts(text@) is Some,
        changed is Some ==> changed->0@ == url_with_path(text@, path@),
{
    let mut parsed = url::Url::parse(text).ok()?;
    parsed.set_path(path);
    Some(parsed.into())
}

} // verus!
