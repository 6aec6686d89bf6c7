//! Addresses, as the `url` crate holds them.
use url::Url;
use vstd::prelude::*;

verus! {

/// `url::Url`, carried opaquely.
#[verifier::external_type_specification]
#[verifier::external_body]
pub struct ExUrl(url::Url);

/// The path that an address holds.
pub uninterp spec fn url_path(url: url::Url) -> Seq<char>;

/// The query that an address holds, if any.
pub uninterp spec fn url_query(url: url::Url) -> Option<Seq<char>>;

/// The whole text of an address.
pub uninterp spec fn url_text(url: url::Url) -> Seq<char>;

/// `url::Url::path`: the path of the address.
#[verifier::external_body]
pub(crate) fn path_of(url: &Url) -> (path: &str)
    ensures
        path@ == url_path(*url),
{
    url.path()
}

/// `url::Url::query`: the query of the address, if any.
#[verifier::external_body]
pub(crate) fn query_of(url: &Url) -> (query: Option<&str>)
    ensures
        match query {
            Some(query) => url_query(*url) == Some(query@),
            None => url_query(*url) is None,
        },
{
    url.query()
}

/// `url::Url::as_str`: the whole text of the address.
#[verifier::external_body]
pub(crate) fn text_of_url(url: &Url) -> (text: &str)
    ensures
        text@ == url_text(*url),
{
    url.as_str()
}

} // verus!
