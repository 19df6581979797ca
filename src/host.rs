use vstd::prelude::*;

verus! {

/// The host of an absolute URL as the URL parser reads it, or `None` where
/// the text does not parse or names no host.
pub uninterp spec fn host_of(url: Seq<char>) -> Option<Seq<char>>;

/// Relies on reqwest::Url::parse and Url::host_str: the host of `url`, `None`
/// where it does not parse or has no host.
#[verifier::external_body]
pub(crate) fn parse_host(url: &str) -> (r: Option<String>)
    ensures
        r is None <==> host_of(url@) is None,
        r matches Some(h) ==> host_of(url@) == Some(h@),
{
    reqwest::Url::parse(url).ok().and_then(|u| u.host_str().map(|h| h.to_string()))
}

/// The host of a status URL, `None` where the URL does not parse or names no
/// host.
pub fn status_host(url: &String) -> (r: Option<String>)
    ensures
        r is None <==> host_of(url@) is None,
        r matches Some(h) ==> host_of(url@) == Some(h@),
{
    parse_host(url.as_str())
}

} // verus!
