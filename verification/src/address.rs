//! URLs as the `url` crate reads them. A parsed URL stays a `url::Url`; the
//! names below say which URL the crate makes of a text and what text it
//! writes a URL out as. Nothing in this file is proved: each function states
//! what the call in its body returns.

use url::Url;
use vstd::prelude::*;

verus! {

/// `url::Url`, a parsed absolute URL. Its text is told by [`url_text`].
#[verifier::external_type_specification]
#[verifier::external_body]
pub struct ExUrl(Url);

/// The URL that `Url::parse` reads from a text, where it reads one.
pub uninterp spec fn url_parsed(text: Seq<char>) -> Option<Url>;

/// The URL that `Url::join` resolves a reference to against a base, where
/// it resolves to one.
pub uninterp spec fn url_joined(base: Url, reference: Seq<char>) -> Option<Url>;

/// The text that `Url::as_str` gives: the URL written out in full.
pub uninterp spec fn url_text(url: Url) -> Seq<char>;

/// `Url::parse`: reads an absolute URL from a text. The outcome depends on
/// the text alone, so it has a name.
#[verifier::external_body]
pub(crate) fn parse_url(text: &str) -> (parsed: Result<Url, url::ParseError>)
    ensures
        match parsed {
            Ok(url) => url_parsed(text@) == Some(url),
            Err(_) => url_parsed(text@) is None,
        },
{
    Url::parse(text)
}

/// `Url::join`: resolves a reference against a base URL, as a browser
/// resolves a link on a page. The outcome depends on the base and the
/// reference alone, so it has a name.
#[verifier::external_body]
pub(crate) fn join_url(base: &Url, reference: &str) -> (joined: Result<Url, url::ParseError>)
    ensures
        match joined {
            Ok(url) => url_joined(*base, reference@) == Some(url),
            Err(_) => url_joined(*base, reference@) is None,
        },
{
    base.join(reference)
}

/// `Url::as_str`: the URL written out in full.
#[verifier::external_body]
pub(crate) fn url_as_str(url: &Url) -> (text: &str)
    ensures
        text@ == url_text(*url),
{
    url.as_str()
}

} // verus!
