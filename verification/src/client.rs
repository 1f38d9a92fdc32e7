//! The client: a key, a selected endpoint and a selected country, and what
//! to ask the service with them.

use crate::address::join_url;
use crate::address::parse_url;
use crate::address::url_as_str;
use crate::address::url_joined;
use crate::address::url_parsed;
use crate::address::url_text;
use crate::error::Failure;
use crate::error::NewsApiError;
use crate::options::Country;
use crate::options::Endpoint;
use vstd::prelude::*;
use vstd::string::StringExecFns;

verus! {

/// Where the service lives. Every request URL is resolved against it.
pub const BASE_URL: &'static str = "https://newsapi.org/v2/";

/// The header that carries the key.
pub const KEY_HEADER: &'static str = "Authorization";

/// The query of a request: one parameter, the country.
pub open spec fn query_text(country: Country) -> Seq<char> {
    "country="@ + country.rendering()
}

/// What is resolved against the base: the endpoint as the last path segment,
/// then the query.
pub open spec fn reference_text(endpoint: Endpoint, country: Country) -> Seq<char> {
    endpoint.rendering() + "?"@ + query_text(country)
}

/// The URL of a request, as the `url` crate writes it out once it has parsed
/// the base and resolved the reference against it; none where it refuses
/// either.
pub open spec fn prepared_url(endpoint: Endpoint, country: Country) -> Option<Seq<char>> {
    match url_parsed(BASE_URL@) {
        Some(base) => match url_joined(base, reference_text(endpoint, country)) {
            Some(url) => Some(url_text(url)),
            None => None,
        },
        None => None,
    }
}

/// What to send to the service: an HTTP `GET` of a URL, with the key as the
/// whole value of the `Authorization` header.
#[derive(Debug)]
pub struct Request {
    url: String,
    authorization: String,
}

/// A [`Request`] as contracts see it.
pub struct RequestView {
    pub url: Seq<char>,
    pub authorization: Seq<char>,
}

impl View for Request {
    type V = RequestView;

    closed spec fn view(&self) -> RequestView {
        RequestView { url: self.url@, authorization: self.authorization@ }
    }
}

impl Request {
    /// The URL to get.
    pub fn url(&self) -> (url: &str)
        ensures
            url@ == self@.url,
    {
        self.url.as_str()
    }

    /// The value of the `Authorization` header.
    pub fn authorization(&self) -> (value: &str)
        ensures
            value@ == self@.authorization,
    {
        self.authorization.as_str()
    }
}

/// A configured client. It always has exactly one endpoint and one country
/// selected.
pub struct NewsAPI {
    api_key: String,
    endpoint: Endpoint,
    country: Country,
}

/// A [`NewsAPI`] as contracts see it.
pub struct ClientView {
    pub api_key: Seq<char>,
    pub endpoint: Endpoint,
    pub country: Country,
}

impl ClientView {
    /// The same client with another endpoint selected.
    pub open spec fn with_endpoint(self, endpoint: Endpoint) -> ClientView {
        ClientView { endpoint, ..self }
    }

    /// The same client with another country selected.
    pub open spec fn with_country(self, country: Country) -> ClientView {
        ClientView { country, ..self }
    }
}

impl View for NewsAPI {
    type V = ClientView;

    closed spec fn view(&self) -> ClientView {
        ClientView { api_key: self.api_key@, endpoint: self.endpoint, country: self.country }
    }
}

impl NewsAPI {
    /// A client for the top headlines of the United States. The key is taken
    /// as it is, whatever it holds.
    pub fn new(api_key: &str) -> (client: NewsAPI)
        ensures
            client@ == (ClientView {
                api_key: api_key@,
                endpoint: Endpoint::TopHeadlines,
                country: Country::US,
            }),
    {
        NewsAPI {
            api_key: api_key.to_string(),
            endpoint: Endpoint::TopHeadlines,
            country: Country::US,
        }
    }

    /// Selects the endpoint, in place of the one selected before, and hands
    /// the client back for the next call.
    pub fn endpoint(&mut self, endpoint: Endpoint) -> (client: &mut NewsAPI)
        ensures
            client@ == old(self)@.with_endpoint(endpoint),
            *final(self) == *final(client),
    {
        self.endpoint = endpoint;
        self
    }

    /// Selects the country, in place of the one selected before, and hands
    /// the client back for the next call.
    pub fn country(&mut self, country: Country) -> (client: &mut NewsAPI)
        ensures
            client@ == old(self)@.with_country(country),
            *final(self) == *final(client),
    {
        self.country = country;
        self
    }

    /// The query of the request: `country=` and the code of the selected
    /// country, and no other parameter.
    pub fn query(&self) -> (query: String)
        ensures
            query@ == query_text(self@.country),
    {
        "country=".to_string().concat(self.country.to_string().as_str())
    }

    /// The URL to ask: the base, the selected endpoint as the last segment
    /// of its path, and the query. The `url` crate parses the base and
    /// resolves the rest against it; where it refuses, the error is its own.
    pub fn prepare_url(&self) -> (prepared: Result<String, NewsApiError>)
        ensures
            match prepared_url(self@.endpoint, self@.country) {
                Some(text) => prepared matches Ok(url) && url@ == text,
                None => prepared matches Err(error) && error@ == Failure::UrlParse,
            },
    {
        let base = match parse_url(BASE_URL) {
            Ok(base) => base,
            Err(error) => return Err(NewsApiError::UrlParseError(error)),
        };
        let reference = self.endpoint.to_string().concat("?").concat(self.query().as_str());
        match join_url(&base, reference.as_str()) {
            Ok(url) => Ok(url_as_str(&url).to_string()),
            Err(error) => Err(NewsApiError::UrlParseError(error)),
        }
    }

    /// The request that a fetch sends: the prepared URL, and the key as it
    /// was given, with no scheme before it.
    pub fn request(&self) -> (request: Result<Request, NewsApiError>)
        ensures
            match prepared_url(self@.endpoint, self@.country) {
                Some(text) => request matches Ok(ask) && ask@ == (RequestView {
                    url: text,
                    authorization: self@.api_key,
                }),
                None => request matches Err(error) && error@ == Failure::UrlParse,
            },
    {
        match self.prepare_url() {
            Ok(url) => Ok(Request { url, authorization: self.api_key.clone() }),
            Err(error) => Err(error),
        }
    }
}

/// Selecting a country leaves nothing of the selection before it: after two
/// selections the client is as after the second alone, so selecting the same
/// country again changes nothing. The endpoint and the key stay as they
/// were, and the URL is the one of the last selection.
pub proof fn law_country_is_overwritten(client: ClientView, first: Country, second: Country)
    ensures
        client.with_country(first).with_country(second) == client.with_country(second),
        client.with_country(second).with_country(second) == client.with_country(second),
        client.with_country(second).endpoint == client.endpoint,
        client.with_country(second).api_key == client.api_key,
        prepared_url(
            client.with_country(first).with_country(second).endpoint,
            client.with_country(first).with_country(second).country,
        ) == prepared_url(client.endpoint, second),
{
}

/// Selecting an endpoint leaves nothing of the selection before it: after
/// two selections the client is as after the second alone, so selecting the
/// same endpoint again changes nothing. The country and the key stay as
/// they were, and the URL is the one of the last selection.
pub proof fn law_endpoint_is_overwritten(client: ClientView, first: Endpoint, second: Endpoint)
    ensures
        client.with_endpoint(first).with_endpoint(second) == client.with_endpoint(second),
        client.with_endpoint(second).with_endpoint(second) == client.with_endpoint(second),
        client.with_endpoint(second).country == client.country,
        client.with_endpoint(second).api_key == client.api_key,
        prepared_url(
            client.with_endpoint(first).with_endpoint(second).endpoint,
            client.with_endpoint(first).with_endpoint(second).country,
        ) == prepared_url(second, client.country),
{
}

/// The two selections do not touch each other: in either order they leave
/// the same client.
pub proof fn law_selections_commute(client: ClientView, endpoint: Endpoint, country: Country)
    ensures
        client.with_endpoint(endpoint).with_country(country) == client.with_country(
            country,
        ).with_endpoint(endpoint),
{
}

/// What is asked reflects both selections: the reference that is resolved
/// against the base has the form `<endpoint>?country=<country>`, and two
/// selections that differ give two references that differ.
pub proof fn law_reference_reflects_selection(
    endpoint: Endpoint,
    country: Country,
    other_endpoint: Endpoint,
    other_country: Country,
)
    ensures
        reference_text(endpoint, country) == endpoint.rendering() + "?country="@
            + country.rendering(),
        reference_text(endpoint, country) == reference_text(other_endpoint, other_country)
            ==> endpoint == other_endpoint && country == other_country,
{
    reveal_strlit("top-headlines");
    reveal_strlit("?");
    reveal_strlit("country=");
    reveal_strlit("?country=");
    reveal_strlit("us");
    reveal_strlit("se");
    assert(reference_text(other_endpoint, other_country)[22] == other_country.rendering()[0]);
}

/// The query that is handed to the `url` crate names one parameter and no
/// more: it is `country=` and the two letters of the country, with its only
/// `=` after the name and no `&` anywhere.
pub proof fn law_query_has_one_parameter(country: Country)
    ensures
        query_text(country).len() == 10,
        query_text(country).subrange(0, 8) == "country="@,
        forall|i: int| 0 <= i < 10 ==> query_text(country)[i] != '&',
        forall|i: int| 0 <= i < 10 ==> (query_text(country)[i] == '=' <==> i == 7),
        query_text(country).subrange(8, 10) == country.rendering(),
{
    reveal_strlit("country=");
    reveal_strlit("us");
    reveal_strlit("se");
}

} // verus!
