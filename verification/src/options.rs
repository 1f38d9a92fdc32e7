//! The closed sets of values a request can be configured with.

use vstd::prelude::*;

verus! {

/// The service resource a request is addressed to.
#[derive(Clone, Copy, Debug, PartialEq, Eq, Structural)]
pub enum Endpoint {
    TopHeadlines,
}

impl Endpoint {
    /// The path segment that names this endpoint in a request URL.
    pub open spec fn rendering(self) -> Seq<char> {
        match self {
            Endpoint::TopHeadlines => "top-headlines"@,
        }
    }
}

impl ToString for Endpoint {
    /// The endpoint as it is written in a URL.
    fn to_string(&self) -> (text: String)
        ensures
            text@ == self.rendering(),
    {
        match self {
            Endpoint::TopHeadlines => "top-headlines".to_string(),
        }
    }
}

/// The country whose sources a request is limited to.
#[derive(Clone, Copy, Debug, PartialEq, Eq, Structural)]
pub enum Country {
    US,
    SE,
}

impl Country {
    /// The two-letter code that stands for this country in a query string.
    pub open spec fn rendering(self) -> Seq<char> {
        match self {
            Country::US => "us"@,
            Country::SE => "se"@,
        }
    }
}

impl ToString for Country {
    /// The country as it is written in a URL.
    fn to_string(&self) -> (text: String)
        ensures
            text@ == self.rendering(),
    {
        match self {
            Country::US => "us".to_string(),
            Country::SE => "se".to_string(),
        }
    }
}

/// No value renders as the empty text, and two countries never render alike:
/// a URL always tells which endpoint and which country were selected.
pub proof fn law_renderings_tell_values_apart(
    endpoint: Endpoint,
    country: Country,
    other_country: Country,
)
    ensures
        endpoint.rendering().len() > 0,
        country.rendering().len() == 2,
        country.rendering() == other_country.rendering() ==> country == other_country,
{
    reveal_strlit("top-headlines");
    reveal_strlit("us");
    reveal_strlit("se");
    assert(country.rendering()[0] == other_country.rendering()[0] ==> country == other_country);
}

} // verus!
