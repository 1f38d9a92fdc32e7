//! The closed classification of everything that can go wrong with a request.

use vstd::prelude::*;
use vstd::std_specs::convert::FromSpecImpl;
use vstd::string::StringExecFns;

verus! {

/// `reqwest::Error`, the failure of the non-blocking transport. Nothing is
/// claimed of what it holds.
#[verifier::external_type_specification]
#[verifier::external_body]
pub struct ExAsyncTransportFailure(reqwest::Error);

/// `ureq::Error`, the failure of the blocking transport. Nothing is claimed of
/// what it holds.
#[verifier::external_type_specification]
#[verifier::external_body]
pub struct ExTransportFailure(ureq::Error);

/// `std::io::Error`, raised while a response body is read as text. Nothing is
/// claimed of what it holds.
#[verifier::external_type_specification]
#[verifier::external_body]
pub struct ExReadFailure(std::io::Error);

/// `serde_json::Error`, the reason a body is not the JSON that was expected.
/// Nothing is claimed of what it holds.
#[verifier::external_type_specification]
#[verifier::external_body]
pub struct ExJsonFailure(serde_json::Error);

/// `url::ParseError`, the reason a text is not a URL. Nothing is claimed of
/// what it holds.
#[verifier::external_type_specification]
#[verifier::external_body]
pub struct ExUrlFailure(url::ParseError);

/// A failed request. The first five kinds carry the cause as the transport or
/// the parser reported it; the last two carry a fixed message.
#[derive(Debug)]
pub enum NewsApiError {
    /// The non-blocking transport failed.
    AsyncRequestError(reqwest::Error),
    /// The blocking transport failed.
    TransportError(ureq::Error),
    /// The response body could not be read as text.
    ConversionError(std::io::Error),
    /// The response body is not JSON of the expected shape.
    ParseError(serde_json::Error),
    /// The request URL could not be built.
    UrlParseError(url::ParseError),
    /// The service reported a failure this library has no name for.
    UnknownError(&'static str),
    /// The service rejected the request itself.
    BadRequest(&'static str),
}

/// What a [`NewsApiError`] says once its opaque cause is set aside: the kind,
/// and the message of the two kinds that have one.
pub enum Failure {
    AsyncRequest,
    Transport,
    Conversion,
    Parse,
    UrlParse,
    Unknown(Seq<char>),
    BadRequest(Seq<char>),
}

impl Failure {
    /// The text a failure is reported with.
    pub open spec fn message(self) -> Seq<char> {
        match self {
            Failure::AsyncRequest => "Failed to fetch articles"@,
            Failure::Transport => "Failed to fetch articles"@,
            Failure::Conversion => "Failed to convert the response to string"@,
            Failure::Parse => "Failed to parse the response"@,
            Failure::UrlParse => "Failed to parse the URL"@,
            Failure::Unknown(detail) => "Error: "@ + detail,
            Failure::BadRequest(detail) => "Request failed: "@ + detail,
        }
    }
}

impl View for NewsApiError {
    type V = Failure;

    open spec fn view(&self) -> Failure {
        match self {
            NewsApiError::AsyncRequestError(_) => Failure::AsyncRequest,
            NewsApiError::TransportError(_) => Failure::Transport,
            NewsApiError::ConversionError(_) => Failure::Conversion,
            NewsApiError::ParseError(_) => Failure::Parse,
            NewsApiError::UrlParseError(_) => Failure::UrlParse,
            NewsApiError::UnknownError(detail) => Failure::Unknown(detail@),
            NewsApiError::BadRequest(detail) => Failure::BadRequest(detail@),
        }
    }
}

impl ToString for NewsApiError {
    /// The text the error is reported with. The cause, where there is one,
    /// is not part of it.
    fn to_string(&self) -> (text: String)
        ensures
            text@ == self@.message(),
    {
        match self {
            NewsApiError::AsyncRequestError(_) => "Failed to fetch articles".to_string(),
            NewsApiError::TransportError(_) => "Failed to fetch articles".to_string(),
            NewsApiError::ConversionError(_) => "Failed to convert the response to string".to_string(),
            NewsApiError::ParseError(_) => "Failed to parse the response".to_string(),
            NewsApiError::UrlParseError(_) => "Failed to parse the URL".to_string(),
            NewsApiError::UnknownError(detail) => "Error: ".to_string().concat(detail),
            NewsApiError::BadRequest(detail) => "Request failed: ".to_string().concat(detail),
        }
    }
}

impl From<reqwest::Error> for NewsApiError {
    fn from(cause: reqwest::Error) -> (error: NewsApiError) {
        NewsApiError::AsyncRequestError(cause)
    }
}

impl FromSpecImpl<reqwest::Error> for NewsApiError {
    open spec fn obeys_from_spec() -> bool {
        true
    }

    open spec fn from_spec(cause: reqwest::Error) -> NewsApiError {
        NewsApiError::AsyncRequestError(cause)
    }
}

impl From<ureq::Error> for NewsApiError {
    fn from(cause: ureq::Error) -> (error: NewsApiError) {
        NewsApiError::TransportError(cause)
    }
}

impl FromSpecImpl<ureq::Error> for NewsApiError {
    open spec fn obeys_from_spec() -> bool {
        true
    }

    open spec fn from_spec(cause: ureq::Error) -> NewsApiError {
        NewsApiError::TransportError(cause)
    }
}

impl From<std::io::Error> for NewsApiError {
    fn from(cause: std::io::Error) -> (error: NewsApiError) {
        NewsApiError::ConversionError(cause)
    }
}

impl FromSpecImpl<std::io::Error> for NewsApiError {
    open spec fn obeys_from_spec() -> bool {
        true
    }

    open spec fn from_spec(cause: std::io::Error) -> NewsApiError {
        NewsApiError::ConversionError(cause)
    }
}

impl From<serde_json::Error> for NewsApiError {
    fn from(cause: serde_json::Error) -> (error: NewsApiError) {
        NewsApiError::ParseError(cause)
    }
}

impl FromSpecImpl<serde_json::Error> for NewsApiError {
    open spec fn obeys_from_spec() -> bool {
        true
    }

    open spec fn from_spec(cause: serde_json::Error) -> NewsApiError {
        NewsApiError::ParseError(cause)
    }
}

impl From<url::ParseError> for NewsApiError {
    fn from(cause: url::ParseError) -> (error: NewsApiError) {
        NewsApiError::UrlParseError(cause)
    }
}

impl FromSpecImpl<url::ParseError> for NewsApiError {
    open spec fn obeys_from_spec() -> bool {
        true
    }

    open spec fn from_spec(cause: url::ParseError) -> NewsApiError {
        NewsApiError::UrlParseError(cause)
    }
}

/// The failure that a service-reported error code stands for. Only one code
/// has a kind of its own; every other code, and the absence of one, is an
/// unknown failure, told apart by the case of one letter.
pub open spec fn response_failure(code: Option<Seq<char>>) -> Failure {
    match code {
        Some(code) => if code == "apiKeyDisabled"@ {
            Failure::BadRequest("Your API key has been disabled"@)
        } else {
            Failure::Unknown("Unknown error"@)
        },
        None => Failure::Unknown("Unknown Error"@),
    }
}

/// Classifies the error code of a response whose status is not the success
/// marker.
pub fn map_response_err(code: Option<String>) -> (error: NewsApiError)
    ensures
        error@ == response_failure(
            match code {
                Some(code) => Some(code@),
                None => None,
            },
        ),
{
    match code {
        Some(code) => {
            if code == "apiKeyDisabled".to_string() {
                NewsApiError::BadRequest("Your API key has been disabled")
            } else {
                NewsApiError::UnknownError("Unknown error")
            }
        },
        None => NewsApiError::UnknownError("Unknown Error"),
    }
}

} // verus!
