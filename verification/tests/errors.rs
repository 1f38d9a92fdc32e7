use newsapi::NewsApiError;

fn json_failure() -> serde_json::Error {
    serde_json::from_str::<serde_json::Value>("{").unwrap_err()
}

fn read_failure() -> std::io::Error {
    std::io::Error::new(std::io::ErrorKind::InvalidData, "not text")
}

#[test]
fn messages_follow_the_kind() {
    assert_eq!(
        NewsApiError::TransportError(ureq::Error::from(read_failure())).to_string(),
        "Failed to fetch articles"
    );
    assert_eq!(
        NewsApiError::ConversionError(read_failure()).to_string(),
        "Failed to convert the response to string"
    );
    assert_eq!(
        NewsApiError::ParseError(json_failure()).to_string(),
        "Failed to parse the response"
    );
    assert_eq!(
        NewsApiError::UrlParseError(url::ParseError::InvalidPort).to_string(),
        "Failed to parse the URL"
    );
    assert_eq!(
        NewsApiError::UnknownError("Unknown error").to_string(),
        "Error: Unknown error"
    );
    assert_eq!(
        NewsApiError::UnknownError("Unknown Error").to_string(),
        "Error: Unknown Error"
    );
    assert_eq!(
        NewsApiError::BadRequest("Your API key has been disabled").to_string(),
        "Request failed: Your API key has been disabled"
    );
}

#[test]
fn async_transport_failure_has_the_transport_message() {
    let cause = reqwest::Client::new().get("no scheme").build().unwrap_err();
    let error = NewsApiError::from(cause);
    assert!(matches!(error, NewsApiError::AsyncRequestError(_)));
    assert_eq!(error.to_string(), "Failed to fetch articles");
}

#[test]
fn each_cause_converts_to_its_kind() {
    assert!(matches!(
        NewsApiError::from(ureq::Error::from(read_failure())),
        NewsApiError::TransportError(_)
    ));
    assert!(matches!(
        NewsApiError::from(read_failure()),
        NewsApiError::ConversionError(_)
    ));
    assert!(matches!(
        NewsApiError::from(json_failure()),
        NewsApiError::ParseError(_)
    ));
    assert!(matches!(
        NewsApiError::from(url::ParseError::RelativeUrlWithoutBase),
        NewsApiError::UrlParseError(url::ParseError::RelativeUrlWithoutBase)
    ));
}

#[test]
fn conversion_keeps_the_cause() {
    let cause = json_failure();
    let text = cause.to_string();
    match NewsApiError::from(cause) {
        NewsApiError::ParseError(kept) => assert_eq!(kept.to_string(), text),
        other => panic!("unexpected kind: {:?}", other),
    }
    match NewsApiError::from(read_failure()) {
        NewsApiError::ConversionError(kept) => {
            assert_eq!(kept.kind(), std::io::ErrorKind::InvalidData)
        }
        other => panic!("unexpected kind: {:?}", other),
    }
}
