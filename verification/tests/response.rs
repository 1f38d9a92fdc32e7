use newsapi::decode_response;
use newsapi::map_response_err;
use newsapi::read_response;
use newsapi::NewsApiError;
use newsapi::STATUS_OK;

const ONE_ARTICLE: &str = "{\"status\":\"ok\",\"totalResults\":1,\"articles\":[{\"source\":{\"id\":null,\"name\":\"BBC\"},\"title\":\"T\",\"author\":null,\"description\":null,\"url\":\"http://x\"}]}";

fn document(text: &str) -> serde_json::Value {
    serde_json::from_str(text).unwrap()
}

#[test]
fn successful_body_yields_its_article() {
    let response = read_response(ONE_ARTICLE).unwrap();
    assert_eq!(response.articles().len(), 1);
    assert_eq!(response.total_results(), 1);
    let article = &response.articles()[0];
    assert_eq!(article.source().name(), "BBC");
    assert_eq!(article.source().id(), None);
    assert_eq!(article.title(), "T");
    assert_eq!(article.author(), None);
    assert_eq!(article.description(), None);
    assert_eq!(article.url(), "http://x");
}

#[test]
fn disabled_key_is_a_bad_request() {
    let outcome = read_response("{\"status\":\"error\",\"code\":\"apiKeyDisabled\"}");
    match outcome {
        Err(NewsApiError::BadRequest(message)) => {
            assert_eq!(message, "Your API key has been disabled")
        }
        other => panic!("unexpected outcome: {:?}", other),
    }
}

#[test]
fn other_code_is_an_unknown_error() {
    let outcome = read_response("{\"status\":\"error\",\"code\":\"somethingElse\"}");
    match outcome {
        Err(NewsApiError::UnknownError(message)) => assert_eq!(message, "Unknown error"),
        other => panic!("unexpected outcome: {:?}", other),
    }
}

#[test]
fn missing_code_is_an_unknown_error_with_a_capital() {
    let outcome = read_response("{\"status\":\"error\"}");
    match outcome {
        Err(NewsApiError::UnknownError(message)) => {
            assert_eq!(message, "Unknown Error");
            assert_ne!(message, "Unknown error");
        }
        other => panic!("unexpected outcome: {:?}", other),
    }
}

#[test]
fn null_code_counts_as_missing() {
    let outcome = read_response("{\"status\":\"error\",\"code\":null}");
    assert!(matches!(
        outcome,
        Err(NewsApiError::UnknownError("Unknown Error"))
    ));
}

#[test]
fn invalid_json_is_a_parse_error() {
    for body in ["", "{", "{\"status\":\"ok\"", "not json", "{\"status\":}", "{} trailing"] {
        let outcome = read_response(body);
        assert!(
            matches!(outcome, Err(NewsApiError::ParseError(_))),
            "body {:?}",
            body
        );
    }
}

#[test]
fn json_of_another_shape_is_a_parse_error() {
    for body in [
        "[]",
        "3",
        "null",
        "\"ok\"",
        "{}",
        "{\"code\":\"apiKeyDisabled\"}",
        "{\"status\":1}",
        "{\"status\":null}",
        "{\"status\":\"error\",\"code\":7}",
        "{\"status\":\"ok\",\"code\":[],\"totalResults\":0,\"articles\":[]}",
    ] {
        let outcome = read_response(body);
        assert!(
            matches!(outcome, Err(NewsApiError::ParseError(_))),
            "body {:?}",
            body
        );
    }
}

#[test]
fn success_needs_the_whole_envelope() {
    for body in [
        "{\"status\":\"ok\"}",
        "{\"status\":\"ok\",\"totalResults\":1}",
        "{\"status\":\"ok\",\"articles\":[]}",
        "{\"status\":\"ok\",\"totalResults\":null,\"articles\":[]}",
        "{\"status\":\"ok\",\"totalResults\":0,\"articles\":null}",
        "{\"status\":\"ok\",\"totalResults\":0,\"articles\":{}}",
    ] {
        let outcome = read_response(body);
        assert!(
            matches!(outcome, Err(NewsApiError::ParseError(_))),
            "body {:?}",
            body
        );
    }
}

#[test]
fn total_results_is_an_unsigned_32_bit_integer() {
    let at_limit = read_response("{\"status\":\"ok\",\"totalResults\":4294967295,\"articles\":[]}");
    assert_eq!(at_limit.unwrap().total_results(), 4294967295);
    for total in ["4294967296", "-1", "1.5", "1.0", "\"1\"", "18446744073709551616"] {
        let body = format!(
            "{{\"status\":\"ok\",\"totalResults\":{},\"articles\":[]}}",
            total
        );
        assert!(
            matches!(read_response(&body), Err(NewsApiError::ParseError(_))),
            "total {}",
            total
        );
    }
}

#[test]
fn failure_status_needs_no_envelope() {
    let outcome = read_response(
        "{\"status\":\"error\",\"code\":\"apiKeyDisabled\",\"message\":\"disabled\",\"articles\":7}",
    );
    assert!(matches!(outcome, Err(NewsApiError::BadRequest(_))));
}

#[test]
fn only_the_success_marker_is_success() {
    assert_eq!(STATUS_OK, "ok");
    for status in ["OK", "Ok", "ok ", "", "okay", "error"] {
        let body = format!(
            "{{\"status\":\"{}\",\"totalResults\":0,\"articles\":[]}}",
            status
        );
        assert!(
            matches!(
                read_response(&body),
                Err(NewsApiError::UnknownError("Unknown Error"))
            ),
            "status {:?}",
            status
        );
    }
}

#[test]
fn code_is_matched_exactly() {
    for code in ["apikeydisabled", "apiKeyDisabled ", "", "APIKEYDISABLED"] {
        let body = format!("{{\"status\":\"error\",\"code\":\"{}\"}}", code);
        assert!(
            matches!(
                read_response(&body),
                Err(NewsApiError::UnknownError("Unknown error"))
            ),
            "code {:?}",
            code
        );
    }
}

#[test]
fn articles_keep_their_order_and_fields() {
    let body = "{\"status\":\"ok\",\"totalResults\":38,\"articles\":[\
        {\"source\":{\"id\":\"bbc-news\",\"name\":\"BBC News\"},\"title\":\"First\",\"author\":\"A. Writer\",\"description\":\"About the first\",\"url\":\"https://example.org/1\",\"publishedAt\":\"2020-01-01\"},\
        {\"source\":{\"name\":\"Second Source\"},\"title\":\"Second\",\"url\":\"not a url\"},\
        {\"source\":{\"id\":null,\"name\":\"\"},\"title\":\"\",\"author\":null,\"description\":\"\",\"url\":\"\"}\
        ]}";
    let response = read_response(body).unwrap();
    assert_eq!(response.total_results(), 38);
    let articles = response.articles();
    assert_eq!(articles.len(), 3);

    assert_eq!(articles[0].source().id(), Some("bbc-news"));
    assert_eq!(articles[0].source().name(), "BBC News");
    assert_eq!(articles[0].title(), "First");
    assert_eq!(articles[0].author(), Some("A. Writer"));
    assert_eq!(articles[0].description(), Some("About the first"));
    assert_eq!(articles[0].url(), "https://example.org/1");

    assert_eq!(articles[1].source().id(), None);
    assert_eq!(articles[1].source().name(), "Second Source");
    assert_eq!(articles[1].title(), "Second");
    assert_eq!(articles[1].author(), None);
    assert_eq!(articles[1].description(), None);
    assert_eq!(articles[1].url(), "not a url");

    assert_eq!(articles[2].source().id(), None);
    assert_eq!(articles[2].source().name(), "");
    assert_eq!(articles[2].title(), "");
    assert_eq!(articles[2].author(), None);
    assert_eq!(articles[2].description(), Some(""));
    assert_eq!(articles[2].url(), "");
}

#[test]
fn empty_list_of_articles_is_an_envelope() {
    let response = read_response("{\"status\":\"ok\",\"totalResults\":0,\"articles\":[]}").unwrap();
    assert!(response.articles().is_empty());
    assert_eq!(response.total_results(), 0);
}

#[test]
fn one_malformed_article_fails_the_whole_body() {
    let good = "{\"source\":{\"name\":\"S\"},\"title\":\"T\",\"url\":\"u\"}";
    for bad in [
        "{\"source\":{\"name\":\"S\"},\"url\":\"u\"}",
        "{\"source\":{\"name\":\"S\"},\"title\":\"T\"}",
        "{\"title\":\"T\",\"url\":\"u\"}",
        "{\"source\":{\"id\":\"i\"},\"title\":\"T\",\"url\":\"u\"}",
        "{\"source\":{\"id\":3,\"name\":\"S\"},\"title\":\"T\",\"url\":\"u\"}",
        "{\"source\":\"S\",\"title\":\"T\",\"url\":\"u\"}",
        "{\"source\":{\"name\":\"S\"},\"title\":null,\"url\":\"u\"}",
        "{\"source\":{\"name\":\"S\"},\"title\":\"T\",\"url\":5}",
        "{\"source\":{\"name\":\"S\"},\"title\":\"T\",\"author\":1,\"url\":\"u\"}",
        "{\"source\":{\"name\":\"S\"},\"title\":\"T\",\"description\":false,\"url\":\"u\"}",
        "[]",
        "null",
    ] {
        for body in [
            format!("{{\"status\":\"ok\",\"totalResults\":2,\"articles\":[{},{}]}}", good, bad),
            format!("{{\"status\":\"ok\",\"totalResults\":2,\"articles\":[{},{}]}}", bad, good),
        ] {
            assert!(
                matches!(read_response(&body), Err(NewsApiError::ParseError(_))),
                "body {:?}",
                body
            );
        }
    }
}

#[test]
fn text_is_taken_as_json_decodes_it() {
    let body = "{\"status\":\"ok\",\"totalResults\":1,\"articles\":[{\"source\":{\"name\":\"Dagens \\u004eyheter\"},\"title\":\"Tv\\u00e5 \\\"nya\\\" r\\u00f6n\\n\",\"url\":\"u\"}]}";
    let response = read_response(body).unwrap();
    let article = &response.articles()[0];
    assert_eq!(article.source().name(), "Dagens Nyheter");
    assert_eq!(article.title(), "Två \"nya\" rön\n");
}

#[test]
fn same_body_reads_the_same_twice() {
    let first = read_response(ONE_ARTICLE).unwrap();
    let second = read_response(ONE_ARTICLE).unwrap();
    assert_eq!(format!("{:?}", first), format!("{:?}", second));
    for body in [
        "{\"status\":\"error\",\"code\":\"apiKeyDisabled\"}",
        "{\"status\":\"error\",\"code\":\"somethingElse\"}",
        "{\"status\":\"error\"}",
        "{",
    ] {
        let first = read_response(body).unwrap_err();
        let second = read_response(body).unwrap_err();
        assert_eq!(first.to_string(), second.to_string());
        assert_eq!(format!("{:?}", first), format!("{:?}", second));
    }
}

#[test]
fn parsed_document_decodes_like_its_text() {
    let response = decode_response(&document(ONE_ARTICLE)).unwrap();
    assert_eq!(response.articles().len(), 1);
    assert_eq!(response.articles()[0].source().name(), "BBC");
    assert!(matches!(
        decode_response(&document("{\"status\":\"error\",\"code\":\"apiKeyDisabled\"}")),
        Err(NewsApiError::BadRequest("Your API key has been disabled"))
    ));
    assert!(matches!(
        decode_response(&document("{\"status\":\"ok\"}")),
        Err(NewsApiError::ParseError(_))
    ));
    assert!(matches!(
        decode_response(&document("[1,2]")),
        Err(NewsApiError::ParseError(_))
    ));
}

#[test]
fn last_of_repeated_members_counts() {
    let outcome = read_response("{\"status\":\"ok\",\"status\":\"error\",\"code\":\"apiKeyDisabled\"}");
    assert!(matches!(outcome, Err(NewsApiError::BadRequest(_))));
}

#[test]
fn codes_map_to_their_failures() {
    assert!(matches!(
        map_response_err(Some("apiKeyDisabled".to_string())),
        NewsApiError::BadRequest("Your API key has been disabled")
    ));
    assert!(matches!(
        map_response_err(Some("rateLimited".to_string())),
        NewsApiError::UnknownError("Unknown error")
    ));
    assert!(matches!(
        map_response_err(Some(String::new())),
        NewsApiError::UnknownError("Unknown error")
    ));
    assert!(matches!(
        map_response_err(None),
        NewsApiError::UnknownError("Unknown Error")
    ));
}

#[test]
fn parse_error_names_what_is_wrong() {
    match read_response("{\"status\":\"ok\",\"totalResults\":1}") {
        Err(NewsApiError::ParseError(cause)) => {
            assert_eq!(cause.to_string(), "missing field `articles`")
        }
        other => panic!("unexpected outcome: {:?}", other),
    }
    match read_response("{\"status\":7}") {
        Err(NewsApiError::ParseError(cause)) => {
            assert_eq!(cause.to_string(), "invalid type for field `status`")
        }
        other => panic!("unexpected outcome: {:?}", other),
    }
}

#[test]
fn success_marker_is_matched_exactly() {
    assert!(newsapi::is_success("ok"));
    for status in ["OK", "Ok", "", " ok", "ok ", "okay", "o", "error"] {
        assert!(!newsapi::is_success(status), "status {:?}", status);
    }
}
