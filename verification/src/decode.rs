//! From the body of a response to an envelope or a failure.
//!
//! A body is read in three steps. It is parsed as JSON. The `status` and the
//! `code` of the document are read. Then the status decides: under the
//! success marker the document must hold the whole envelope, which is
//! returned; under any other status the code alone says which failure it is.

use crate::error::map_response_err;
use crate::error::response_failure;
use crate::error::Failure;
use crate::error::NewsApiError;
use crate::json::is_null;
use crate::json::items_of;
use crate::json::json_custom_error;
use crate::json::json_document;
use crate::json::json_is_null;
use crate::json::json_items;
use crate::json::json_member;
use crate::json::json_text;
use crate::json::json_unsigned;
use crate::json::member;
use crate::json::parse_document;
use crate::json::shape_error;
use crate::json::text_of;
use crate::json::unsigned_of;
use crate::model::Article;
use crate::model::ArticleSource;
use crate::model::ArticleSourceView;
use crate::model::ArticleView;
use crate::model::NewsAPIResponse;
use crate::model::ResponseView;
use crate::model::articles_view;
use crate::model::text_view;
use serde_json::Value;
use vstd::prelude::*;
use vstd::string::StringExecFns;

verus! {

/// The status that marks a response as successful.
pub const STATUS_OK: &'static str = "ok";

/// A member that must be there and be a string.
pub open spec fn required_text(object: Value, key: Seq<char>) -> Option<Seq<char>> {
    match json_member(object, key) {
        Some(member) => json_text(member),
        None => None,
    }
}

/// A member that may be missing or `null`, and is a string where it is
/// neither. The outer `None` stands for a member of another type.
pub open spec fn optional_text(object: Value, key: Seq<char>) -> Option<Option<Seq<char>>> {
    match json_member(object, key) {
        Some(member) => if json_is_null(member) {
            Some(None)
        } else {
            match json_text(member) {
                Some(text) => Some(Some(text)),
                None => None,
            }
        },
        None => Some(None),
    }
}

/// The source that a JSON value describes: `name` is required, `id` optional.
pub open spec fn source_in(value: Value) -> Option<ArticleSourceView> {
    match (optional_text(value, "id"@), required_text(value, "name"@)) {
        (Some(id), Some(name)) => Some(ArticleSourceView { id, name }),
        _ => None,
    }
}

/// The article that a JSON value describes: `source`, `title` and `url` are
/// required, `author` and `description` optional.
pub open spec fn article_in(value: Value) -> Option<ArticleView> {
    match json_member(value, "source"@) {
        Some(source) => match (
            source_in(source),
            required_text(value, "title"@),
            optional_text(value, "author"@),
            optional_text(value, "description"@),
            required_text(value, "url"@),
        ) {
            (Some(source), Some(title), Some(author), Some(description), Some(url)) => Some(
                ArticleView { source, title, author, description, url },
            ),
            _ => None,
        },
        None => None,
    }
}

/// The articles that a list of JSON values describes, in the same order;
/// none if one of the values describes no article.
pub open spec fn articles_in(items: Seq<Value>) -> Option<Seq<ArticleView>> {
    if forall|i: int| 0 <= i < items.len() ==> (#[trigger] article_in(items[i])) is Some {
        Some(Seq::new(items.len(), |i: int| article_in(items[i]).unwrap()))
    } else {
        None
    }
}

/// The `totalResults` of an envelope: an unsigned integer of 32 bits.
pub open spec fn total_in(value: Value) -> Option<u32> {
    match json_member(value, "totalResults"@) {
        Some(member) => match json_unsigned(member) {
            Some(number) => if number <= u32::MAX {
                Some(number as u32)
            } else {
                None
            },
            None => None,
        },
        None => None,
    }
}

/// The `articles` of an envelope: an array in which each element describes
/// an article.
pub open spec fn listed_in(value: Value) -> Option<Seq<ArticleView>> {
    match json_member(value, "articles"@) {
        Some(member) => match json_items(member) {
            Some(items) => articles_in(items),
            None => None,
        },
        None => None,
    }
}

/// What a parsed document amounts to. Without a `status` string, or with a
/// `code` that is neither missing, `null` nor a string, it has not the shape
/// of a response. Under the success marker it is the envelope, if
/// `totalResults` and `articles` are there and well formed; no default stands
/// in for either. Under any other status it is the failure that the code
/// names, and nothing else in the document is looked at.
pub open spec fn reading_of(document: Value) -> Result<ResponseView, Failure> {
    match (required_text(document, "status"@), optional_text(document, "code"@)) {
        (Some(status), Some(code)) => if status == STATUS_OK@ {
            match (total_in(document), listed_in(document)) {
                (Some(total_results), Some(articles)) => Ok(
                    ResponseView { status, total_results, code, articles },
                ),
                _ => Err(Failure::Parse),
            }
        } else {
            Err(response_failure(code))
        },
        _ => Err(Failure::Parse),
    }
}

/// What the body of a response amounts to: what the document in it amounts
/// to, or a parse failure if it is not JSON.
pub open spec fn reading(body: Seq<char>) -> Result<ResponseView, Failure> {
    match json_document(body) {
        Some(document) => reading_of(document),
        None => Err(Failure::Parse),
    }
}

/// Whether an outcome is the one that a reading calls for: the envelope
/// itself, or an error of that kind and message.
pub open spec fn agrees(
    outcome: Result<NewsAPIResponse, NewsApiError>,
    reading: Result<ResponseView, Failure>,
) -> bool {
    match reading {
        Ok(envelope) => outcome matches Ok(response) && response@ == envelope,
        Err(failure) => outcome matches Err(error) && error@ == failure,
    }
}

/// Whether a status is the success marker, letter for letter.
pub fn is_success(status: &str) -> (success: bool)
    ensures
        success == (status@ == STATUS_OK@),
{
    status.to_string() == STATUS_OK.to_string()
}

/// The cause to report when a required member is not there.
fn missing(key: &str) -> (error: serde_json::Error)
    ensures
        error == json_custom_error(missing_message(key@)),
{
    let message = "missing field `".to_string().concat(key).concat("`");
    shape_error(message.as_str())
}

/// The cause to report when a member holds a value of the wrong type.
fn mistyped(key: &str) -> (error: serde_json::Error)
    ensures
        error == json_custom_error(mistyped_message(key@)),
{
    let message = "invalid type for field `".to_string().concat(key).concat("`");
    shape_error(message.as_str())
}

/// What is said of a required member that is not there: its key between
/// backticks, after `missing field`.
pub open spec fn missing_message(key: Seq<char>) -> Seq<char> {
    "missing field `"@ + key + "`"@
}

/// What is said of a member that holds a value of the wrong type: its key
/// between backticks, after `invalid type for field`.
pub open spec fn mistyped_message(key: Seq<char>) -> Seq<char> {
    "invalid type for field `"@ + key + "`"@
}

/// Reads a member that must be there and be a string.
fn required_string(object: &Value, key: &str) -> (found: Result<String, serde_json::Error>)
    ensures
        match found {
            Ok(text) => required_text(*object, key@) == Some(text@),
            Err(_) => required_text(*object, key@) is None,
        },
{
    match member(object, key) {
        Some(value) => match text_of(value) {
            Some(text) => Ok(text.to_string()),
            None => Err(mistyped(key)),
        },
        None => Err(missing(key)),
    }
}

/// Reads a member that may be missing or `null`.
fn optional_string(object: &Value, key: &str) -> (found: Result<Option<String>, serde_json::Error>)
    ensures
        match found {
            Ok(text) => optional_text(*object, key@) == Some(text_view(text)),
            Err(_) => optional_text(*object, key@) is None,
        },
{
    match member(object, key) {
        Some(value) => {
            if is_null(value) {
                Ok(None)
            } else {
                match text_of(value) {
                    Some(text) => Ok(Some(text.to_string())),
                    None => Err(mistyped(key)),
                }
            }
        },
        None => Ok(None),
    }
}

/// Reads the source of an article.
fn decode_source(value: &Value) -> (decoded: Result<ArticleSource, serde_json::Error>)
    ensures
        match decoded {
            Ok(source) => source_in(*value) == Some(source@),
            Err(_) => source_in(*value) is None,
        },
{
    let id = match optional_string(value, "id") {
        Ok(id) => id,
        Err(error) => return Err(error),
    };
    let name = match required_string(value, "name") {
        Ok(name) => name,
        Err(error) => return Err(error),
    };
    Ok(ArticleSource::new(id, name))
}

/// Reads one article.
fn decode_article(value: &Value) -> (decoded: Result<Article, serde_json::Error>)
    ensures
        match decoded {
            Ok(article) => article_in(*value) == Some(article@),
            Err(_) => article_in(*value) is None,
        },
{
    let source = match member(value, "source") {
        Some(source) => match decode_source(source) {
            Ok(source) => source,
            Err(error) => return Err(error),
        },
        None => return Err(missing("source")),
    };
    let title = match required_string(value, "title") {
        Ok(title) => title,
        Err(error) => return Err(error),
    };
    let author = match optional_string(value, "author") {
        Ok(author) => author,
        Err(error) => return Err(error),
    };
    let description = match optional_string(value, "description") {
        Ok(description) => description,
        Err(error) => return Err(error),
    };
    let url = match required_string(value, "url") {
        Ok(url) => url,
        Err(error) => return Err(error),
    };
    Ok(Article::new(source, title, author, description, url))
}

/// Reads the articles of a list, in order, and stops at the first value that
/// describes none.
fn decode_articles(items: &Vec<Value>) -> (decoded: Result<Vec<Article>, serde_json::Error>)
    ensures
        match decoded {
            Ok(articles) => articles_in(items@) == Some(articles_view(articles@)),
            Err(_) => articles_in(items@) is None,
        },
{
    let mut articles: Vec<Article> = Vec::new();
    let mut at: usize = 0;
    while at < items.len()
        invariant
            at <= items.len(),
            articles.len() == at,
            forall|i: int|
                0 <= i < at ==> (#[trigger] article_in(items@[i])) == Some(articles@[i]@),
        decreases items.len() - at,
    {
        match decode_article(&items[at]) {
            Ok(article) => articles.push(article),
            Err(error) => return Err(error),
        }
        at = at + 1;
    }
    Ok(articles)
}

/// Reads the number of results of an envelope.
fn decode_total(document: &Value) -> (decoded: Result<u32, serde_json::Error>)
    ensures
        match decoded {
            Ok(total) => total_in(*document) == Some(total),
            Err(_) => total_in(*document) is None,
        },
{
    match member(document, "totalResults") {
        Some(value) => match unsigned_of(value) {
            Some(number) => if number <= 0xffff_ffff {
                Ok(number as u32)
            } else {
                Err(mistyped("totalResults"))
            },
            None => Err(mistyped("totalResults")),
        },
        None => Err(missing("totalResults")),
    }
}

/// Reads the list of articles of an envelope.
fn decode_listed(document: &Value) -> (decoded: Result<Vec<Article>, serde_json::Error>)
    ensures
        match decoded {
            Ok(articles) => listed_in(*document) == Some(articles_view(articles@)),
            Err(_) => listed_in(*document) is None,
        },
{
    match member(document, "articles") {
        Some(value) => match items_of(value) {
            Some(items) => decode_articles(items),
            None => Err(mistyped("articles")),
        },
        None => Err(missing("articles")),
    }
}

/// Makes of a parsed document the envelope it holds or the failure it
/// reports.
pub fn decode_response(document: &Value) -> (outcome: Result<NewsAPIResponse, NewsApiError>)
    ensures
        agrees(outcome, reading_of(*document)),
{
    let status = match required_string(document, "status") {
        Ok(status) => status,
        Err(error) => return Err(NewsApiError::ParseError(error)),
    };
    let code = match optional_string(document, "code") {
        Ok(code) => code,
        Err(error) => return Err(NewsApiError::ParseError(error)),
    };
    if is_success(status.as_str()) {
        let total = match decode_total(document) {
            Ok(total) => total,
            Err(error) => return Err(NewsApiError::ParseError(error)),
        };
        let articles = match decode_listed(document) {
            Ok(articles) => articles,
            Err(error) => return Err(NewsApiError::ParseError(error)),
        };
        Ok(NewsAPIResponse::new(status, total, code, articles))
    } else {
        Err(map_response_err(code))
    }
}

/// Makes of the body of a response the envelope it holds or the failure it
/// reports. Whichever transport brought the body, this is what is made of
/// it.
pub fn read_response(body: &str) -> (outcome: Result<NewsAPIResponse, NewsApiError>)
    ensures
        agrees(outcome, reading(body@)),
{
    match parse_document(body) {
        Ok(document) => decode_response(&document),
        Err(error) => Err(NewsApiError::ParseError(error)),
    }
}

/// Whatever a body holds, reading it ends in one of five ways: an envelope
/// under the success marker, a parse failure, the one bad request that has a
/// name, or one of the two unknown failures. No reading ends in a failure of
/// a transport.
pub proof fn law_reading_is_classified(body: Seq<char>)
    ensures
        match reading(body) {
            Ok(envelope) => envelope.status == STATUS_OK@,
            Err(failure) => {
                ||| failure == Failure::Parse
                ||| failure == Failure::BadRequest("Your API key has been disabled"@)
                ||| failure == Failure::Unknown("Unknown error"@)
                ||| failure == Failure::Unknown("Unknown Error"@)
            },
        },
{
}

/// One body has one reading: two outcomes that each agree with the reading
/// of the same body, by whichever transport the body came, hold the same
/// envelope or fail with the same kind and message.
pub proof fn law_same_body_same_outcome(
    body: Seq<char>,
    first: Result<NewsAPIResponse, NewsApiError>,
    second: Result<NewsAPIResponse, NewsApiError>,
)
    requires
        agrees(first, reading(body)),
        agrees(second, reading(body)),
    ensures
        match (first, second) {
            (Ok(a), Ok(b)) => a@ == b@,
            (Err(a), Err(b)) => a@ == b@,
            _ => false,
        },
{
}

} // verus!
