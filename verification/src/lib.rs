//! Client for a news-aggregation web service: request construction, response
//! decoding and the classification of failures.

pub mod address;
pub mod client;
pub mod decode;
pub mod error;
pub mod json;
pub mod model;
pub mod options;

pub use client::ClientView;
pub use client::BASE_URL;
pub use client::KEY_HEADER;
pub use client::NewsAPI;
pub use client::Request;
pub use client::RequestView;
pub use decode::decode_response;
pub use decode::is_success;
pub use decode::read_response;
pub use decode::STATUS_OK;
pub use error::map_response_err;
pub use error::Failure;
pub use error::NewsApiError;
pub use model::Article;
pub use model::ArticleSource;
pub use model::ArticleSourceView;
pub use model::ArticleView;
pub use model::NewsAPIResponse;
pub use model::ResponseView;
pub use options::Country;
pub use options::Endpoint;
