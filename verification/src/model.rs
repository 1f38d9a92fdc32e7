//! What the service answers with: an envelope that holds articles, each with
//! its source. Values of these types come only from a decoded response and
//! are read through their accessors.

use vstd::prelude::*;

verus! {

/// What an optional text is in contracts.
pub open spec fn text_view(text: Option<String>) -> Option<Seq<char>> {
    match text {
        Some(t) => Some(t@),
        None => None,
    }
}

/// Lends an optional text without copying it.
fn as_text(text: &Option<String>) -> (lent: Option<&str>)
    ensures
        match lent {
            Some(t) => text_view(*text) == Some(t@),
            None => text_view(*text) is None,
        },
{
    match text {
        Some(t) => Some(t.as_str()),
        None => None,
    }
}

/// The outlet that published an article.
#[derive(Debug)]
pub struct ArticleSource {
    id: Option<String>,
    name: String,
}

/// An [`ArticleSource`] as contracts see it.
pub struct ArticleSourceView {
    pub id: Option<Seq<char>>,
    pub name: Seq<char>,
}

impl View for ArticleSource {
    type V = ArticleSourceView;

    closed spec fn view(&self) -> ArticleSourceView {
        ArticleSourceView { id: text_view(self.id), name: self.name@ }
    }
}

impl ArticleSource {
    pub(crate) fn new(id: Option<String>, name: String) -> (source: ArticleSource)
        ensures
            source@ == (ArticleSourceView { id: text_view(id), name: name@ }),
    {
        ArticleSource { id, name }
    }

    /// The human-readable name of the outlet.
    pub fn name(&self) -> (name: &str)
        ensures
            name@ == self@.name,
    {
        self.name.as_str()
    }

    /// The identifier the service gave the outlet, if it gave one.
    pub fn id(&self) -> (id: Option<&str>)
        ensures
            match id {
                Some(t) => self@.id == Some(t@),
                None => self@.id is None,
            },
    {
        as_text(&self.id)
    }
}

/// One article of a response.
#[derive(Debug)]
pub struct Article {
    source: ArticleSource,
    title: String,
    author: Option<String>,
    description: Option<String>,
    url: String,
}

/// An [`Article`] as contracts see it.
pub struct ArticleView {
    pub source: ArticleSourceView,
    pub title: Seq<char>,
    pub author: Option<Seq<char>>,
    pub description: Option<Seq<char>>,
    pub url: Seq<char>,
}

impl View for Article {
    type V = ArticleView;

    closed spec fn view(&self) -> ArticleView {
        ArticleView {
            source: self.source@,
            title: self.title@,
            author: text_view(self.author),
            description: text_view(self.description),
            url: self.url@,
        }
    }
}

impl Article {
    pub(crate) fn new(
        source: ArticleSource,
        title: String,
        author: Option<String>,
        description: Option<String>,
        url: String,
    ) -> (article: Article)
        ensures
            article@ == (ArticleView {
                source: source@,
                title: title@,
                author: text_view(author),
                description: text_view(description),
                url: url@,
            }),
    {
        Article { source, title, author, description, url }
    }

    /// The outlet that published the article.
    pub fn source(&self) -> (source: &ArticleSource)
        ensures
            source@ == self@.source,
    {
        &self.source
    }

    /// The headline.
    pub fn title(&self) -> (title: &str)
        ensures
            title@ == self@.title,
    {
        self.title.as_str()
    }

    /// A summary of the article, if the service sent one.
    pub fn description(&self) -> (description: Option<&str>)
        ensures
            match description {
                Some(t) => self@.description == Some(t@),
                None => self@.description is None,
            },
    {
        as_text(&self.description)
    }

    /// Who wrote the article, if the service said so.
    pub fn author(&self) -> (author: Option<&str>)
        ensures
            match author {
                Some(t) => self@.author == Some(t@),
                None => self@.author is None,
            },
    {
        as_text(&self.author)
    }

    /// The link to the article, as the service sent it: a text that nothing
    /// here has checked to be a URL.
    pub fn url(&self) -> (url: &str)
        ensures
            url@ == self@.url,
    {
        self.url.as_str()
    }
}

/// The envelope of a successful response.
#[allow(non_snake_case)]
#[derive(Debug)]
pub struct NewsAPIResponse {
    status: String,
    totalResults: u32,
    code: Option<String>,
    articles: Vec<Article>,
}

/// A [`NewsAPIResponse`] as contracts see it.
pub struct ResponseView {
    pub status: Seq<char>,
    pub total_results: u32,
    pub code: Option<Seq<char>>,
    pub articles: Seq<ArticleView>,
}

/// What a list of articles is in contracts.
pub open spec fn articles_view(articles: Seq<Article>) -> Seq<ArticleView> {
    Seq::new(articles.len(), |i: int| articles[i]@)
}

impl View for NewsAPIResponse {
    type V = ResponseView;

    closed spec fn view(&self) -> ResponseView {
        ResponseView {
            status: self.status@,
            total_results: self.totalResults,
            code: text_view(self.code),
            articles: articles_view(self.articles@),
        }
    }
}

impl NewsAPIResponse {
    pub(crate) fn new(
        status: String,
        total_results: u32,
        code: Option<String>,
        articles: Vec<Article>,
    ) -> (response: NewsAPIResponse)
        ensures
            response@ == (ResponseView {
                status: status@,
                total_results,
                code: text_view(code),
                articles: articles_view(articles@),
            }),
    {
        NewsAPIResponse { status, totalResults: total_results, code, articles }
    }

    /// The articles, in the order the service sent them.
    pub fn articles(&self) -> (articles: &Vec<Article>)
        ensures
            articles_view(articles@) == self@.articles,
    {
        &self.articles
    }

    /// The number of results the service reported, which may be more than
    /// the articles it sent.
    pub fn total_results(&self) -> (total: u32)
        ensures
            total == self@.total_results,
    {
        self.totalResults
    }
}

} // verus!
