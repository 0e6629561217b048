//! The requests the backup sends, described before they are sent.

use crate::config::Config;
use crate::error::BackupError;
use crate::links::ResourceLink;
use crate::location::parsed_url;
use crate::text::{decimal, push_decimal};
use crate::{DocMeta, RawDocMeta, Repo};
use vstd::prelude::*;
use vstd::string::StringExecFns;

verus! {

/// The header that carries the token.
pub const TOKEN_KEY: &'static str = "X-Auth-Token";

/// The header that names the client.
pub const USER_AGENT_KEY: &'static str = "User-Agent";

/// How the client names itself.
pub const USER_AGENT_VALUE: &'static str = "User-Agent Mozilla/5.0";

/// The query parameter that asks for a page size.
pub const QUERY_LIMIT_KEY: &'static str = "limit";

/// The page size asked for in every listing.
pub const QUERY_LIMIT_VALUE: &'static str = "100";

/// One GET request: where it goes and what it carries.
pub struct Request {
    pub url: String,
    pub headers: Vec<(String, String)>,
    pub query: Vec<(String, String)>,
}

/// What a [`Request`] stands for.
pub struct RequestView {
    pub url: Seq<char>,
    pub headers: Seq<(Seq<char>, Seq<char>)>,
    pub query: Seq<(Seq<char>, Seq<char>)>,
}

impl View for Request {
    type V = RequestView;

    open spec fn view(&self) -> RequestView {
        RequestView {
            url: self.url@,
            headers: self.headers.deep_view(),
            query: self.query.deep_view(),
        }
    }
}

/// The headers of every request: the token, then the client's name.
pub open spec fn standard_headers(token: Seq<char>) -> Seq<(Seq<char>, Seq<char>)> {
    seq![(TOKEN_KEY@, token), (USER_AGENT_KEY@, USER_AGENT_VALUE@)]
}

/// The query of a listing request: the page size.
pub open spec fn listing_query() -> Seq<(Seq<char>, Seq<char>)> {
    seq![(QUERY_LIMIT_KEY@, QUERY_LIMIT_VALUE@)]
}

/// The path that lists the books of the configured owner.
pub open spec fn spec_repos_path(config: &Config) -> Seq<char> {
    "/api/v2"@ + config.target.spec_uri_path() + "/repos"@
}

/// The path that lists the documents of a book.
pub open spec fn spec_doc_metas_path(book: i64) -> Seq<char> {
    "/api/v2/repos/"@ + decimal(book as int) + "/docs"@
}

/// The path of one document of a book.
pub open spec fn spec_doc_path(book: i64, doc: i64) -> Seq<char> {
    "/api/v2/repos/"@ + decimal(book as int) + "/docs/"@ + decimal(doc as int)
}

/// The request that goes to `url`: with the standard headers, and with the
/// page size in its query where it is a listing.
pub open spec fn spec_request(config: &Config, url: Seq<char>, listing: bool) -> RequestView {
    RequestView {
        url,
        headers: standard_headers(config.token@),
        query: if listing {
            listing_query()
        } else {
            Seq::empty()
        },
    }
}

/// What a request to `path` under the configured host must be: sent to the
/// parsed URL in its normal form; or a failure where host and path do not
/// make an absolute URL.
pub open spec fn request_to(
    config: &Config,
    path: Seq<char>,
    listing: bool,
    r: Result<Request, BackupError>,
) -> bool {
    match parsed_url(config.host@ + path) {
        Some(parts) => r matches Ok(request) && request@ == spec_request(
            config,
            parts.href,
            listing,
        ),
        None => r matches Err(BackupError::InvalidUrl(_)),
    }
}

/// The path that lists the books of the configured owner.
pub fn repos_path(config: &Config) -> (path: String)
    ensures
        path@ == spec_repos_path(config),
{
    let mut path = String::from_str("/api/v2");
    path.append(config.target.uri_path().as_str());
    path.append("/repos");
    path
}

/// The path that lists the documents of the book `book`.
pub fn doc_metas_path(book: i64) -> (path: String)
    ensures
        path@ == spec_doc_metas_path(book),
{
    let mut path = String::from_str("/api/v2/repos/");
    push_decimal(&mut path, book);
    path.append("/docs");
    path
}

/// The path of the document `doc` of the book `book`.
pub fn doc_path(book: i64, doc: i64) -> (path: String)
    ensures
        path@ == spec_doc_path(book, doc),
{
    let mut path = String::from_str("/api/v2/repos/");
    push_decimal(&mut path, book);
    path.append("/docs/");
    push_decimal(&mut path, doc);
    path
}

/// The GET request that goes to `url`: it carries the token and the client's
/// name, and asks for a page size where it is a listing.
pub fn request(config: &Config, url: String, listing: bool) -> (request: Request)
    ensures
        request@ == spec_request(config, url@, listing),
{
    let mut headers: Vec<(String, String)> = Vec::new();
    headers.push((String::from_str(TOKEN_KEY), String::from_str(config.token.expose())));
    headers.push((String::from_str(USER_AGENT_KEY), String::from_str(USER_AGENT_VALUE)));
    assert(headers.deep_view() =~= standard_headers(config.token@));
    let mut query: Vec<(String, String)> = Vec::new();
    if listing {
        query.push((String::from_str(QUERY_LIMIT_KEY), String::from_str(QUERY_LIMIT_VALUE)));
        assert(query.deep_view() =~= listing_query());
    } else {
        assert(query.deep_view() =~= Seq::<(Seq<char>, Seq<char>)>::empty());
    }
    Request { url, headers, query }
}

/// The request to `path` under the configured host.
pub fn request_under(config: &Config, path: &str, listing: bool) -> (r: Result<
    Request,
    BackupError,
>)
    ensures
        request_to(config, path@, listing, r),
{
    match config.url(path) {
        Ok(location) => Ok(request(config, location.href, listing)),
        Err(e) => Err(e),
    }
}

/// The request that lists the books of the configured owner.
pub fn repos(config: &Config) -> (r: Result<Request, BackupError>)
    ensures
        request_to(config, spec_repos_path(config), true, r),
{
    request_under(config, repos_path(config).as_str(), true)
}

/// The request that fetches one document in full.
pub fn doc(config: &Config, meta: DocMeta<'_>) -> (r: Result<Request, BackupError>)
    ensures
        request_to(config, spec_doc_path(meta.repo.id, meta.raw.id), false, r),
{
    request_under(config, doc_path(meta.repo.id, meta.raw.id).as_str(), false)
}

/// The request that lists the documents of a book.
pub fn doc_metas(config: &Config, repo: &Repo) -> (r: Result<Request, BackupError>)
    ensures
        request_to(config, spec_doc_metas_path(repo.id), true, r),
{
    request_under(config, doc_metas_path(repo.id).as_str(), true)
}

/// Ties each entry of a book's listing to the book, in the order listed.
pub fn bind_doc_metas<'repo>(repo: &'repo Repo, data: &Vec<RawDocMeta>) -> (metas: Vec<
    DocMeta<'repo>,
>)
    ensures
        metas@.len() == data@.len(),
        forall|i: int| 0 <= i < data@.len() ==> metas@[i] == (DocMeta { repo, raw: data@[i] }),
{
    let mut metas: Vec<DocMeta<'repo>> = Vec::new();
    let mut i: usize = 0;
    while i < data.len()
        invariant
            i <= data.len(),
            metas@.len() == i,
            forall|j: int| 0 <= j < i ==> metas@[j] == (DocMeta { repo, raw: data@[j] }),
        decreases data.len() - i,
    {
        metas.push(DocMeta { repo, raw: data[i] });
        i += 1;
    }
    metas
}

/// The request that fetches a linked resource.
pub fn resource(config: &Config, link: &ResourceLink) -> (r: Request)
    ensures
        r@ == spec_request(config, link.url@, false),
{
    request(config, link.url.clone(), false)
}

} // verus!
