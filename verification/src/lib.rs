//! Incremental mirroring of a remote document repository: which documents to
//! fetch again, how requests are paced, and how finished backups are recorded.

use crate::timestamp::Timestamp;
use vstd::prelude::*;

pub mod config;
pub mod error;
pub mod limit;
pub mod links;
pub mod location;
pub mod net;
pub mod store;
pub mod sync;
pub mod text;
pub mod timestamp;

verus! {

/// A book: one container of documents on the remote service, as the service
/// describes it.
#[derive(Debug)]
pub struct Repo {
    pub id: i64,
    pub slug: String,
    pub name: String,
    pub updated_at: Timestamp,
}

/// What a [`Repo`] stands for.
pub struct RepoView {
    pub id: i64,
    pub slug: Seq<char>,
    pub name: Seq<char>,
    pub updated_at: Timestamp,
}

impl View for Repo {
    type V = RepoView;

    open spec fn view(&self) -> RepoView {
        RepoView {
            id: self.id,
            slug: self.slug@,
            name: self.name@,
            updated_at: self.updated_at,
        }
    }
}

impl DeepView for Repo {
    type V = RepoView;

    open spec fn deep_view(&self) -> RepoView {
        self@
    }
}

impl Clone for Repo {
    fn clone(&self) -> (copy: Repo)
        ensures
            copy == *self,
    {
        Repo {
            id: self.id,
            slug: self.slug.clone(),
            name: self.name.clone(),
            updated_at: self.updated_at,
        }
    }
}

/// The identity of a document and when it last changed, as the service lists
/// it.
#[derive(Clone, Copy, Debug)]
pub struct RawDocMeta {
    pub id: i64,
    pub updated_at: Timestamp,
}

/// A listed document together with the book it belongs to.
#[derive(Clone, Copy, Debug)]
pub struct DocMeta<'repo> {
    pub repo: &'repo Repo,
    pub raw: RawDocMeta,
}

impl<'repo> DocMeta<'repo> {
    /// The listing entry `raw` of the book `repo`.
    pub fn new(repo: &'repo Repo, raw: RawDocMeta) -> (meta: DocMeta<'repo>)
        ensures
            meta == (DocMeta { repo, raw }),
    {
        DocMeta { repo, raw }
    }

    /// The document's id.
    pub fn id(&self) -> (id: i64)
        ensures
            id == self.raw.id,
    {
        self.raw.id
    }

    /// When the document last changed on the service.
    pub fn updated_at(&self) -> (at: Timestamp)
        ensures
            at == self.raw.updated_at,
    {
        self.raw.updated_at
    }
}

/// A document in full. Which of the body fields are present depends on the
/// kind of document; any of them may be absent.
#[derive(Debug)]
pub struct Doc {
    pub id: i64,
    pub ty: String,
    pub slug: String,
    pub title: String,
    pub book_id: i64,
    pub description: String,
    pub format: String,
    pub updated_at: Timestamp,
    pub body: Option<String>,
    pub body_sheet: Option<String>,
    pub body_html: Option<String>,
    pub body_lake: Option<String>,
}

/// What is printed in place of a token.
pub const REDACTED: &'static str = "*****";

/// The secret that authenticates requests. It is never shown: the only text
/// the library gives for it is [`REDACTED`].
pub struct Token(String);

impl View for Token {
    type V = Seq<char>;

    closed spec fn view(&self) -> Seq<char> {
        self.0@
    }
}

impl Token {
    /// Wraps a secret.
    pub fn new(secret: String) -> (token: Token)
        ensures
            token@ == secret@,
    {
        Token(secret)
    }

    /// The secret itself, for the one place that must send it.
    pub fn expose(&self) -> (secret: &str)
        ensures
            secret@ == self@,
    {
        self.0.as_str()
    }

    /// The text that stands for the token wherever one is printed.
    pub fn redacted(&self) -> (text: &'static str)
        ensures
            text@ == REDACTED@,
    {
        REDACTED
    }
}

} // verus!
