//! Links in a document body that point back at the repository's own host, and
//! the file names their targets are stored under.

use crate::error::BackupError;
use crate::location::{parsed_url, same_host, Host, HostView, Location, LocationView};
use crate::Doc;
use vstd::prelude::*;

verus! {

/// `regex::Error`: why a pattern did not compile. Carried through unopened.
#[verifier::external_type_specification]
#[verifier::external_body]
pub struct ExRegexError(regex::Error);

/// What counts as a candidate link in a document body: an optional scheme, a
/// dotted host of two or three labels, a slash, and the start of a path.
pub const LINK_PATTERN: &'static str =
    r"(https:\/\/www\.|http:\/\/www\.|https:\/\/|http:\/\/)?[a-zA-Z0-9]{2,}(\.[a-zA-Z0-9]{2,})(\.[a-zA-Z0-9]{2,})?\/[a-zA-Z0-9]{2,}";

/// A resource to mirror next to the documents.
#[derive(Debug)]
pub struct ResourceLink {
    /// Where to fetch it.
    pub url: String,
    /// The file name to store it under.
    pub name: String,
}

/// What a [`ResourceLink`] stands for.
pub struct ResourceLinkView {
    pub url: Seq<char>,
    pub name: Seq<char>,
}

impl View for ResourceLink {
    type V = ResourceLinkView;

    open spec fn view(&self) -> ResourceLinkView {
        ResourceLinkView { url: self.url@, name: self.name@ }
    }
}

impl DeepView for ResourceLink {
    type V = ResourceLinkView;

    open spec fn deep_view(&self) -> ResourceLinkView {
        self@
    }
}

/// The text of each successive non-overlapping match of the regular
/// expression `pattern` in `haystack`, in the order found, or `None` where
/// `pattern` does not compile.
pub uninterp spec fn regex_matches(pattern: Seq<char>, haystack: Seq<char>) -> Option<Seq<Seq<char>>>;

/// Compiles `pattern` with `regex::Regex::new` and collects the text of every
/// match that `Regex::find_iter` yields on `haystack`, in the order yielded.
/// That list is what [`regex_matches`] names; where the pattern is refused,
/// [`regex_matches`] is `None`. Nothing is claimed about what matches.
#[verifier::external_body]
fn find_all(pattern: &str, haystack: &str) -> (r: Result<Vec<String>, regex::Error>)
    ensures
        match r {
            Ok(found) => regex_matches(pattern@, haystack@) == Some(found.deep_view()),
            Err(_) => regex_matches(pattern@, haystack@) is None,
        },
{
    let regex = regex::Regex::new(pattern)?;
    Ok(regex.find_iter(haystack).map(|found| found.as_str().to_string()).collect())
}

/// The resource behind a parsed URL, as seen from `host`: the URL must be
/// on `host` and its path must have a last segment, which becomes the file
/// name.
pub open spec fn link_at(parts: LocationView, host: Option<HostView>) -> Option<ResourceLinkView> {
    match Location::spec_file_name(parts) {
        Some(name) => if parts.host == host {
            Some(ResourceLinkView { url: parts.href, name })
        } else {
            None
        },
        None => None,
    }
}

/// The resource that one candidate stands for: the candidate must parse as
/// an absolute URL, and that URL must stand for a resource as [`link_at`]
/// says.
pub open spec fn link_of(candidate: Seq<char>, host: Option<HostView>) -> Option<
    ResourceLinkView,
> {
    match parsed_url(candidate) {
        Some(parts) => link_at(parts, host),
        None => None,
    }
}

/// The resources among `candidates`, in their order; candidates that stand
/// for none are skipped.
pub open spec fn links_among(candidates: Seq<Seq<char>>, host: Option<HostView>) -> Seq<
    ResourceLinkView,
>
    decreases candidates.len(),
{
    if candidates.len() == 0 {
        Seq::empty()
    } else {
        let before = links_among(candidates.drop_last(), host);
        match link_of(candidates.last(), host) {
            Some(link) => before.push(link),
            None => before,
        }
    }
}

/// The resource behind a parsed URL, if it is one on `host`.
pub fn link_in(location: Location, host: &Option<Host>) -> (r: Option<ResourceLink>)
    ensures
        r.deep_view() == link_at(location@, host.deep_view()),
{
    if !same_host(&location.host, host) {
        return None;
    }
    let name = match location.file_name() {
        Some(name) => name.clone(),
        None => {
            return None;
        },
    };
    Some(ResourceLink { url: location.href, name })
}

/// The resource that `candidate` stands for, if any.
pub fn link_to(candidate: &str, host: &Option<Host>) -> (r: Option<ResourceLink>)
    ensures
        r.deep_view() == link_of(candidate@, host.deep_view()),
{
    match Location::parse(candidate) {
        Ok(location) => link_in(location, host),
        Err(_) => None,
    }
}

/// Picks the resources out of a list of candidates.
pub fn select_links(candidates: &Vec<String>, host: &Option<Host>) -> (r: Vec<ResourceLink>)
    ensures
        r.deep_view() == links_among(candidates.deep_view(), host.deep_view()),
{
    let mut links: Vec<ResourceLink> = Vec::new();
    let mut i: usize = 0;
    assert(candidates.deep_view().take(0) =~= Seq::empty());
    while i < candidates.len()
        invariant
            i <= candidates.len(),
            links.deep_view() == links_among(
                candidates.deep_view().take(i as int),
                host.deep_view(),
            ),
        decreases candidates.len() - i,
    {
        let ghost before = links.deep_view();
        let ghost taken = candidates.deep_view().take(i as int + 1);
        assert(taken.drop_last() =~= candidates.deep_view().take(i as int));
        assert(taken.last() == candidates[i as int]@);
        match link_to(candidates[i].as_str(), host) {
            Some(link) => {
                links.push(link);
                assert(links.deep_view() =~= before.push(link@));
            },
            None => {},
        }
        i += 1;
    }
    assert(candidates.deep_view().take(i as int) =~= candidates.deep_view());
    links
}

/// The resources that `body` links to on `host`, where a candidate link is
/// whatever matches the regular expression `pattern`.
///
/// Each candidate is kept or skipped as [`link_of`] says. Fails exactly
/// where the pattern does not compile.
pub fn links_matching(pattern: &str, body: &str, host: &Option<Host>) -> (r: Result<
    Vec<ResourceLink>,
    BackupError,
>)
    ensures
        match regex_matches(pattern@, body@) {
            Some(candidates) => r matches Ok(links) && links.deep_view() == links_among(
                candidates,
                host.deep_view(),
            ),
            None => r matches Err(BackupError::InvalidPattern(_)),
        },
{
    match find_all(pattern, body) {
        Ok(candidates) => Ok(select_links(&candidates, host)),
        Err(cause) => Err(BackupError::InvalidPattern(cause)),
    }
}

/// The resources that a document body links to on `host`: those that
/// [`links_matching`] finds with [`LINK_PATTERN`].
pub fn resource_links(body: &str, host: &Option<Host>) -> (r: Result<
    Vec<ResourceLink>,
    BackupError,
>)
    ensures
        match regex_matches(LINK_PATTERN@, body@) {
            Some(candidates) => r matches Ok(links) && links.deep_view() == links_among(
                candidates,
                host.deep_view(),
            ),
            None => r matches Err(BackupError::InvalidPattern(_)),
        },
{
    links_matching(LINK_PATTERN, body, host)
}

/// The resources that a document links to on `host`: those of its body, and
/// none where it has no body.
pub fn doc_links(doc: &Doc, host: &Option<Host>) -> (r: Result<Vec<ResourceLink>, BackupError>)
    ensures
        match doc.body {
            Some(body) => match regex_matches(LINK_PATTERN@, body@) {
                Some(candidates) => r matches Ok(links) && links.deep_view() == links_among(
                    candidates,
                    host.deep_view(),
                ),
                None => r matches Err(BackupError::InvalidPattern(_)),
            },
            None => r matches Ok(links) && links@.len() == 0,
        },
{
    match &doc.body {
        Some(body) => resource_links(body.as_str(), host),
        None => Ok(Vec::new()),
    }
}

} // verus!
