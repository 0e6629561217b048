//! Absolute URLs, taken apart into the pieces the backup reads.

use crate::error::BackupError;
use vstd::prelude::*;

verus! {

/// `url::ParseError`: why a string is no absolute URL. Carried through
/// unopened.
#[verifier::external_type_specification]
#[verifier::external_body]
pub struct ExParseError(url::ParseError);

/// The host of a URL.
#[derive(Debug)]
pub enum Host {
    /// A domain name, or the opaque host of a URL with a non-special scheme.
    Domain(String),
    /// An IPv4 address, as its 32 bits in network order.
    Ipv4(u32),
    /// An IPv6 address, as its 128 bits in network order.
    Ipv6(u128),
}

/// What a [`Host`] stands for.
pub enum HostView {
    Domain(Seq<char>),
    Ipv4(u32),
    Ipv6(u128),
}

impl View for Host {
    type V = HostView;

    open spec fn view(&self) -> HostView {
        match self {
            Host::Domain(name) => HostView::Domain(name@),
            Host::Ipv4(bits) => HostView::Ipv4(*bits),
            Host::Ipv6(bits) => HostView::Ipv6(*bits),
        }
    }
}

impl DeepView for Host {
    type V = HostView;

    open spec fn deep_view(&self) -> HostView {
        self@
    }
}

impl Host {
    /// Whether two hosts are the same: the same kind, and the same name or
    /// address.
    pub fn same(&self, other: &Host) -> (r: bool)
        ensures
            r == (self@ == other@),
    {
        match (self, other) {
            (Host::Domain(a), Host::Domain(b)) => *a == *b,
            (Host::Ipv4(a), Host::Ipv4(b)) => *a == *b,
            (Host::Ipv6(a), Host::Ipv6(b)) => *a == *b,
            _ => false,
        }
    }
}

/// Whether two optional hosts are the same: both absent, or both present and
/// the same host.
pub fn same_host(a: &Option<Host>, b: &Option<Host>) -> (r: bool)
    ensures
        r == (a.deep_view() == b.deep_view()),
{
    match (a, b) {
        (None, None) => true,
        (Some(x), Some(y)) => x.same(y),
        _ => false,
    }
}

/// An absolute URL after parsing.
#[derive(Debug)]
pub struct Location {
    /// The URL written out again in its normal form.
    pub href: String,
    /// The host, if the URL has one.
    pub host: Option<Host>,
    /// The segments of the path between its slashes, percent-encoded; absent
    /// for a URL that cannot be a base.
    pub segments: Option<Vec<String>>,
}

/// What a [`Location`] stands for.
pub struct LocationView {
    pub href: Seq<char>,
    pub host: Option<HostView>,
    pub segments: Option<Seq<Seq<char>>>,
}

impl View for Location {
    type V = LocationView;

    open spec fn view(&self) -> LocationView {
        LocationView {
            href: self.href@,
            host: self.host.deep_view(),
            segments: self.segments.deep_view(),
        }
    }
}

impl DeepView for Location {
    type V = LocationView;

    open spec fn deep_view(&self) -> LocationView {
        self@
    }
}

/// The parts of the absolute URL that `input` spells, or `None` where it
/// spells none.
pub uninterp spec fn parsed_url(input: Seq<char>) -> Option<LocationView>;

/// Parses `input` with `url::Url::parse`. On success the serialization
/// (`String::from(Url)`), the host (`Url::host`, its addresses as bits) and the path
/// segments (`Url::path_segments`, each copied to a `String`) are what
/// [`parsed_url`] names; on failure [`parsed_url`] is `None`. Nothing is
/// claimed about which strings parse.
#[verifier::external_body]
fn parse_url(input: &str) -> (r: Result<Location, url::ParseError>)
    ensures
        match r {
            Ok(location) => parsed_url(input@) == Some(location@),
            Err(_) => parsed_url(input@) is None,
        },
{
    let url = url::Url::parse(input)?;
    let host = match url.host() {
        None => None,
        Some(url::Host::Domain(name)) => Some(Host::Domain(name.to_string())),
        Some(url::Host::Ipv4(address)) => Some(Host::Ipv4(address.to_bits())),
        Some(url::Host::Ipv6(address)) => Some(Host::Ipv6(address.to_bits())),
    };
    let segments = url.path_segments().map(|parts| parts.map(|part| part.to_string()).collect());
    Ok(Location { href: url.into(), host, segments })
}

impl Location {
    /// Parses an absolute URL.
    ///
    /// Succeeds exactly on the strings that spell an absolute URL, and then
    /// returns its parts.
    pub fn parse(input: &str) -> (r: Result<Location, BackupError>)
        ensures
            match parsed_url(input@) {
                Some(parts) => r matches Ok(location) && location@ == parts,
                None => r matches Err(BackupError::InvalidUrl(_)),
            },
    {
        match parse_url(input) {
            Ok(location) => Ok(location),
            Err(cause) => Err(BackupError::InvalidUrl(cause)),
        }
    }

    /// The last segment of the path: the name a resource behind this URL is
    /// stored under. Absent where the URL has no path segments.
    pub open spec fn spec_file_name(parts: LocationView) -> Option<Seq<char>> {
        match parts.segments {
            Some(segments) => if segments.len() > 0 {
                Some(segments.last())
            } else {
                None
            },
            None => None,
        }
    }

    /// The last segment of the path, if there is one.
    pub fn file_name(&self) -> (r: Option<&String>)
        ensures
            r.deep_view() == Self::spec_file_name(self@),
    {
        match &self.segments {
            Some(segments) => {
                if segments.len() > 0 {
                    Some(&segments[segments.len() - 1])
                } else {
                    None
                }
            },
            None => None,
        }
    }
}

} // verus!
