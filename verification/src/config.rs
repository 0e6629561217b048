//! Run configuration: where the repository lives and whose documents to mirror.

use crate::error::BackupError;
use crate::location::{parsed_url, Location};
use crate::Token;
use vstd::prelude::*;
use vstd::string::StringExecFns;

verus! {

/// Everything a run is told from outside.
pub struct Config {
    /// The base URL of the service.
    pub host: String,
    /// The secret sent with every request.
    pub token: Token,
    /// Whose books to back up.
    pub target: Target,
    /// How many requests may be sent per second.
    pub limit: usize,
}

/// The owner of the books to back up.
pub struct Target {
    pub ty: TargetType,
    pub login: String,
}

/// Whether the books belong to a group or to a single user.
#[derive(Clone, Copy, Debug, PartialEq, Eq, Structural)]
pub enum TargetType {
    Group,
    User,
}

impl TargetType {
    /// The path segment that names this kind of owner.
    pub open spec fn segment(self) -> Seq<char> {
        match self {
            TargetType::Group => "groups"@,
            TargetType::User => "users"@,
        }
    }

    /// The path segment under which the service lists this kind of owner.
    pub fn as_str(&self) -> (s: &'static str)
        ensures
            s@ == self.segment(),
    {
        match self {
            TargetType::Group => "groups",
            TargetType::User => "users",
        }
    }
}

impl Target {
    /// The path that names this owner: a slash, the kind, a slash, the login.
    pub open spec fn spec_uri_path(&self) -> Seq<char> {
        "/"@ + self.ty.segment() + "/"@ + self.login@
    }

    /// The path that names this owner on the service.
    pub fn uri_path(&self) -> (path: String)
        ensures
            path@ == self.spec_uri_path(),
    {
        let mut path = String::from_str("/");
        path.append(self.ty.as_str());
        path.append("/");
        path.append(self.login.as_str());
        path
    }
}

impl Config {
    /// The absolute URL of `suffix` under the configured host.
    ///
    /// The host and the suffix are joined as they are and the result is
    /// parsed; it fails exactly where the joined text is no absolute URL.
    pub fn url(&self, suffix: &str) -> (r: Result<Location, BackupError>)
        ensures
            match parsed_url(self.host@ + suffix@) {
                Some(parts) => r matches Ok(location) && location@ == parts,
                None => r matches Err(BackupError::InvalidUrl(_)),
            },
    {
        let mut full = self.host.clone();
        full.append(suffix);
        Location::parse(full.as_str())
    }
}

} // verus!
