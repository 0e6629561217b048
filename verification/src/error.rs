//! What can go wrong before any request is sent.

use vstd::prelude::*;

verus! {

/// A failure of the library itself, as opposed to one of the network or the
/// file system.
#[derive(Debug)]
pub enum BackupError {
    /// A string that should have been an absolute URL is not one.
    InvalidUrl(url::ParseError),
    /// The pattern that finds links in document bodies does not compile.
    InvalidPattern(regex::Error),
}

} // verus!
