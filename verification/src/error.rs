//! The fatal error taxonomy of the install pipeline.  Every variant unwinds
//! to the top-level caller; nothing is retried.

use vstd::prelude::*;

verus! {

/// A fatal failure of the acquisition or install pipeline.
#[derive(Debug)]
pub enum Error {
    /// A filesystem operation failed; the cause is preserved.
    Io(std::io::Error),
    /// A source's remote URL does not parse; carries the offending string.
    BadRemote { remote: String },
    /// A composed download URL does not parse.
    UrlError,
    /// The external resolver could not report an install directory.
    BadBundlePath,
    /// An archive entry path would escape the install root, or cannot be
    /// used as a destination; carries the offending path.
    InvalidTarballPath(String),
}

impl From<std::io::Error> for Error {
    fn from(e: std::io::Error) -> (r: Error) {
        Error::Io(e)
    }
}

impl vstd::std_specs::convert::FromSpecImpl<std::io::Error> for Error {
    open spec fn obeys_from_spec() -> bool {
        true
    }

    open spec fn from_spec(e: std::io::Error) -> Error {
        Error::Io(e)
    }
}

} // verus!
