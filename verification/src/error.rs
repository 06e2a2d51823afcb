//! The structured failure taxonomy of the bridge, and its rendering.
//!
//! Every failed operation is ultimately reported to the caller as one
//! opaque descriptive string; internally the bridge keeps a structured
//! error so that behaviour can be stated precisely. `Other` carries the
//! underlying system error text verbatim.

use vstd::prelude::*;

verus! {

/// Why a bridge operation failed.
#[derive(Debug, Clone, PartialEq, Eq)]
pub enum FsError {
    /// The path names nothing.
    NotFound,
    /// The path exists but may not be accessed.
    PermissionDenied,
    /// Something already stands at the path and is in the way.
    AlreadyExists,
    /// The file's bytes are not valid text.
    InvalidEncoding,
    /// Any other failure, carrying the underlying error text.
    Other(String),
}

impl FsError {
    /// The descriptive text of this error, as a sequence of characters.
    pub open spec fn text_spec(&self) -> Seq<char> {
        match self {
            FsError::NotFound => "entity not found"@,
            FsError::PermissionDenied => "permission denied"@,
            FsError::AlreadyExists => "entity already exists"@,
            FsError::InvalidEncoding => "stream did not contain valid UTF-8"@,
            FsError::Other(m) => m@,
        }
    }

    /// Renders the error to its descriptive text.
    pub fn text(&self) -> (r: String)
        ensures
            r@ == self.text_spec(),
    {
        match self {
            FsError::NotFound => String::from_str("entity not found"),
            FsError::PermissionDenied => String::from_str("permission denied"),
            FsError::AlreadyExists => String::from_str("entity already exists"),
            FsError::InvalidEncoding => String::from_str("stream did not contain valid UTF-8"),
            FsError::Other(m) => m.clone(),
        }
    }
}

} // verus!
