use vstd::prelude::*;

verus! {

/// The failure taxonomy of the mod pipeline.
///
/// Non-error terminal outcomes (no download available, unsupported archive
/// format, unrecognized layout) are *not* errors: they are distinct pipeline
/// states and never appear here.
#[derive(Debug)]
pub enum ModManagerError {
    /// Unreachable host, non-success status, or transport failure.
    NetworkError(String),
    /// Create/open/read/write/copy/remove failure on the filesystem.
    FileSystemError(String),
    /// Malformed catalog or detail response.
    ParseError(String),
}

impl ModManagerError {
    /// The human-readable description of this error.
    pub fn message(&self) -> (r: String)
        ensures
            r@ == self.message_spec(),
    {
        let mut s: String = match self {
            ModManagerError::NetworkError(_) => String::from_str("Network error: "),
            ModManagerError::FileSystemError(_) => String::from_str("File system error: "),
            ModManagerError::ParseError(_) => String::from_str("JSON Parse error: "),
        };
        let msg: &String = match self {
            ModManagerError::NetworkError(m) => m,
            ModManagerError::FileSystemError(m) => m,
            ModManagerError::ParseError(m) => m,
        };
        s.append(msg.as_str());
        s
    }

    /// What `message` returns, as a sequence of characters.
    pub open spec fn message_spec(&self) -> Seq<char> {
        match self {
            ModManagerError::NetworkError(m) => "Network error: "@ + m@,
            ModManagerError::FileSystemError(m) => "File system error: "@ + m@,
            ModManagerError::ParseError(m) => "JSON Parse error: "@ + m@,
        }
    }
}

} // verus!
