use vstd::prelude::*;

verus! {

/// The failures the core can report.  Every error carries the offending
/// name or path so the caller can render a precise message; the core never
/// recovers from any of them internally.
#[derive(Debug)]
pub enum Error {
    /// The target project path is already occupied.
    AlreadyExists(String),
    /// A project, custom template or installed binary is missing.
    NotFound(String),
    /// The identifier matches neither a built-in nor a registered custom
    /// template.
    UnknownTemplate(String),
    /// A custom-template source path is missing or not a directory.
    InvalidPath(String),
    /// A persisted document is malformed.
    Parse,
    /// A filesystem operation failed; carries the reported cause.
    Io(String),
    /// An external build tool returned non-zero; carries its diagnostics.
    BuildFailed(String),
}

impl Error {
    /// A short human-readable description carrying the offending
    /// name or path, in place of `Display`.
    pub fn message(&self) -> (r: String)
        ensures
            match self {
                Error::AlreadyExists(p) => r@ == p@ + ": project directory already exists"@,
                Error::NotFound(n) => r@ == n@ + ": not found"@,
                Error::UnknownTemplate(t) => r@ == t@ + ": unknown template"@,
                Error::InvalidPath(p) => r@ == p@
                    + ": template path must be an existing directory"@,
                Error::Parse => r@ == "persisted document is malformed"@,
                Error::Io(m) => r@ == "filesystem operation failed: "@ + m@,
                Error::BuildFailed(m) => r@ == "build failed: "@ + m@,
            },
    {
        match self {
            Error::AlreadyExists(p) => {
                let mut s = p.clone();
                s.append(": project directory already exists");
                s
            },
            Error::NotFound(n) => {
                let mut s = n.clone();
                s.append(": not found");
                s
            },
            Error::UnknownTemplate(t) => {
                let mut s = t.clone();
                s.append(": unknown template");
                s
            },
            Error::InvalidPath(p) => {
                let mut s = p.clone();
                s.append(": template path must be an existing directory");
                s
            },
            Error::Parse => String::from_str("persisted document is malformed"),
            Error::Io(m) => {
                let mut s = String::from_str("filesystem operation failed: ");
                s.append(m.as_str());
                s
            },
            Error::BuildFailed(m) => {
                let mut s = String::from_str("build failed: ");
                s.append(m.as_str());
                s
            },
        }
    }
}

} // verus!
