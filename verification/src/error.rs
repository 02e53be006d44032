//! The error taxonomy of manifest resolution. A missing manifest (or a
//! missing bucket named in a specifier) is not an error: resolution reports it
//! as an `Ok(None)` outcome, and these kinds cover only genuine failures.
use vstd::prelude::*;

verus! {

/// What went wrong while loading a matched manifest file, each kind tagged
/// with the path it concerns.
#[derive(Debug)]
pub enum ErrorKind {
    /// The file could not be opened or read.
    Io { path: String },
    /// The file's content is not valid JSON.
    Parse { path: String },
    /// A required field is missing or has the wrong type.
    Schema { path: String, field: String },
}

/// An error surfaced by manifest resolution.
#[derive(Debug)]
pub struct Error {
    pub kind: ErrorKind,
}

impl Error {
    /// An I/O failure on `path`.
    pub fn io(path: String) -> (r: Error)
        ensures
            r.kind matches ErrorKind::Io { path: p } && p@ == path@,
    {
        Error { kind: ErrorKind::Io { path } }
    }

    /// A parse failure on `path`.
    pub fn parse(path: String) -> (r: Error)
        ensures
            r.kind matches ErrorKind::Parse { path: p } && p@ == path@,
    {
        Error { kind: ErrorKind::Parse { path } }
    }

    /// A schema violation: `field` is missing or ill-typed in `path`.
    pub fn schema(path: String, field: String) -> (r: Error)
        ensures
            r.kind matches ErrorKind::Schema { path: p, field: f } && p@ == path@ && f@ == field@,
    {
        Error { kind: ErrorKind::Schema { path, field } }
    }

    /// A short description of the error, naming the path it concerns.
    pub fn message(&self) -> (r: String)
        ensures
            match self.kind {
                ErrorKind::Io { path } => r@ == "failed to read manifest '"@ + path@ + "'"@,
                ErrorKind::Parse { path } => r@ == "failed to parse manifest '"@ + path@ + "'"@,
                ErrorKind::Schema { path, field } => r@ == "failed to read "@ + field@
                    + " from manifest '"@ + path@ + "'"@,
            },
    {
        let mut s = String::new();
        match &self.kind {
            ErrorKind::Io { path } => {
                s.append("failed to read manifest '");
                s.append(path.as_str());
                s.append("'");
            },
            ErrorKind::Parse { path } => {
                s.append("failed to parse manifest '");
                s.append(path.as_str());
                s.append("'");
            },
            ErrorKind::Schema { path, field } => {
                s.append("failed to read ");
                s.append(field.as_str());
                s.append(" from manifest '");
                s.append(path.as_str());
                s.append("'");
            },
        }
        s
    }
}

} // verus!
