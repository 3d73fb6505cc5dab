use vstd::prelude::*;

verus! {

/// Why an operation failed.  Each variant carries the offending name or
/// path, so a caller can report which manifest, asset or entry failed.
#[derive(Debug)]
pub enum Error {
    /// A manifest or asset file could not be read.
    IOError(String),
    /// Malformed JSON, or JSON whose shape does not match the schema.
    ParseError(String),
    /// A named entry or attachment is absent from a registry.
    LookupError(String),
    /// The GPU backend rejected a resource creation.
    BackendError(String),
    /// An image, font or geometry payload could not be decoded.
    DecodeError(String),
}

impl Error {
    pub open spec fn is_lookup(&self) -> bool {
        self matches Error::LookupError(_)
    }

    pub open spec fn is_parse(&self) -> bool {
        self matches Error::ParseError(_)
    }

    pub open spec fn is_backend(&self) -> bool {
        self matches Error::BackendError(_)
    }

    /// The name or path the error reports.
    pub open spec fn subject(&self) -> Seq<char> {
        match self {
            Error::IOError(s) => s@,
            Error::ParseError(s) => s@,
            Error::LookupError(s) => s@,
            Error::BackendError(s) => s@,
            Error::DecodeError(s) => s@,
        }
    }
}

} // verus!
