//! Why a scrape failed.

use vstd::prelude::*;

verus! {

/// What went wrong while a server's documents were fetched and classified.
#[derive(Debug, Clone, PartialEq, Eq)]
pub enum ScrapeError {
    /// A document could not be fetched: no connection, a timeout, or a
    /// status that is no success.
    FetchError(String),
    /// A document was fetched and is not what its decoder expects.
    DocumentError(String),
    /// An object-storage server was given no repository names.
    EmptyRepositoryList(String),
    /// The replicas that the server reports do not fit its declared type.
    ServerTypeMismatch(String),
    /// A value of a document failed validation.
    ConversionError(String),
}

/// What went wrong with a repository's manifest.
#[derive(Debug, Clone, PartialEq, Eq)]
pub enum ManifestError {
    /// The manifest could not be fetched.
    FetchError(String),
    /// The manifest's text does not decode.
    FormatError(String),
}

/// Errors of use, not of scraping.
#[derive(Debug, Clone, PartialEq, Eq)]
pub enum GenericError {
    /// A result was read as the variant that it is not.
    TypeError(String),
}

/// Every error that a scrape can end in.
#[derive(Debug, Clone, PartialEq, Eq)]
pub enum CVMFSScraperError {
    ScrapeError(ScrapeError),
    ManifestError(ManifestError),
}

/// The kinds of error, without their messages.
#[derive(Debug, Clone, Copy, PartialEq, Eq, Structural)]
pub enum ErrorKind {
    TransportFailure,
    MalformedDocument,
    EmptyRepositoryList,
    ServerTypeMismatch,
    ConversionError,
    ManifestFormatError,
}

impl ScrapeError {
    pub open spec fn spec_kind(&self) -> ErrorKind {
        match self {
            ScrapeError::FetchError(_) => ErrorKind::TransportFailure,
            ScrapeError::DocumentError(_) => ErrorKind::MalformedDocument,
            ScrapeError::EmptyRepositoryList(_) => ErrorKind::EmptyRepositoryList,
            ScrapeError::ServerTypeMismatch(_) => ErrorKind::ServerTypeMismatch,
            ScrapeError::ConversionError(_) => ErrorKind::ConversionError,
        }
    }

    pub open spec fn spec_message(&self) -> Seq<char> {
        match self {
            ScrapeError::FetchError(m) => m@,
            ScrapeError::DocumentError(m) => m@,
            ScrapeError::EmptyRepositoryList(m) => m@,
            ScrapeError::ServerTypeMismatch(m) => m@,
            ScrapeError::ConversionError(m) => m@,
        }
    }

    /// The kind of this error.
    pub fn kind(&self) -> (kind: ErrorKind)
        ensures
            kind == self.spec_kind(),
    {
        match self {
            ScrapeError::FetchError(_) => ErrorKind::TransportFailure,
            ScrapeError::DocumentError(_) => ErrorKind::MalformedDocument,
            ScrapeError::EmptyRepositoryList(_) => ErrorKind::EmptyRepositoryList,
            ScrapeError::ServerTypeMismatch(_) => ErrorKind::ServerTypeMismatch,
            ScrapeError::ConversionError(_) => ErrorKind::ConversionError,
        }
    }
}

impl ManifestError {
    pub open spec fn spec_kind(&self) -> ErrorKind {
        match self {
            ManifestError::FetchError(_) => ErrorKind::TransportFailure,
            ManifestError::FormatError(_) => ErrorKind::ManifestFormatError,
        }
    }

    pub open spec fn spec_message(&self) -> Seq<char> {
        match self {
            ManifestError::FetchError(m) => m@,
            ManifestError::FormatError(m) => m@,
        }
    }

    /// The kind of this error.
    pub fn kind(&self) -> (kind: ErrorKind)
        ensures
            kind == self.spec_kind(),
    {
        match self {
            ManifestError::FetchError(_) => ErrorKind::TransportFailure,
            ManifestError::FormatError(_) => ErrorKind::ManifestFormatError,
        }
    }
}

impl CVMFSScraperError {
    pub open spec fn spec_kind(&self) -> ErrorKind {
        match self {
            CVMFSScraperError::ScrapeError(e) => e.spec_kind(),
            CVMFSScraperError::ManifestError(e) => e.spec_kind(),
        }
    }

    pub open spec fn spec_message(&self) -> Seq<char> {
        match self {
            CVMFSScraperError::ScrapeError(e) => e.spec_message(),
            CVMFSScraperError::ManifestError(e) => e.spec_message(),
        }
    }

    /// The kind of this error.
    pub fn kind(&self) -> (kind: ErrorKind)
        ensures
            kind == self.spec_kind(),
    {
        match self {
            CVMFSScraperError::ScrapeError(e) => e.kind(),
            CVMFSScraperError::ManifestError(e) => e.kind(),
        }
    }
}

} // verus!
