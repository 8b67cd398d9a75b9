use vstd::prelude::*;

verus! {

/// The failure kinds of the pipeline. Every stage fails fast and returns the
/// first error met; `Cleanup` reports a failed deletion of the cached archive
/// and may wrap the earlier error that triggered the rollback.
#[derive(Debug, PartialEq, Eq)]
pub enum Error {
    /// The HTTP response could not be obtained.
    Fetch,
    /// The cache file could not be created.
    FileCreate,
    /// A chunk could not be appended to the cache file.
    FileWrite,
    /// The response body failed while being streamed.
    StreamRead,
    /// The archive is not a readable zip container.
    ArchiveOpen,
    /// An entry of the archive could not be read.
    ArchiveRead,
    /// Directory creation, file creation or byte copy failed during extraction.
    ExtractionIo,
    /// A file could not be deleted during rollback or post-success cleanup.
    Cleanup(Option<Box<Error>>),
}

/// The errors that the download stage can report.
pub open spec fn is_download_error(e: Error) -> bool {
    match e {
        Error::Fetch => true,
        Error::FileCreate => true,
        Error::FileWrite => true,
        Error::StreamRead => true,
        Error::Cleanup(_) => true,
        _ => false,
    }
}

/// The errors that the extraction stage can report.
pub open spec fn is_extraction_error(e: Error) -> bool {
    match e {
        Error::ArchiveOpen => true,
        Error::ArchiveRead => true,
        Error::ExtractionIo => true,
        _ => false,
    }
}

} // verus!
