use vstd::prelude::*;

verus! {

/// The file operation that failed on a local target file.
#[derive(Clone, Copy, Debug, PartialEq, Eq)]
pub enum FileOp {
    Create,
    OpenAppend,
    Write,
    Flush,
}

/// Why a single download failed.
#[derive(Clone, Debug, PartialEq, Eq)]
pub enum DownloadError {
    /// Neither a disposition header nor the URL's path yields a filename.
    FilenameUnresolvable,
    /// A disposition header is present but is not of the shape
    /// `attachment; filename=<token>`.
    HeaderParse,
    /// Sending a request or reading a response body failed.
    Network { url: String },
    /// Opening, writing or flushing the local target file failed.
    FileSystem { filename: String, op: FileOp },
}

/// A successful download: the name of the file that now holds the resource.
#[derive(Clone, Debug, PartialEq, Eq)]
pub struct DownloadResult {
    pub filename: String,
}

/// The mathematical value of a `Result` over strings.
pub open spec fn view_result(r: Result<String, DownloadError>) -> Result<Seq<char>, DownloadError> {
    match r {
        Ok(s) => Ok(s@),
        Err(e) => Err(e),
    }
}

} // verus!
