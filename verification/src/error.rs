//! The failures that resolving and synchronising a model can end in.

use vstd::prelude::*;

verus! {

/// Why a text is no model reference of the form `owner/model:tag`.
#[derive(Clone, Copy, Debug, PartialEq, Eq, Structural)]
pub enum ModelRefError {
    /// No `:` separates a tag from the repository, or the tag is empty.
    MissingTag,
    /// No `/` separates an owner from the model, or one of the two is empty.
    MissingOwner,
}

/// A failure of a download. Where a variant holds a text, it is the detail
/// that the failed operation reported: an address, a path, a status.
#[derive(Clone, Debug, PartialEq, Eq)]
pub enum DownloadError {
    /// The registry could not be reached or answered outside 200 to 299.
    ManifestFetch(String),
    /// The manifest that the registry sent is no well-formed document.
    ManifestParse(String),
    /// The manifest declares no artifact file for the tag.
    NoGgufFile,
    /// The listing of a sharded artifact is missing or names no shard.
    ShardListing(String),
    /// The cache directory cannot be found or created.
    CacheDir(String),
    /// A file of the cache could not be written.
    FileWrite(String),
    /// The text given is no model reference.
    ModelRef(ModelRefError),
}

/// A `DownloadError` with its texts as sequences of characters.
pub enum DownloadErrorView {
    ManifestFetch(Seq<char>),
    ManifestParse(Seq<char>),
    NoGgufFile,
    ShardListing(Seq<char>),
    CacheDir(Seq<char>),
    FileWrite(Seq<char>),
    ModelRef(ModelRefError),
}

impl View for DownloadError {
    type V = DownloadErrorView;

    open spec fn view(&self) -> DownloadErrorView {
        match self {
            DownloadError::ManifestFetch(d) => DownloadErrorView::ManifestFetch(d@),
            DownloadError::ManifestParse(d) => DownloadErrorView::ManifestParse(d@),
            DownloadError::NoGgufFile => DownloadErrorView::NoGgufFile,
            DownloadError::ShardListing(d) => DownloadErrorView::ShardListing(d@),
            DownloadError::CacheDir(d) => DownloadErrorView::CacheDir(d@),
            DownloadError::FileWrite(d) => DownloadErrorView::FileWrite(d@),
            DownloadError::ModelRef(e) => DownloadErrorView::ModelRef(*e),
        }
    }
}

/// The error of a result by its view, and `None` for a result that holds
/// none.
pub open spec fn failure<T>(r: Result<T, DownloadError>) -> Option<DownloadErrorView> {
    match r {
        Ok(_) => None,
        Err(e) => Some(e@),
    }
}

impl ModelRefError {
    /// The message of this error as a sequence of characters.
    pub open spec fn message_spec(self) -> Seq<char> {
        match self {
            ModelRefError::MissingTag =>
                "Invalid model reference: missing tag (expected format: owner/model:tag)"@,
            ModelRefError::MissingOwner =>
                "Invalid model reference: missing owner (expected format: owner/model:tag)"@,
        }
    }

    /// The message to show for this error.
    pub fn message(&self) -> (m: String)
        ensures
            m@ == self.message_spec(),
    {
        match self {
            ModelRefError::MissingTag => String::from_str(
                "Invalid model reference: missing tag (expected format: owner/model:tag)",
            ),
            ModelRefError::MissingOwner => String::from_str(
                "Invalid model reference: missing owner (expected format: owner/model:tag)",
            ),
        }
    }
}

impl DownloadErrorView {
    /// The message of this error: what failed, then the detail.
    pub open spec fn message(self) -> Seq<char> {
        match self {
            DownloadErrorView::ManifestFetch(d) => "Failed to fetch manifest: "@ + d,
            DownloadErrorView::ManifestParse(d) => "Failed to parse manifest: "@ + d,
            DownloadErrorView::NoGgufFile => "No GGUF file found in manifest"@,
            DownloadErrorView::ShardListing(d) => "Failed to list shard files: "@ + d,
            DownloadErrorView::CacheDir(d) => "Failed to create cache directory: "@ + d,
            DownloadErrorView::FileWrite(d) => "Failed to write file: "@ + d,
            DownloadErrorView::ModelRef(e) => e.message_spec(),
        }
    }
}

impl DownloadError {
    /// The message to show for this error.
    pub fn message(&self) -> (m: String)
        ensures
            m@ == self@.message(),
    {
        match self {
            DownloadError::ManifestFetch(d) => String::from_str(
                "Failed to fetch manifest: ",
            ).concat(d.as_str()),
            DownloadError::ManifestParse(d) => String::from_str(
                "Failed to parse manifest: ",
            ).concat(d.as_str()),
            DownloadError::NoGgufFile => String::from_str("No GGUF file found in manifest"),
            DownloadError::ShardListing(d) => String::from_str(
                "Failed to list shard files: ",
            ).concat(d.as_str()),
            DownloadError::CacheDir(d) => String::from_str(
                "Failed to create cache directory: ",
            ).concat(d.as_str()),
            DownloadError::FileWrite(d) => String::from_str("Failed to write file: ").concat(
                d.as_str(),
            ),
            DownloadError::ModelRef(e) => e.message(),
        }
    }
}

} // verus!
