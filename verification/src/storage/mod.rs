//! The blob store: its errors, its two backends and the locators they give.

pub mod local;
pub mod s3;

use vstd::prelude::*;
use vstd::string::StringExecFns;
use crate::config::{Config, ConfigView};
use crate::text::{same_text, strip_prefix, without_prefix};
use local::{full_path, LocalStorage};
use s3::{s3_locator, S3Storage, S3StorageView};

verus! {

/// Why an operation on the blob store failed.
#[derive(Debug, Clone, PartialEq, Eq)]
pub enum StorageError {
    /// No blob is stored under the key; the text says which, or why.
    NotFound(String),
    /// Reading or writing failed, with the cause's description.
    IoError(String),
    /// The backend refused an upload.
    UploadError(String),
    /// The backend refused a delete.
    DeleteError(String),
}

/// A [`StorageError`] with its text as a sequence of characters.
pub enum StorageErrorView {
    NotFound(Seq<char>),
    IoError(Seq<char>),
    UploadError(Seq<char>),
    DeleteError(Seq<char>),
}

impl View for StorageError {
    type V = StorageErrorView;

    open spec fn view(&self) -> StorageErrorView {
        match self {
            StorageError::NotFound(m) => StorageErrorView::NotFound(m@),
            StorageError::IoError(m) => StorageErrorView::IoError(m@),
            StorageError::UploadError(m) => StorageErrorView::UploadError(m@),
            StorageError::DeleteError(m) => StorageErrorView::DeleteError(m@),
        }
    }
}

impl StorageErrorView {
    /// The error's description: a label for its kind and its text.
    pub open spec fn description(self) -> Seq<char> {
        match self {
            StorageErrorView::NotFound(m) => "File not found: "@ + m,
            StorageErrorView::IoError(m) => "Io Error: "@ + m,
            StorageErrorView::UploadError(m) => "Upload Error: "@ + m,
            StorageErrorView::DeleteError(m) => "Delete Error: "@ + m,
        }
    }
}

impl StorageError {
    /// The description of this error.
    pub fn to_string(&self) -> (s: String)
        ensures
            s@ == self@.description(),
    {
        match self {
            StorageError::NotFound(m) => String::from_str("File not found: ").concat(m.as_str()),
            StorageError::IoError(m) => String::from_str("Io Error: ").concat(m.as_str()),
            StorageError::UploadError(m) => String::from_str("Upload Error: ").concat(m.as_str()),
            StorageError::DeleteError(m) => String::from_str("Delete Error: ").concat(m.as_str()),
        }
    }
}

/// How fetching a blob from its backing store ended.
#[derive(Debug, PartialEq, Eq)]
pub enum Fetched {
    /// The blob's bytes.
    Bytes(Vec<u8>),
    /// The store holds no such blob; the text is the store's message, if any.
    Absent(String),
    /// The blob is there but could not be read.
    Failed(String),
}

/// How removing a blob from its backing store ended.
#[derive(Debug, PartialEq, Eq)]
pub enum Removed {
    /// The blob was removed, or the store accepted the request.
    Done,
    /// There was nothing to remove.
    Absent,
    /// The store could not remove it.
    Failed(String),
}

/// The backend in use.
#[derive(Debug, Clone, PartialEq, Eq)]
pub enum StorageBackend {
    Local(LocalStorage),
    S3(S3Storage),
}

/// A [`StorageBackend`] by the views of its backends.
pub enum StorageBackendView {
    Local(Seq<char>),
    S3(S3StorageView),
}

impl View for StorageBackend {
    type V = StorageBackendView;

    open spec fn view(&self) -> StorageBackendView {
        match self {
            StorageBackend::Local(s) => StorageBackendView::Local(s@),
            StorageBackend::S3(s) => StorageBackendView::S3(s@),
        }
    }
}

impl StorageBackendView {
    /// The locator this backend gives the blob stored under `key`.
    pub open spec fn locator(self, key: Seq<char>) -> Seq<char> {
        match self {
            StorageBackendView::Local(base) => full_path(base, key),
            StorageBackendView::S3(_) => s3_locator(key),
        }
    }

    /// The tag that records of this backend carry.
    pub open spec fn storage_type(self) -> Seq<char> {
        match self {
            StorageBackendView::Local(_) => "local"@,
            StorageBackendView::S3(_) => "s3"@,
        }
    }
}

/// The directory of the local backend.
pub open spec fn local_base() -> Seq<char> {
    "uploads"@
}

/// The key that a stored locator stands for: a record tagged `s3` loses a
/// leading `s3://`, any other record a leading `uploads/`; a locator without
/// that prefix is the key already.
pub open spec fn key_of(storage_type: Seq<char>, locator: Seq<char>) -> Seq<char> {
    if storage_type == "s3"@ {
        without_prefix(locator, "s3://"@)
    } else {
        without_prefix(locator, "uploads/"@)
    }
}

/// Normalizes a stored locator to the key the backend knows the blob by.
pub fn storage_key(storage_type: &str, locator: &str) -> (key: String)
    ensures
        key@ == key_of(storage_type@, locator@),
{
    if same_text(storage_type, "s3") {
        strip_prefix(locator, "s3://")
    } else {
        strip_prefix(locator, "uploads/")
    }
}

/// The tag of the backend that `use_s3` selects.
pub open spec fn storage_type_of(use_s3: bool) -> Seq<char> {
    if use_s3 {
        "s3"@
    } else {
        "local"@
    }
}

impl StorageBackend {
    /// The tag that records of this backend carry: `s3` or `local`.
    pub fn storage_type(&self) -> (tag: String)
        ensures
            tag@ == self@.storage_type(),
    {
        match self {
            StorageBackend::Local(_) => String::from_str("local"),
            StorageBackend::S3(_) => String::from_str("s3"),
        }
    }

    /// The result of an upload under the key `file_path`, given how the
    /// backend's write ended: the blob's locator, or the backend's error.
    pub fn upload(&self, file_path: &str, written: Result<(), String>) -> (r: Result<
        String,
        StorageError,
    >)
        ensures
            match written {
                Ok(_) => r matches Ok(locator) && locator@ == self@.locator(file_path@),
                Err(e) => r matches Err(err) && err@ == (match self {
                    StorageBackend::Local(_) => StorageErrorView::IoError(e@),
                    StorageBackend::S3(_) => StorageErrorView::UploadError(e@),
                }),
            },
    {
        match self {
            StorageBackend::Local(s) => s.upload(file_path, written),
            StorageBackend::S3(s) => s.upload(file_path, written),
        }
    }

    /// The result of a download of the key `file_path`, given how the
    /// backend's read ended.
    pub fn download(&self, file_path: &str, fetched: Fetched) -> (r: Result<Vec<u8>, StorageError>)
        ensures
            match fetched {
                Fetched::Bytes(bytes) => r == Ok::<Vec<u8>, StorageError>(bytes),
                Fetched::Absent(e) => r matches Err(err) && err@ == (match self {
                    StorageBackend::Local(_) => StorageErrorView::NotFound(file_path@),
                    StorageBackend::S3(_) => StorageErrorView::NotFound(e@),
                }),
                Fetched::Failed(e) => r matches Err(err) && err@ == StorageErrorView::IoError(e@),
            },
    {
        match self {
            StorageBackend::Local(s) => s.download(file_path, fetched),
            StorageBackend::S3(s) => s.download(fetched),
        }
    }

    /// The result of a delete, given how the backend's removal ended.
    pub fn delete(&self, removed: Removed) -> (r: Result<(), StorageError>)
        ensures
            match removed {
                Removed::Done => r is Ok,
                Removed::Absent => r is Ok,
                Removed::Failed(e) => r matches Err(err) && err@ == (match self {
                    StorageBackend::Local(_) => StorageErrorView::IoError(e@),
                    StorageBackend::S3(_) => StorageErrorView::DeleteError(e@),
                }),
            },
    {
        match self {
            StorageBackend::Local(s) => s.delete(removed),
            StorageBackend::S3(s) => s.delete(removed),
        }
    }
}

/// The backend that a configuration selects: the bucket it names where it
/// asks for S3, else the local directory `uploads`.
pub open spec fn backend_of(config: ConfigView) -> StorageBackendView {
    if config.use_s3 {
        StorageBackendView::S3(
            S3StorageView {
                bucket: config.s3_bucket,
                region: config.s3_region,
                endpoint: config.s3_endpoint,
                credentials: if config.s3_endpoint.is_some() {
                    Some((config.s3_access_key, config.s3_secret_key))
                } else {
                    None
                },
            },
        )
    } else {
        StorageBackendView::Local(local_base())
    }
}

/// Selects the backend that `config` asks for.
pub fn init_storage(config: &Config) -> (backend: StorageBackend)
    ensures
        backend@ == backend_of(config@),
        backend@.storage_type() == storage_type_of(config@.use_s3),
{
    if config.use_s3 {
        StorageBackend::S3(S3Storage::new(config))
    } else {
        StorageBackend::Local(LocalStorage::new("uploads"))
    }
}

/// A locator leads back to its key: for a backend that a configuration
/// selects, normalizing the locator it gives a key, under the backend's own
/// tag, yields that key again.
pub proof fn lemma_locator_round_trip(config: ConfigView, key: Seq<char>)
    ensures
        key_of(backend_of(config).storage_type(), backend_of(config).locator(key)) == key,
{
    reveal_strlit("s3");
    reveal_strlit("local");
    reveal_strlit("s3://");
    reveal_strlit("uploads/");
    reveal_strlit("uploads");
    reveal_strlit("/");
    let backend = backend_of(config);
    let locator = backend.locator(key);
    if config.use_s3 {
        assert(locator.subrange(0, 5) =~= "s3://"@);
        assert(locator.subrange(5, locator.len() as int) =~= key);
    } else {
        assert("local"@ != "s3"@) by {
            assert("local"@.len() == 5);
            assert("s3"@.len() == 2);
        }
        assert(locator.subrange(0, 8) =~= "uploads/"@);
        assert(locator.subrange(8, locator.len() as int) =~= key);
    }
}

} // verus!
