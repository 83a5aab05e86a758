//! The backend that keeps blobs as files below one directory.

use vstd::prelude::*;
use vstd::string::StringExecFns;
use super::{Fetched, Removed, StorageError, StorageErrorView};

verus! {

/// A store of files below the directory `base_path`.
#[derive(Debug, Clone, PartialEq, Eq)]
pub struct LocalStorage {
    pub base_path: String,
}

/// Where the key `file_path` lives below the directory `base`.
pub open spec fn full_path(base: Seq<char>, file_path: Seq<char>) -> Seq<char> {
    base + "/"@ + file_path
}

impl View for LocalStorage {
    type V = Seq<char>;

    /// The base directory.
    open spec fn view(&self) -> Seq<char> {
        self.base_path@
    }
}

impl LocalStorage {
    /// A store below `base_path`. The directories named by
    /// [`LocalStorage::directories`] are to exist before it is used.
    pub fn new(base_path: &str) -> (storage: LocalStorage)
        ensures
            storage@ == base_path@,
    {
        LocalStorage { base_path: String::from_str(base_path) }
    }

    /// The directories the store keeps: its base, and below it `files` and
    /// `thumbnails`.
    pub fn directories(&self) -> (dirs: Vec<String>)
        ensures
            dirs@.len() == 3,
            dirs@[0]@ == self@,
            dirs@[1]@ == full_path(self@, "files"@),
            dirs@[2]@ == full_path(self@, "thumbnails"@),
    {
        let mut dirs: Vec<String> = Vec::new();
        dirs.push(self.base_path.clone());
        dirs.push(self.get_full_path("files"));
        dirs.push(self.get_full_path("thumbnails"));
        dirs
    }

    /// The path of the key `file_path` below the base directory.
    pub fn get_full_path(&self, file_path: &str) -> (path: String)
        ensures
            path@ == full_path(self@, file_path@),
    {
        self.base_path.clone().concat("/").concat(file_path)
    }

    /// The result of an upload of the key `file_path`, given how writing the
    /// file at its full path ended: that path, or the failure as an I/O error.
    pub fn upload(&self, file_path: &str, written: Result<(), String>) -> (r: Result<
        String,
        StorageError,
    >)
        ensures
            match written {
                Ok(_) => r matches Ok(path) && path@ == full_path(self@, file_path@),
                Err(e) => r matches Err(err) && err@ == StorageErrorView::IoError(e@),
            },
    {
        match written {
            Ok(_) => Ok(self.get_full_path(file_path)),
            Err(e) => Err(StorageError::IoError(e)),
        }
    }

    /// The result of a download of the key `file_path`, given how reading the
    /// file at its full path ended: a file that is not there is reported as
    /// not found under its key, any other failure as an I/O error.
    pub fn download(&self, file_path: &str, fetched: Fetched) -> (r: Result<Vec<u8>, StorageError>)
        ensures
            match fetched {
                Fetched::Bytes(bytes) => r == Ok::<Vec<u8>, StorageError>(bytes),
                Fetched::Absent(_) => r matches Err(err) && err@ == StorageErrorView::NotFound(
                    file_path@,
                ),
                Fetched::Failed(e) => r matches Err(err) && err@ == StorageErrorView::IoError(e@),
            },
    {
        match fetched {
            Fetched::Bytes(bytes) => Ok(bytes),
            Fetched::Absent(_) => Err(StorageError::NotFound(String::from_str(file_path))),
            Fetched::Failed(e) => Err(StorageError::IoError(e)),
        }
    }

    /// The result of a delete, given how removing the file ended: a file that
    /// was not there is no error.
    pub fn delete(&self, removed: Removed) -> (r: Result<(), StorageError>)
        ensures
            match removed {
                Removed::Done => r is Ok,
                Removed::Absent => r is Ok,
                Removed::Failed(e) => r matches Err(err) && err@ == StorageErrorView::IoError(e@),
            },
    {
        match removed {
            Removed::Done => Ok(()),
            Removed::Absent => Ok(()),
            Removed::Failed(e) => Err(StorageError::IoError(e)),
        }
    }
}

} // verus!
