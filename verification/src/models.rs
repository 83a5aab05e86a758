//! The records of the metadata index and the bodies sent to clients.

use vstd::prelude::*;
use vstd::string::StringExecFns;
use crate::text::text_view;
use crate::utils::{hyphenated, id_text};

verus! {

/// One row of the metadata index. `id` is the 128-bit value of the record's
/// identifier; the two timestamps count microseconds since the Unix epoch.
#[derive(Debug, Clone, PartialEq, Eq)]
pub struct File {
    pub id: u128,
    pub filename: String,
    pub original_filename: String,
    pub file_path: String,
    pub file_size: i64,
    pub mime_type: String,
    pub storage_type: String,
    pub checksum: Option<String>,
    pub thumbnail_path: Option<String>,
    pub uploaded_at: Option<i64>,
    pub updated_at: Option<i64>,
}

/// A [`File`] with its texts as sequences of characters.
pub struct FileView {
    pub id: u128,
    pub filename: Seq<char>,
    pub original_filename: Seq<char>,
    pub file_path: Seq<char>,
    pub file_size: i64,
    pub mime_type: Seq<char>,
    pub storage_type: Seq<char>,
    pub checksum: Option<Seq<char>>,
    pub thumbnail_path: Option<Seq<char>>,
    pub uploaded_at: Option<i64>,
    pub updated_at: Option<i64>,
}

impl View for File {
    type V = FileView;

    open spec fn view(&self) -> FileView {
        FileView {
            id: self.id,
            filename: self.filename@,
            original_filename: self.original_filename@,
            file_path: self.file_path@,
            file_size: self.file_size,
            mime_type: self.mime_type@,
            storage_type: self.storage_type@,
            checksum: text_view(self.checksum),
            thumbnail_path: text_view(self.thumbnail_path),
            uploaded_at: self.uploaded_at,
            updated_at: self.updated_at,
        }
    }
}

/// The body that answers a successful upload.
#[derive(Debug, Clone, PartialEq, Eq)]
pub struct UploadResponse {
    pub id: u128,
    pub filename: String,
    pub url: String,
    pub size: i64,
    pub mime_type: String,
}

/// An [`UploadResponse`] with its texts as sequences of characters.
pub struct UploadResponseView {
    pub id: u128,
    pub filename: Seq<char>,
    pub url: Seq<char>,
    pub size: i64,
    pub mime_type: Seq<char>,
}

impl View for UploadResponse {
    type V = UploadResponseView;

    open spec fn view(&self) -> UploadResponseView {
        UploadResponseView {
            id: self.id,
            filename: self.filename@,
            url: self.url@,
            size: self.size,
            mime_type: self.mime_type@,
        }
    }
}

/// The body that describes a stored file.
#[derive(Debug, Clone, PartialEq, Eq)]
pub struct FileResponse {
    pub id: u128,
    pub filename: String,
    pub original_filename: String,
    pub size: i64,
    pub mime_type: String,
    pub uploaded_at: Option<i64>,
    pub download_url: String,
    pub thumbnail_url: Option<String>,
}

/// A [`FileResponse`] with its texts as sequences of characters.
pub struct FileResponseView {
    pub id: u128,
    pub filename: Seq<char>,
    pub original_filename: Seq<char>,
    pub size: i64,
    pub mime_type: Seq<char>,
    pub uploaded_at: Option<i64>,
    pub download_url: Seq<char>,
    pub thumbnail_url: Option<Seq<char>>,
}

impl View for FileResponse {
    type V = FileResponseView;

    open spec fn view(&self) -> FileResponseView {
        FileResponseView {
            id: self.id,
            filename: self.filename@,
            original_filename: self.original_filename@,
            size: self.size,
            mime_type: self.mime_type@,
            uploaded_at: self.uploaded_at,
            download_url: self.download_url@,
            thumbnail_url: text_view(self.thumbnail_url),
        }
    }
}

/// The address of a file's metadata: `/files/{id}`.
pub open spec fn file_url(id: u128) -> Seq<char> {
    "/files/"@ + hyphenated(id)
}

/// The address of a file's bytes: `/files/{id}/download`.
pub open spec fn download_url(id: u128) -> Seq<char> {
    "/files/"@ + hyphenated(id) + "/download"@
}

/// The address of a file's thumbnail: `/files/{id}/thumbnail`.
pub open spec fn thumbnail_url(id: u128) -> Seq<char> {
    "/files/"@ + hyphenated(id) + "/thumbnail"@
}

/// What an upload answers with for the record `file`.
pub open spec fn upload_response(file: FileView) -> UploadResponseView {
    UploadResponseView {
        id: file.id,
        filename: file.filename,
        url: file_url(file.id),
        size: file.file_size,
        mime_type: file.mime_type,
    }
}

/// How the record `file` is described to clients. The thumbnail address is
/// present exactly when the record has a thumbnail.
pub open spec fn file_response(file: FileView) -> FileResponseView {
    FileResponseView {
        id: file.id,
        filename: file.filename,
        original_filename: file.original_filename,
        size: file.file_size,
        mime_type: file.mime_type,
        uploaded_at: file.uploaded_at,
        download_url: download_url(file.id),
        thumbnail_url: if file.thumbnail_path.is_some() {
            Some(thumbnail_url(file.id))
        } else {
            None
        },
    }
}

/// `/files/{id}` followed by `tail`.
fn url_of(id: u128, tail: &str) -> (url: String)
    ensures
        url@ == "/files/"@ + hyphenated(id) + tail@,
{
    let id = id_text(id);
    String::from_str("/files/").concat(id.as_str()).concat(tail)
}

impl UploadResponse {
    /// The answer to an upload that ended in the record `file`.
    pub fn of(file: &File) -> (response: UploadResponse)
        ensures
            response@ == upload_response(file@),
    {
        let url = url_of(file.id, "");
        proof {
            reveal_strlit("");
            assert(url@ =~= file_url(file.id));
        }
        UploadResponse {
            id: file.id,
            filename: file.filename.clone(),
            url,
            size: file.file_size,
            mime_type: file.mime_type.clone(),
        }
    }
}

impl FileResponse {
    /// The description of the record `file`.
    pub fn of(file: &File) -> (response: FileResponse)
        ensures
            response@ == file_response(file@),
    {
        let download_url = url_of(file.id, "/download");
        let thumbnail_url = match &file.thumbnail_path {
            Some(_) => Some(url_of(file.id, "/thumbnail")),
            None => None,
        };
        FileResponse {
            id: file.id,
            filename: file.filename.clone(),
            original_filename: file.original_filename.clone(),
            size: file.file_size,
            mime_type: file.mime_type.clone(),
            uploaded_at: file.uploaded_at,
            download_url,
            thumbnail_url,
        }
    }
}

} // verus!
