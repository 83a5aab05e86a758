//! The handlers that read, list and delete stored files. Each looks a record
//! up first and answers "not found" where there is none.

use vstd::prelude::*;
use vstd::string::StringExecFns;
use crate::error::{AppError, AppErrorView};
use crate::models::{File, FileResponse, FileResponseView, FileView, file_response};
use crate::text::text_view;
use crate::storage::{key_of, storage_key};
use super::protocol::{Action, ActionView, BlobResponse, BlobResponseView, Event, EventView, database_failure, fail_not_found, fail_out_of_turn, file_not_found, file_views, out_of_turn, response_views};

verus! {

/// The most records a listing asks for and answers with.
pub const RECENT_LIMIT: usize = 100;

/// Whether a character may stand in the value of an HTTP header: a tab, or
/// anything from the space on but the delete character.
pub open spec fn header_char(c: char) -> bool {
    c == '\t' || (c >= ' ' && c != '\u{7f}')
}

/// Whether a text can be the value of an HTTP header.
pub open spec fn header_text(s: Seq<char>) -> bool {
    forall|i: int| 0 <= i < s.len() ==> header_char(#[trigger] s[i])
}

/// Whether `s` can be the value of an HTTP header. Wraps
/// `HeaderValue::from_str` of the `http` crate, as `axum` exports it, which
/// accepts a text exactly when each of its bytes is a tab, or at least 32 and
/// not 127; the bytes of a character beyond ASCII are all above 127.
#[verifier::external_body]
fn is_header_value(s: &str) -> (ok: bool)
    ensures
        ok == header_text(s@),
{
    axum::http::HeaderValue::from_str(s).is_ok()
}

/// How far a request about one file has come.
#[derive(Debug, PartialEq, Eq)]
pub enum FileState {
    /// The request for the file with this identifier has arrived.
    Requested(u128),
    /// Waiting for the lookup of the record.
    AwaitRecord(u128),
    /// Waiting for the bytes of a blob of this record.
    AwaitBlob(File),
    /// Waiting for the record's blob to be removed; the key is that of its
    /// thumbnail, if it has one.
    AwaitBlobRemoval { id: u128, thumbnail_key: Option<String> },
    /// Waiting for the thumbnail to be removed.
    AwaitThumbnailRemoval(u128),
    /// Waiting for the record to be removed.
    AwaitRowRemoval(u128),
    /// The client was answered.
    Done,
}

/// A [`FileState`] by the views of what it holds.
pub enum FileStateView {
    Requested(u128),
    AwaitRecord(u128),
    AwaitBlob(FileView),
    AwaitBlobRemoval { id: u128, thumbnail_key: Option<Seq<char>> },
    AwaitThumbnailRemoval(u128),
    AwaitRowRemoval(u128),
    Done,
}

impl View for FileState {
    type V = FileStateView;

    open spec fn view(&self) -> FileStateView {
        match self {
            FileState::Requested(id) => FileStateView::Requested(*id),
            FileState::AwaitRecord(id) => FileStateView::AwaitRecord(*id),
            FileState::AwaitBlob(file) => FileStateView::AwaitBlob(file@),
            FileState::AwaitBlobRemoval { id, thumbnail_key } => FileStateView::AwaitBlobRemoval {
                id: *id,
                thumbnail_key: text_view(*thumbnail_key),
            },
            FileState::AwaitThumbnailRemoval(id) => FileStateView::AwaitThumbnailRemoval(*id),
            FileState::AwaitRowRemoval(id) => FileStateView::AwaitRowRemoval(*id),
            FileState::Done => FileStateView::Done,
        }
    }
}

/// The end of a request with the answer `action`.
pub open spec fn finish(action: ActionView) -> (FileStateView, ActionView) {
    (FileStateView::Done, action)
}

/// The failure of a request over a blob store that failed, as `message`.
pub open spec fn storage_failure(message: Seq<char>) -> ActionView {
    ActionView::Fail(AppErrorView::InternalServerError(message))
}

/// The key of the blob of the record `file`.
pub open spec fn blob_key_of(file: FileView) -> Seq<char> {
    key_of(file.storage_type, file.file_path)
}

/// The key of the thumbnail of the record `file`, if it has one.
pub open spec fn thumbnail_key_of(file: FileView) -> Option<Seq<char>> {
    match file.thumbnail_path {
        Some(path) => Some(key_of(file.storage_type, path)),
        None => None,
    }
}

/// The `Content-Disposition` that offers a blob under the name `name`.
pub open spec fn attachment_named(name: Seq<char>) -> Seq<char> {
    "attachment; filename=\""@ + name + "\""@
}

/// The blob of the record `file` as it is sent to the client: under the
/// record's media type and as an attachment with its original name, or, where
/// one of these cannot stand in a header, as `application/octet-stream` and
/// as a plain attachment.
pub open spec fn attachment(file: FileView, bytes: Seq<u8>) -> BlobResponseView {
    BlobResponseView {
        content_type: if header_text(file.mime_type) {
            file.mime_type
        } else {
            "application/octet-stream"@
        },
        content_disposition: Some(
            if header_text(attachment_named(file.original_filename)) {
                attachment_named(file.original_filename)
            } else {
                "attachment"@
            },
        ),
        body: bytes,
    }
}

/// A thumbnail as it is sent to the client: a JPEG image.
pub open spec fn thumbnail_image(bytes: Seq<u8>) -> BlobResponseView {
    BlobResponseView { content_type: "image/jpeg"@, content_disposition: None, body: bytes }
}

/// The first step of every request about one file: look its record up.
pub open spec fn lookup_step(id: u128, event: EventView) -> (FileStateView, ActionView) {
    match event {
        EventView::Begin => (FileStateView::AwaitRecord(id), ActionView::FindById(id)),
        _ => finish(out_of_turn()),
    }
}

/// The step of a download: look the record up, fetch its blob under the
/// normalized key, send it as an attachment.
pub open spec fn download_step(state: FileStateView, event: EventView) -> (FileStateView, ActionView) {
    match state {
        FileStateView::Requested(id) => lookup_step(id, event),
        FileStateView::AwaitRecord(_) => match event {
            EventView::Found(Some(file)) => (
                FileStateView::AwaitBlob(file),
                ActionView::Download { key: blob_key_of(file) },
            ),
            EventView::Found(None) => finish(file_not_found()),
            EventView::DatabaseFailed(message) => finish(database_failure(message)),
            _ => finish(out_of_turn()),
        },
        FileStateView::AwaitBlob(file) => match event {
            EventView::Loaded(Ok(bytes)) => finish(ActionView::ReplyBlob(attachment(file, bytes))),
            EventView::Loaded(Err(_)) => finish(storage_failure("Failed to download file"@)),
            _ => finish(out_of_turn()),
        },
        _ => finish(out_of_turn()),
    }
}

/// The step of a thumbnail request: look the record up, require a thumbnail,
/// fetch it under the normalized key, send it as a JPEG image.
pub open spec fn thumbnail_step(state: FileStateView, event: EventView) -> (FileStateView, ActionView) {
    match state {
        FileStateView::Requested(id) => lookup_step(id, event),
        FileStateView::AwaitRecord(_) => match event {
            EventView::Found(Some(file)) => match thumbnail_key_of(file) {
                Some(key) => (FileStateView::AwaitBlob(file), ActionView::Download { key }),
                None => finish(
                    ActionView::Fail(AppErrorView::NotFound("Thumbnail not available"@)),
                ),
            },
            EventView::Found(None) => finish(file_not_found()),
            EventView::DatabaseFailed(message) => finish(database_failure(message)),
            _ => finish(out_of_turn()),
        },
        FileStateView::AwaitBlob(_) => match event {
            EventView::Loaded(Ok(bytes)) => finish(ActionView::ReplyBlob(thumbnail_image(bytes))),
            EventView::Loaded(Err(_)) => finish(storage_failure("Failed to download thumbnail"@)),
            _ => finish(out_of_turn()),
        },
        _ => finish(out_of_turn()),
    }
}

/// The step of a metadata request: look the record up and describe it.
pub open spec fn get_file_step(state: FileStateView, event: EventView) -> (FileStateView, ActionView) {
    match state {
        FileStateView::Requested(id) => lookup_step(id, event),
        FileStateView::AwaitRecord(_) => match event {
            EventView::Found(Some(file)) => finish(ActionView::ReplyFile(file_response(file))),
            EventView::Found(None) => finish(file_not_found()),
            EventView::DatabaseFailed(message) => finish(database_failure(message)),
            _ => finish(out_of_turn()),
        },
        _ => finish(out_of_turn()),
    }
}

/// The step of a delete: look the record up; remove its blob, which must
/// succeed; remove its thumbnail, if it has one, whatever comes of that; only
/// then remove the record.
pub open spec fn delete_step(state: FileStateView, event: EventView) -> (FileStateView, ActionView) {
    match state {
        FileStateView::Requested(id) => lookup_step(id, event),
        FileStateView::AwaitRecord(id) => match event {
            EventView::Found(Some(file)) => (
                FileStateView::AwaitBlobRemoval { id, thumbnail_key: thumbnail_key_of(file) },
                ActionView::Delete { key: blob_key_of(file) },
            ),
            EventView::Found(None) => finish(file_not_found()),
            EventView::DatabaseFailed(message) => finish(database_failure(message)),
            _ => finish(out_of_turn()),
        },
        FileStateView::AwaitBlobRemoval { id, thumbnail_key } => match event {
            EventView::Deleted(Ok(_)) => match thumbnail_key {
                Some(key) => (
                    FileStateView::AwaitThumbnailRemoval(id),
                    ActionView::Delete { key },
                ),
                None => (FileStateView::AwaitRowRemoval(id), ActionView::DeleteById(id)),
            },
            EventView::Deleted(Err(_)) => finish(
                storage_failure("Failed to delete file from storage"@),
            ),
            _ => finish(out_of_turn()),
        },
        FileStateView::AwaitThumbnailRemoval(id) => match event {
            EventView::Deleted(_) => (FileStateView::AwaitRowRemoval(id), ActionView::DeleteById(id)),
            _ => finish(out_of_turn()),
        },
        FileStateView::AwaitRowRemoval(_) => match event {
            EventView::RowDeleted => finish(ActionView::ReplyNoContent),
            EventView::DatabaseFailed(message) => finish(database_failure(message)),
            _ => finish(out_of_turn()),
        },
        _ => finish(out_of_turn()),
    }
}

/// How far a listing has come.
#[derive(Debug, PartialEq, Eq, Structural, Clone, Copy)]
pub enum ListState {
    /// The request has arrived.
    Requested,
    /// Waiting for the records.
    AwaitRows,
    /// The client was answered.
    Done,
}

/// The descriptions of the first [`RECENT_LIMIT`] of `files`, in their order.
pub open spec fn recent_responses(files: Seq<FileView>) -> Seq<FileResponseView> {
    Seq::new(
        if files.len() <= RECENT_LIMIT {
            files.len()
        } else {
            RECENT_LIMIT as nat
        },
        |i: int| file_response(files[i]),
    )
}

/// The step of a listing: ask for the most recent records, at most
/// [`RECENT_LIMIT`], and describe what comes back in the order it came.
pub open spec fn list_step(state: ListState, event: EventView) -> (ListState, ActionView) {
    match state {
        ListState::Requested => match event {
            EventView::Begin => (ListState::AwaitRows, ActionView::ListRecent(RECENT_LIMIT)),
            _ => (ListState::Done, out_of_turn()),
        },
        ListState::AwaitRows => match event {
            EventView::Listed(files) => (
                ListState::Done,
                ActionView::ReplyFiles(recent_responses(files)),
            ),
            EventView::DatabaseFailed(message) => (ListState::Done, database_failure(message)),
            _ => (ListState::Done, out_of_turn()),
        },
        ListState::Done => (ListState::Done, out_of_turn()),
    }
}

/// Ends a request with a failure of the blob store.
fn fail_storage(message: &str) -> (next: (FileState, Action))
    ensures
        (next.0@, next.1@) == finish(storage_failure(message@)),
{
    (FileState::Done, Action::Fail(AppError::InternalServerError(String::from_str(message))))
}

/// Ends a request with a failure of the metadata store.
fn fail_database(message: String) -> (next: (FileState, Action))
    ensures
        (next.0@, next.1@) == finish(database_failure(message@)),
{
    (FileState::Done, Action::Fail(AppError::DatabaseError(message)))
}

/// Takes the first step of a request about the file `id`.
fn look_up(id: u128, event: Event) -> (next: (FileState, Action))
    ensures
        (next.0@, next.1@) == lookup_step(id, event@),
{
    match event {
        Event::Begin => (FileState::AwaitRecord(id), Action::FindById(id)),
        _ => (FileState::Done, fail_out_of_turn()),
    }
}

/// The key of the blob of `file`.
fn blob_key(file: &File) -> (key: String)
    ensures
        key@ == blob_key_of(file@),
{
    storage_key(file.storage_type.as_str(), file.file_path.as_str())
}

/// The key of the thumbnail of `file`, if it has one.
fn thumbnail_key(file: &File) -> (key: Option<String>)
    ensures
        text_view(key) == thumbnail_key_of(file@),
{
    match &file.thumbnail_path {
        Some(path) => Some(storage_key(file.storage_type.as_str(), path.as_str())),
        None => None,
    }
}

/// Packs the blob of `file` for the client.
fn attachment_of(file: File, body: Vec<u8>) -> (response: BlobResponse)
    ensures
        response@ == attachment(file@, body@),
{
    let named = String::from_str("attachment; filename=\"").concat(
        file.original_filename.as_str(),
    ).concat("\"");
    let content_disposition = if is_header_value(named.as_str()) {
        named
    } else {
        String::from_str("attachment")
    };
    let content_type = if is_header_value(file.mime_type.as_str()) {
        file.mime_type
    } else {
        String::from_str("application/octet-stream")
    };
    BlobResponse { content_type, content_disposition: Some(content_disposition), body }
}

/// Takes one step of a download of a file's blob.
pub fn download_file(state: FileState, event: Event) -> (next: (FileState, Action))
    ensures
        (next.0@, next.1@) == download_step(state@, event@),
{
    match state {
        FileState::Requested(id) => look_up(id, event),
        FileState::AwaitRecord(_) => match event {
            Event::Found(Some(file)) => {
                let key = blob_key(&file);
                (FileState::AwaitBlob(file), Action::Download { key })
            },
            Event::Found(None) => (FileState::Done, fail_not_found()),
            Event::DatabaseFailed(message) => fail_database(message),
            _ => (FileState::Done, fail_out_of_turn()),
        },
        FileState::AwaitBlob(file) => match event {
            Event::Loaded(Ok(bytes)) => (
                FileState::Done,
                Action::ReplyBlob(attachment_of(file, bytes)),
            ),
            Event::Loaded(Err(_)) => fail_storage("Failed to download file"),
            _ => (FileState::Done, fail_out_of_turn()),
        },
        _ => (FileState::Done, fail_out_of_turn()),
    }
}

/// Takes one step of a request for a file's thumbnail.
pub fn get_thummbnail(state: FileState, event: Event) -> (next: (FileState, Action))
    ensures
        (next.0@, next.1@) == thumbnail_step(state@, event@),
{
    match state {
        FileState::Requested(id) => look_up(id, event),
        FileState::AwaitRecord(_) => match event {
            Event::Found(Some(file)) => match thumbnail_key(&file) {
                Some(key) => (FileState::AwaitBlob(file), Action::Download { key }),
                None => (
                    FileState::Done,
                    Action::Fail(AppError::NotFound(String::from_str("Thumbnail not available"))),
                ),
            },
            Event::Found(None) => (FileState::Done, fail_not_found()),
            Event::DatabaseFailed(message) => fail_database(message),
            _ => (FileState::Done, fail_out_of_turn()),
        },
        FileState::AwaitBlob(_) => match event {
            Event::Loaded(Ok(body)) => {
                let response = BlobResponse {
                    content_type: String::from_str("image/jpeg"),
                    content_disposition: None,
                    body,
                };
                (FileState::Done, Action::ReplyBlob(response))
            },
            Event::Loaded(Err(_)) => fail_storage("Failed to download thumbnail"),
            _ => (FileState::Done, fail_out_of_turn()),
        },
        _ => (FileState::Done, fail_out_of_turn()),
    }
}

/// Takes one step of a request for a file's metadata.
pub fn get_file(state: FileState, event: Event) -> (next: (FileState, Action))
    ensures
        (next.0@, next.1@) == get_file_step(state@, event@),
{
    match state {
        FileState::Requested(id) => look_up(id, event),
        FileState::AwaitRecord(_) => match event {
            Event::Found(Some(file)) => (
                FileState::Done,
                Action::ReplyFile(FileResponse::of(&file)),
            ),
            Event::Found(None) => (FileState::Done, fail_not_found()),
            Event::DatabaseFailed(message) => fail_database(message),
            _ => (FileState::Done, fail_out_of_turn()),
        },
        _ => (FileState::Done, fail_out_of_turn()),
    }
}

/// Takes one step of the deletion of a file.
pub fn delete_file(state: FileState, event: Event) -> (next: (FileState, Action))
    ensures
        (next.0@, next.1@) == delete_step(state@, event@),
{
    match state {
        FileState::Requested(id) => look_up(id, event),
        FileState::AwaitRecord(id) => match event {
            Event::Found(Some(file)) => {
                let key = blob_key(&file);
                let thumbnail_key = thumbnail_key(&file);
                (FileState::AwaitBlobRemoval { id, thumbnail_key }, Action::Delete { key })
            },
            Event::Found(None) => (FileState::Done, fail_not_found()),
            Event::DatabaseFailed(message) => fail_database(message),
            _ => (FileState::Done, fail_out_of_turn()),
        },
        FileState::AwaitBlobRemoval { id, thumbnail_key } => match event {
            Event::Deleted(Ok(_)) => match thumbnail_key {
                Some(key) => (FileState::AwaitThumbnailRemoval(id), Action::Delete { key }),
                None => (FileState::AwaitRowRemoval(id), Action::DeleteById(id)),
            },
            Event::Deleted(Err(_)) => fail_storage("Failed to delete file from storage"),
            _ => (FileState::Done, fail_out_of_turn()),
        },
        FileState::AwaitThumbnailRemoval(id) => match event {
            Event::Deleted(_) => (FileState::AwaitRowRemoval(id), Action::DeleteById(id)),
            _ => (FileState::Done, fail_out_of_turn()),
        },
        FileState::AwaitRowRemoval(_) => match event {
            Event::RowDeleted => (FileState::Done, Action::ReplyNoContent),
            Event::DatabaseFailed(message) => fail_database(message),
            _ => (FileState::Done, fail_out_of_turn()),
        },
        _ => (FileState::Done, fail_out_of_turn()),
    }
}

/// Describes the first [`RECENT_LIMIT`] of `files`.
fn describe_recent(files: &Vec<File>) -> (list: Vec<FileResponse>)
    ensures
        response_views(list@) == recent_responses(file_views(files@)),
{
    let count: usize = if files.len() <= RECENT_LIMIT {
        files.len()
    } else {
        RECENT_LIMIT
    };
    let mut list: Vec<FileResponse> = Vec::new();
    let mut i: usize = 0;
    while i < count
        invariant
            i <= count <= files@.len(),
            list@.len() == i,
            forall|j: int| 0 <= j < i ==> (#[trigger] list@[j])@ == file_response(files@[j]@),
        decreases count - i,
    {
        list.push(FileResponse::of(&files[i]));
        i += 1;
    }
    assert(response_views(list@) =~= recent_responses(file_views(files@)));
    list
}

/// Takes one step of a listing of the most recent files.
pub fn list_files(state: ListState, event: Event) -> (next: (ListState, Action))
    ensures
        next.0 == list_step(state, event@).0,
        next.1@ == list_step(state, event@).1,
{
    match state {
        ListState::Requested => match event {
            Event::Begin => (ListState::AwaitRows, Action::ListRecent(RECENT_LIMIT)),
            _ => (ListState::Done, fail_out_of_turn()),
        },
        ListState::AwaitRows => match event {
            Event::Listed(files) => (
                ListState::Done,
                Action::ReplyFiles(describe_recent(&files)),
            ),
            Event::DatabaseFailed(message) => (
                ListState::Done,
                Action::Fail(AppError::DatabaseError(message)),
            ),
            _ => (ListState::Done, fail_out_of_turn()),
        },
        ListState::Done => (ListState::Done, fail_out_of_turn()),
    }
}

/// A listing never answers with more than [`RECENT_LIMIT`] descriptions, and
/// describes the records in the order the store gave them.
pub proof fn lemma_list_is_bounded(files: Seq<FileView>)
    ensures
        recent_responses(files).len() <= RECENT_LIMIT,
        recent_responses(files).len() <= files.len(),
        forall|i: int|
            0 <= i < recent_responses(files).len() ==> (#[trigger] recent_responses(files)[i]).id
                == files[i].id,
{
}

/// The delete cascade: the record is removed only in answer to a blob removal
/// that succeeded or to a finished thumbnail removal, and a failed removal of
/// the blob ends the request with status 500 and the record in place.
pub proof fn lemma_delete_order(state: FileStateView, event: EventView)
    ensures
        delete_step(state, event).1 is DeleteById ==> (state is AwaitBlobRemoval && (event
            matches EventView::Deleted(r) && r is Ok)) || state is AwaitThumbnailRemoval,
        (state is AwaitBlobRemoval && (event matches EventView::Deleted(r) && r is Err))
            ==> delete_step(state, event).0 is Done && delete_step(
            state,
            event,
        ).1.failure_status() == Some(500u16),
{
}

/// A blob comes back as it is: a download answers with exactly the bytes the
/// store gave, and, where the record's media type can stand in a header,
/// under that media type.
pub proof fn lemma_download_is_faithful(file: FileView, bytes: Seq<u8>)
    ensures
        attachment(file, bytes).body == bytes,
        header_text(file.mime_type) ==> attachment(file, bytes).content_type == file.mime_type,
        thumbnail_image(bytes).body == bytes,
{
}

} // verus!
