//! What a request handler is told and what it asks for. A handler is a step
//! function: it takes its state and the outcome of the last thing it asked
//! for, and gives its next state and the next thing to do. Whoever drives it
//! performs the action and comes back with the event.

use vstd::prelude::*;
use vstd::string::StringExecFns;
use crate::error::{AppError, AppErrorView};
use crate::models::{File, FileResponse, FileResponseView, FileView, UploadResponse, UploadResponseView};
use crate::text::{bytes_view, text_view};
use crate::storage::{StorageError, StorageErrorView};

verus! {

/// The outcome of the last action.
#[derive(Debug, PartialEq, Eq)]
pub enum Event {
    /// Nothing was asked yet: the request has just arrived.
    Begin,
    /// The next field of the multipart form, by what its header says.
    Field { name: Option<String>, file_name: Option<String>, content_type: Option<String> },
    /// The form has no more fields.
    EndOfFields,
    /// The form could not be parsed, with the parser's message.
    MultipartFailed(String),
    /// The bytes of the current field.
    Body(Vec<u8>),
    /// The bytes of the current field could not be read, with the reason.
    BodyFailed(String),
    /// The text of the current field.
    Text(String),
    /// The current field could not be read as text.
    TextFailed,
    /// The record that a lookup found, if any.
    Found(Option<File>),
    /// The records that a listing gave.
    Listed(Vec<File>),
    /// The record as the metadata store persisted it.
    Inserted(File),
    /// The metadata store removed the record.
    RowDeleted,
    /// The metadata store failed, with its description.
    DatabaseFailed(String),
    /// How an upload to the blob store ended: the blob's locator, or an error.
    Stored(Result<String, StorageError>),
    /// How a download from the blob store ended.
    Loaded(Result<Vec<u8>, StorageError>),
    /// How a delete on the blob store ended.
    Deleted(Result<(), StorageError>),
    /// The rendered thumbnail, or nothing where rendering failed.
    Rendered(Option<Vec<u8>>),
}

/// An [`Event`] by the views of what it carries.
pub enum EventView {
    Begin,
    Field { name: Option<Seq<char>>, file_name: Option<Seq<char>>, content_type: Option<Seq<char>> },
    EndOfFields,
    MultipartFailed(Seq<char>),
    Body(Seq<u8>),
    BodyFailed(Seq<char>),
    Text(Seq<char>),
    TextFailed,
    Found(Option<FileView>),
    Listed(Seq<FileView>),
    Inserted(FileView),
    RowDeleted,
    DatabaseFailed(Seq<char>),
    Stored(Result<Seq<char>, StorageErrorView>),
    Loaded(Result<Seq<u8>, StorageErrorView>),
    Deleted(Result<(), StorageErrorView>),
    Rendered(Option<Seq<u8>>),
}

/// The views of a list of records.
pub open spec fn file_views(list: Seq<File>) -> Seq<FileView> {
    Seq::new(list.len(), |i: int| list[i]@)
}

impl View for Event {
    type V = EventView;

    open spec fn view(&self) -> EventView {
        match self {
            Event::Begin => EventView::Begin,
            Event::Field { name, file_name, content_type } => EventView::Field {
                name: text_view(*name),
                file_name: text_view(*file_name),
                content_type: text_view(*content_type),
            },
            Event::EndOfFields => EventView::EndOfFields,
            Event::MultipartFailed(m) => EventView::MultipartFailed(m@),
            Event::Body(data) => EventView::Body(data@),
            Event::BodyFailed(m) => EventView::BodyFailed(m@),
            Event::Text(text) => EventView::Text(text@),
            Event::TextFailed => EventView::TextFailed,
            Event::Found(found) => EventView::Found(
                match found {
                    Some(file) => Some(file@),
                    None => None,
                },
            ),
            Event::Listed(files) => EventView::Listed(file_views(files@)),
            Event::Inserted(file) => EventView::Inserted(file@),
            Event::RowDeleted => EventView::RowDeleted,
            Event::DatabaseFailed(m) => EventView::DatabaseFailed(m@),
            Event::Stored(stored) => EventView::Stored(
                match stored {
                    Ok(locator) => Ok(locator@),
                    Err(e) => Err(e@),
                },
            ),
            Event::Loaded(loaded) => EventView::Loaded(
                match loaded {
                    Ok(bytes) => Ok(bytes@),
                    Err(e) => Err(e@),
                },
            ),
            Event::Deleted(deleted) => EventView::Deleted(
                match deleted {
                    Ok(_) => Ok(()),
                    Err(e) => Err(e@),
                },
            ),
            Event::Rendered(rendered) => EventView::Rendered(bytes_view(*rendered)),
        }
    }
}

/// A blob sent to the client, with the headers that describe it.
#[derive(Debug, PartialEq, Eq)]
pub struct BlobResponse {
    pub content_type: String,
    pub content_disposition: Option<String>,
    pub body: Vec<u8>,
}

/// A [`BlobResponse`] with its texts as sequences of characters.
pub struct BlobResponseView {
    pub content_type: Seq<char>,
    pub content_disposition: Option<Seq<char>>,
    pub body: Seq<u8>,
}

impl View for BlobResponse {
    type V = BlobResponseView;

    open spec fn view(&self) -> BlobResponseView {
        BlobResponseView {
            content_type: self.content_type@,
            content_disposition: text_view(self.content_disposition),
            body: self.body@,
        }
    }
}

/// The next thing to do for a request.
#[derive(Debug, PartialEq, Eq)]
pub enum Action {
    /// Read the header of the next field of the multipart form.
    NextField,
    /// Read the current field's bytes.
    ReadBody,
    /// Read the current field as text.
    ReadText,
    /// Look up a record by checksum.
    FindByChecksum(String),
    /// Look up a record by identifier.
    FindById(u128),
    /// List the most recently uploaded records, at most this many.
    ListRecent(usize),
    /// Persist a record; the store assigns its timestamps.
    Insert(File),
    /// Remove the record with this identifier.
    DeleteById(u128),
    /// Write a blob under a key.
    Upload { key: String, data: Vec<u8> },
    /// Fetch the blob stored under a key.
    Download { key: String },
    /// Remove the blob stored under a key.
    Delete { key: String },
    /// Render a thumbnail of an image away from the request's own thread.
    RenderThumbnail { data: Vec<u8>, base_name: String },
    /// Answer an upload.
    ReplyUpload(UploadResponse),
    /// Answer with one record's description.
    ReplyFile(FileResponse),
    /// Answer with a list of descriptions.
    ReplyFiles(Vec<FileResponse>),
    /// Answer with a blob.
    ReplyBlob(BlobResponse),
    /// Answer that the request is done and has no body.
    ReplyNoContent,
    /// Answer with an error.
    Fail(AppError),
}

/// An [`Action`] by the views of what it carries.
pub enum ActionView {
    NextField,
    ReadBody,
    ReadText,
    FindByChecksum(Seq<char>),
    FindById(u128),
    ListRecent(usize),
    Insert(FileView),
    DeleteById(u128),
    Upload { key: Seq<char>, data: Seq<u8> },
    Download { key: Seq<char> },
    Delete { key: Seq<char> },
    RenderThumbnail { data: Seq<u8>, base_name: Seq<char> },
    ReplyUpload(UploadResponseView),
    ReplyFile(FileResponseView),
    ReplyFiles(Seq<FileResponseView>),
    ReplyBlob(BlobResponseView),
    ReplyNoContent,
    Fail(AppErrorView),
}

/// The views of a list of descriptions.
pub open spec fn response_views(list: Seq<FileResponse>) -> Seq<FileResponseView> {
    Seq::new(list.len(), |i: int| list[i]@)
}

impl View for Action {
    type V = ActionView;

    open spec fn view(&self) -> ActionView {
        match self {
            Action::NextField => ActionView::NextField,
            Action::ReadBody => ActionView::ReadBody,
            Action::ReadText => ActionView::ReadText,
            Action::FindByChecksum(c) => ActionView::FindByChecksum(c@),
            Action::FindById(id) => ActionView::FindById(*id),
            Action::ListRecent(n) => ActionView::ListRecent(*n),
            Action::Insert(file) => ActionView::Insert(file@),
            Action::DeleteById(id) => ActionView::DeleteById(*id),
            Action::Upload { key, data } => ActionView::Upload { key: key@, data: data@ },
            Action::Download { key } => ActionView::Download { key: key@ },
            Action::Delete { key } => ActionView::Delete { key: key@ },
            Action::RenderThumbnail { data, base_name } => ActionView::RenderThumbnail {
                data: data@,
                base_name: base_name@,
            },
            Action::ReplyUpload(r) => ActionView::ReplyUpload(r@),
            Action::ReplyFile(r) => ActionView::ReplyFile(r@),
            Action::ReplyFiles(list) => ActionView::ReplyFiles(response_views(list@)),
            Action::ReplyBlob(r) => ActionView::ReplyBlob(r@),
            Action::ReplyNoContent => ActionView::ReplyNoContent,
            Action::Fail(e) => ActionView::Fail(e@),
        }
    }
}

impl ActionView {
    /// The action ends the request: it answers the client.
    pub open spec fn is_final(self) -> bool {
        self is ReplyUpload || self is ReplyFile || self is ReplyFiles || self is ReplyBlob
            || self is ReplyNoContent || self is Fail
    }

    /// The HTTP status with which the action fails the request, if it does.
    pub open spec fn failure_status(self) -> Option<u16> {
        match self {
            ActionView::Fail(e) => Some(e.status()),
            _ => None,
        }
    }
}

/// The failure of a handler that is told something it did not ask for.
pub open spec fn out_of_turn() -> ActionView {
    ActionView::Fail(AppErrorView::InternalServerError("Unexpected event"@))
}

/// The failure for a metadata store that failed with `message`.
pub open spec fn database_failure(message: Seq<char>) -> ActionView {
    ActionView::Fail(AppErrorView::DatabaseError(message))
}

/// The failure for a record that is not there.
pub open spec fn file_not_found() -> ActionView {
    ActionView::Fail(AppErrorView::NotFound("File not found"@))
}

/// Fails a request that was told something it did not ask for.
pub fn fail_out_of_turn() -> (action: Action)
    ensures
        action@ == out_of_turn(),
{
    Action::Fail(AppError::InternalServerError(String::from_str("Unexpected event")))
}

/// Fails a request over a record that is not there.
pub fn fail_not_found() -> (action: Action)
    ensures
        action@ == file_not_found(),
{
    Action::Fail(AppError::NotFound(String::from_str("File not found")))
}

} // verus!
