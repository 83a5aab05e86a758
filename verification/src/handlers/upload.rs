//! The ingest pipeline: from the fields of a multipart form to a stored blob,
//! an optional thumbnail and a committed record.

use vstd::prelude::*;
use vstd::string::StringExecFns;
use crate::config::{Config, ConfigView};
use crate::error::{AppError, AppErrorView};
use crate::models::{File, FileView, UploadResponse, UploadResponseView, file_url, upload_response};
use crate::storage::storage_type_of;
use crate::text::{bytes_view, decimal, same_text, text_view, u64_to_string};
use crate::utils::{calculate_sha256, checksum_of, extension_of, get_file_extension, hyphenated, id_text, is_file_mime_type, is_image_mime, is_random_id, new_file_id};
use super::protocol::{Action, ActionView, Event, EventView, database_failure, fail_out_of_turn, out_of_turn};

verus! {

/// What has been read of the multipart form so far.
#[derive(Debug, PartialEq, Eq)]
pub struct UploadForm {
    /// The bytes of the last `file` field read.
    pub file_data: Option<Vec<u8>>,
    /// The file name that the last `file` field announced.
    pub original_filename: Option<String>,
    /// The media type that the last `file` field announced.
    pub mime_type: Option<String>,
    /// The last non-empty text of a `filename` field.
    pub custom_filename: Option<String>,
}

/// An [`UploadForm`] with its texts and bytes as sequences.
pub struct UploadFormView {
    pub file_data: Option<Seq<u8>>,
    pub original_filename: Option<Seq<char>>,
    pub mime_type: Option<Seq<char>>,
    pub custom_filename: Option<Seq<char>>,
}

impl View for UploadForm {
    type V = UploadFormView;

    open spec fn view(&self) -> UploadFormView {
        UploadFormView {
            file_data: bytes_view(self.file_data),
            original_filename: text_view(self.original_filename),
            mime_type: text_view(self.mime_type),
            custom_filename: text_view(self.custom_filename),
        }
    }
}

/// An upload that passed validation and was given its identity.
#[derive(Debug, PartialEq, Eq)]
pub struct Candidate {
    pub file_id: u128,
    /// The name the service chose for the file.
    pub filename: String,
    pub original_filename: String,
    pub mime_type: Option<String>,
    /// The payload's length in bytes.
    pub file_size: i64,
    /// The payload's fingerprint.
    pub checksum: String,
    pub data: Vec<u8>,
}

/// A [`Candidate`] with its texts and bytes as sequences.
pub struct CandidateView {
    pub file_id: u128,
    pub filename: Seq<char>,
    pub original_filename: Seq<char>,
    pub mime_type: Option<Seq<char>>,
    pub file_size: i64,
    pub checksum: Seq<char>,
    pub data: Seq<u8>,
}

impl View for Candidate {
    type V = CandidateView;

    open spec fn view(&self) -> CandidateView {
        CandidateView {
            file_id: self.file_id,
            filename: self.filename@,
            original_filename: self.original_filename@,
            mime_type: text_view(self.mime_type),
            file_size: self.file_size,
            checksum: self.checksum@,
            data: self.data@,
        }
    }
}

/// How far an upload has come.
#[derive(Debug, PartialEq, Eq)]
pub enum UploadState {
    /// The request has arrived.
    Start,
    /// Waiting for the next field's header.
    AwaitField(UploadForm),
    /// Waiting for the bytes of a `file` field.
    AwaitBody(UploadForm),
    /// Waiting for the text of a `filename` field.
    AwaitText(UploadForm),
    /// Waiting for the lookup by checksum.
    AwaitProbe(Candidate),
    /// Waiting for the blob to be written.
    AwaitBlob(Candidate),
    /// Waiting for the thumbnail to be rendered; the text is the blob's locator.
    AwaitRender(Candidate, String),
    /// Waiting for the thumbnail to be written; the text is the blob's locator.
    AwaitThumbnail(Candidate, String),
    /// Waiting for the record to be persisted, under this identifier.
    AwaitInsert(u128),
    /// The client was answered.
    Done,
}

/// An [`UploadState`] by the views of what it holds.
pub enum UploadStateView {
    Start,
    AwaitField(UploadFormView),
    AwaitBody(UploadFormView),
    AwaitText(UploadFormView),
    AwaitProbe(CandidateView),
    AwaitBlob(CandidateView),
    AwaitRender(CandidateView, Seq<char>),
    AwaitThumbnail(CandidateView, Seq<char>),
    AwaitInsert(u128),
    Done,
}

impl View for UploadState {
    type V = UploadStateView;

    open spec fn view(&self) -> UploadStateView {
        match self {
            UploadState::Start => UploadStateView::Start,
            UploadState::AwaitField(f) => UploadStateView::AwaitField(f@),
            UploadState::AwaitBody(f) => UploadStateView::AwaitBody(f@),
            UploadState::AwaitText(f) => UploadStateView::AwaitText(f@),
            UploadState::AwaitProbe(c) => UploadStateView::AwaitProbe(c@),
            UploadState::AwaitBlob(c) => UploadStateView::AwaitBlob(c@),
            UploadState::AwaitRender(c, l) => UploadStateView::AwaitRender(c@, l@),
            UploadState::AwaitThumbnail(c, l) => UploadStateView::AwaitThumbnail(c@, l@),
            UploadState::AwaitInsert(id) => UploadStateView::AwaitInsert(*id),
            UploadState::Done => UploadStateView::Done,
        }
    }
}

/// A form of which nothing was read yet.
pub open spec fn empty_form() -> UploadFormView {
    UploadFormView {
        file_data: None,
        original_filename: None,
        mime_type: None,
        custom_filename: None,
    }
}

/// The message for a payload of `size` bytes under a limit of `max` bytes.
pub open spec fn too_large_message(size: nat, max: u64) -> Seq<char> {
    "File size "@ + decimal(size) + " exceeds maximum limit of "@ + decimal(max as nat)
        + " bytes"@
}

/// The message for an extension that is not on the allowlist.
pub open spec fn not_allowed_message(ext: Seq<char>) -> Seq<char> {
    "File extension ."@ + ext + " is not allowed"@
}

/// Why a form is rejected, if it is: in this order, a missing file or file
/// name, a payload above the limit, a name without extension, an extension
/// that is not allowed.
pub open spec fn validation_error(config: ConfigView, form: UploadFormView) -> Option<AppErrorView> {
    if form.file_data.is_none() || form.original_filename.is_none() {
        Some(AppErrorView::BadRequest("No file provided"@))
    } else if form.file_data.unwrap().len() > config.max_file_size {
        Some(
            AppErrorView::PayloadTooLarge(
                too_large_message(form.file_data.unwrap().len(), config.max_file_size),
            ),
        )
    } else {
        match extension_of(form.original_filename.unwrap()) {
            None => Some(AppErrorView::BadRequest("Invalid file extension"@)),
            Some(ext) => if config.allows(ext) {
                None
            } else {
                Some(AppErrorView::UnSupportedMediaType(not_allowed_message(ext)))
            },
        }
    }
}

/// The name under which a file is stored: its identifier, then `_` and the
/// client's custom name where there is one, else `.` and the extension.
pub open spec fn stored_name(id: u128, custom: Option<Seq<char>>, ext: Seq<char>) -> Seq<char> {
    match custom {
        Some(name) => hyphenated(id) + "_"@ + name,
        None => hyphenated(id) + "."@ + ext,
    }
}

/// The key of the blob of a file stored as `filename`.
pub open spec fn blob_key(filename: Seq<char>) -> Seq<char> {
    "files/"@ + filename
}

/// The key of the thumbnail of the file `id`.
pub open spec fn thumbnail_key(id: u128) -> Seq<char> {
    "thumbnails/"@ + hyphenated(id) + ".jpg"@
}

/// The candidate that an accepted form becomes under the identifier `id`.
pub open spec fn candidate_of(form: UploadFormView, id: u128) -> CandidateView {
    let data = form.file_data.unwrap();
    let original = form.original_filename.unwrap();
    CandidateView {
        file_id: id,
        filename: stored_name(id, form.custom_filename, extension_of(original).unwrap()),
        original_filename: original,
        mime_type: form.mime_type,
        file_size: data.len() as i64,
        checksum: checksum_of(data),
        data,
    }
}

/// The media type recorded for a candidate: the one received, or
/// `application/octet-stream` where none was.
pub open spec fn recorded_mime(mime_type: Option<Seq<char>>) -> Seq<char> {
    match mime_type {
        Some(m) => m,
        None => "application/octet-stream"@,
    }
}

/// Whether a thumbnail is attempted for a candidate: its media type was
/// received and names an image.
pub open spec fn wants_thumbnail(mime_type: Option<Seq<char>>) -> bool {
    match mime_type {
        Some(m) => is_image_mime(m),
        None => false,
    }
}

/// The record committed for a candidate whose blob has the locator
/// `file_path` and whose thumbnail, if any, has the locator `thumbnail_path`.
pub open spec fn record_of(
    config: ConfigView,
    c: CandidateView,
    file_path: Seq<char>,
    thumbnail_path: Option<Seq<char>>,
) -> FileView {
    FileView {
        id: c.file_id,
        filename: c.filename,
        original_filename: c.original_filename,
        file_path,
        file_size: c.file_size,
        mime_type: recorded_mime(c.mime_type),
        storage_type: storage_type_of(config.use_s3),
        checksum: Some(c.checksum),
        thumbnail_path,
        uploaded_at: None,
        updated_at: None,
    }
}

/// The answer once the store has persisted `row` for the upload `id`.
pub open spec fn committed_response(id: u128, row: FileView) -> UploadResponseView {
    UploadResponseView {
        id,
        filename: row.filename,
        url: file_url(id),
        size: row.file_size,
        mime_type: row.mime_type,
    }
}

/// The step of an upload that waits for a field's header.
pub open spec fn field_step(config: ConfigView, form: UploadFormView, event: EventView, id: u128) -> (
    UploadStateView,
    ActionView,
) {
    match event {
        EventView::Field { name, file_name, content_type } => if name == Some("file"@) {
            (
                UploadStateView::AwaitBody(
                    UploadFormView {
                        original_filename: file_name,
                        mime_type: content_type,
                        ..form
                    },
                ),
                ActionView::ReadBody,
            )
        } else if name == Some("filename"@) {
            (UploadStateView::AwaitText(form), ActionView::ReadText)
        } else {
            (UploadStateView::AwaitField(form), ActionView::NextField)
        },
        EventView::EndOfFields => match validation_error(config, form) {
            Some(e) => (UploadStateView::Done, ActionView::Fail(e)),
            None => (
                UploadStateView::AwaitProbe(candidate_of(form, id)),
                ActionView::FindByChecksum(candidate_of(form, id).checksum),
            ),
        },
        EventView::MultipartFailed(message) => (
            UploadStateView::Done,
            ActionView::Fail(
                AppErrorView::MultipartError("Failed to parse multipart form: "@ + message),
            ),
        ),
        _ => (UploadStateView::Done, out_of_turn()),
    }
}

/// The step of an upload whose blob has just been written at `file_path`, or
/// whose thumbnail was given up: commit the record.
pub open spec fn commit(
    config: ConfigView,
    c: CandidateView,
    file_path: Seq<char>,
    thumbnail_path: Option<Seq<char>>,
) -> (UploadStateView, ActionView) {
    (
        UploadStateView::AwaitInsert(c.file_id),
        ActionView::Insert(record_of(config, c, file_path, thumbnail_path)),
    )
}

/// The step of an upload from `state` on `event`, where `id` is the
/// identifier minted if this step mints one.
///
/// Fields are read until the form ends; the form is validated and given an
/// identity; a record with the same checksum answers the request at once;
/// else the blob is written, a thumbnail is attempted for images and never
/// fails the upload, and the record is committed. An event that the state
/// does not wait for fails the request.
pub open spec fn upload_step(config: ConfigView, state: UploadStateView, event: EventView, id: u128) -> (
    UploadStateView,
    ActionView,
) {
    match state {
        UploadStateView::Start => match event {
            EventView::Begin => (UploadStateView::AwaitField(empty_form()), ActionView::NextField),
            _ => (UploadStateView::Done, out_of_turn()),
        },
        UploadStateView::AwaitField(form) => field_step(config, form, event, id),
        UploadStateView::AwaitBody(form) => match event {
            EventView::Body(data) => (
                UploadStateView::AwaitField(UploadFormView { file_data: Some(data), ..form }),
                ActionView::NextField,
            ),
            EventView::BodyFailed(message) => (
                UploadStateView::Done,
                ActionView::Fail(
                    AppErrorView::FileProcessingError("Failed to read the file: "@ + message),
                ),
            ),
            _ => (UploadStateView::Done, out_of_turn()),
        },
        UploadStateView::AwaitText(form) => match event {
            EventView::Text(text) => if text.len() > 0 {
                (
                    UploadStateView::AwaitField(
                        UploadFormView { custom_filename: Some(text), ..form },
                    ),
                    ActionView::NextField,
                )
            } else {
                (UploadStateView::AwaitField(form), ActionView::NextField)
            },
            EventView::TextFailed => (UploadStateView::AwaitField(form), ActionView::NextField),
            _ => (UploadStateView::Done, out_of_turn()),
        },
        UploadStateView::AwaitProbe(c) => match event {
            EventView::Found(Some(existing)) => (
                UploadStateView::Done,
                ActionView::ReplyUpload(upload_response(existing)),
            ),
            EventView::Found(None) => (
                UploadStateView::AwaitBlob(c),
                ActionView::Upload { key: blob_key(c.filename), data: c.data },
            ),
            EventView::DatabaseFailed(message) => (UploadStateView::Done, database_failure(message)),
            _ => (UploadStateView::Done, out_of_turn()),
        },
        UploadStateView::AwaitBlob(c) => match event {
            EventView::Stored(Ok(locator)) => if wants_thumbnail(c.mime_type) {
                (
                    UploadStateView::AwaitRender(c, locator),
                    ActionView::RenderThumbnail { data: c.data, base_name: hyphenated(c.file_id) },
                )
            } else {
                commit(config, c, locator, None)
            },
            EventView::Stored(Err(_)) => (
                UploadStateView::Done,
                ActionView::Fail(AppErrorView::InternalServerError("Failed to upload file"@)),
            ),
            _ => (UploadStateView::Done, out_of_turn()),
        },
        UploadStateView::AwaitRender(c, file_path) => match event {
            EventView::Rendered(Some(jpeg)) => (
                UploadStateView::AwaitThumbnail(c, file_path),
                ActionView::Upload { key: thumbnail_key(c.file_id), data: jpeg },
            ),
            EventView::Rendered(None) => commit(config, c, file_path, None),
            _ => (UploadStateView::Done, out_of_turn()),
        },
        UploadStateView::AwaitThumbnail(c, file_path) => match event {
            EventView::Stored(Ok(locator)) => commit(config, c, file_path, Some(locator)),
            EventView::Stored(Err(_)) => commit(config, c, file_path, None),
            _ => (UploadStateView::Done, out_of_turn()),
        },
        UploadStateView::AwaitInsert(file_id) => match event {
            EventView::Inserted(row) => (
                UploadStateView::Done,
                ActionView::ReplyUpload(committed_response(file_id, row)),
            ),
            EventView::DatabaseFailed(message) => (UploadStateView::Done, database_failure(message)),
            _ => (UploadStateView::Done, out_of_turn()),
        },
        UploadStateView::Done => (UploadStateView::Done, out_of_turn()),
    }
}

/// Whether the step from `state` on `event` mints an identifier: it does when
/// the form ends.
pub open spec fn mints_id(state: UploadStateView, event: EventView) -> bool {
    state is AwaitField && event is EndOfFields
}

impl UploadForm {
    /// A form of which nothing was read yet.
    pub fn new() -> (form: UploadForm)
        ensures
            form@ == empty_form(),
    {
        UploadForm { file_data: None, original_filename: None, mime_type: None, custom_filename: None }
    }
}

/// Builds the message for a payload above the limit.
fn too_large(size: u64, max: u64) -> (message: String)
    ensures
        message@ == too_large_message(size as nat, max),
{
    let size = u64_to_string(size);
    let max = u64_to_string(max);
    String::from_str("File size ").concat(size.as_str()).concat(" exceeds maximum limit of ").concat(
        max.as_str(),
    ).concat(" bytes")
}

/// Validates the form read from a request and gives the upload its identity
/// `id`: the stored name, the size and the fingerprint of the payload.
pub fn accept(config: &Config, form: UploadForm, id: u128) -> (r: Result<Candidate, AppError>)
    requires
        config@.valid(),
    ensures
        match r {
            Ok(c) => validation_error(config@, form@).is_none() && c@ == candidate_of(form@, id),
            Err(e) => validation_error(config@, form@) == Some(e@),
        },
{
    let data = match form.file_data {
        Some(data) => data,
        None => { return Err(AppError::BadRequest(String::from_str("No file provided"))); },
    };
    let original_filename = match form.original_filename {
        Some(name) => name,
        None => { return Err(AppError::BadRequest(String::from_str("No file provided"))); },
    };
    let size: usize = data.len();
    if size as u64 > config.max_file_size {
        return Err(AppError::PayloadTooLarge(too_large(size as u64, config.max_file_size)));
    }
    let ext = match get_file_extension(original_filename.as_str()) {
        Some(ext) => ext,
        None => { return Err(AppError::BadRequest(String::from_str("Invalid file extension"))); },
    };
    if !config.allows_extension(ext.as_str()) {
        let message = String::from_str("File extension .").concat(ext.as_str()).concat(
            " is not allowed",
        );
        return Err(AppError::UnSupportedMediaType(message));
    }
    let filename = match form.custom_filename {
        Some(name) => id_text(id).concat("_").concat(name.as_str()),
        None => id_text(id).concat(".").concat(ext.as_str()),
    };
    let checksum = calculate_sha256(data.as_slice());
    Ok(
        Candidate {
            file_id: id,
            filename,
            original_filename,
            mime_type: form.mime_type,
            file_size: size as i64,
            checksum,
            data,
        },
    )
}

impl Candidate {
    /// Whether a thumbnail is attempted for this upload.
    pub fn wants_thumbnail(&self) -> (r: bool)
        ensures
            r == wants_thumbnail(self@.mime_type),
    {
        match &self.mime_type {
            Some(m) => is_file_mime_type(m.as_str()),
            None => false,
        }
    }

    /// The key under which the blob is written: `files/{filename}`.
    pub fn blob_key(&self) -> (key: String)
        ensures
            key@ == blob_key(self@.filename),
    {
        String::from_str("files/").concat(self.filename.as_str())
    }

    /// The key under which the thumbnail is written: `thumbnails/{id}.jpg`.
    pub fn thumbnail_key(&self) -> (key: String)
        ensures
            key@ == thumbnail_key(self@.file_id),
    {
        String::from_str("thumbnails/").concat(id_text(self.file_id).as_str()).concat(".jpg")
    }

    /// The record to commit once the blob has the locator `file_path` and the
    /// thumbnail, if there is one, the locator `thumbnail_path`.
    pub fn record(self, config: &Config, file_path: String, thumbnail_path: Option<String>) -> (file:
        File)
        ensures
            file@ == record_of(config@, self@, file_path@, text_view(thumbnail_path)),
    {
        let mime_type = match self.mime_type {
            Some(m) => m,
            None => String::from_str("application/octet-stream"),
        };
        let storage_type = if config.use_s3 {
            String::from_str("s3")
        } else {
            String::from_str("local")
        };
        File {
            id: self.file_id,
            filename: self.filename,
            original_filename: self.original_filename,
            file_path,
            file_size: self.file_size,
            mime_type,
            storage_type,
            checksum: Some(self.checksum),
            thumbnail_path,
            uploaded_at: None,
            updated_at: None,
        }
    }
}

/// Commits the record of `c`.
fn commit_record(config: &Config, c: Candidate, file_path: String, thumbnail_path: Option<String>) -> (next:
    (UploadState, Action))
    ensures
        (next.0@, next.1@) == commit(config@, c@, file_path@, text_view(thumbnail_path)),
{
    let file_id: u128 = c.file_id;
    (UploadState::AwaitInsert(file_id), Action::Insert(c.record(config, file_path, thumbnail_path)))
}

/// Takes one step of an upload that waits for a field's header.
fn next_field(config: &Config, form: UploadForm, event: Event, id: u128) -> (next: (
    UploadState,
    Action,
))
    requires
        config@.valid(),
    ensures
        (next.0@, next.1@) == field_step(config@, form@, event@, id),
{
    match event {
        Event::Field { name, file_name, content_type } => {
            let is_file = match &name {
                Some(n) => same_text(n.as_str(), "file"),
                None => false,
            };
            let is_filename = match &name {
                Some(n) => same_text(n.as_str(), "filename"),
                None => false,
            };
            if is_file {
                let form = UploadForm {
                    file_data: form.file_data,
                    original_filename: file_name,
                    mime_type: content_type,
                    custom_filename: form.custom_filename,
                };
                (UploadState::AwaitBody(form), Action::ReadBody)
            } else if is_filename {
                (UploadState::AwaitText(form), Action::ReadText)
            } else {
                (UploadState::AwaitField(form), Action::NextField)
            }
        },
        Event::EndOfFields => match accept(config, form, id) {
            Ok(c) => {
                let checksum = c.checksum.clone();
                (UploadState::AwaitProbe(c), Action::FindByChecksum(checksum))
            },
            Err(e) => (UploadState::Done, Action::Fail(e)),
        },
        Event::MultipartFailed(message) => {
            let message = String::from_str("Failed to parse multipart form: ").concat(
                message.as_str(),
            );
            (UploadState::Done, Action::Fail(AppError::MultipartError(message)))
        },
        _ => (UploadState::Done, fail_out_of_turn()),
    }
}

/// Takes one step of an upload, with `id` as the identifier to give the file
/// if this step assigns one.
pub fn upload_with_id(config: &Config, state: UploadState, event: Event, id: u128) -> (next: (
    UploadState,
    Action,
))
    requires
        config@.valid(),
    ensures
        (next.0@, next.1@) == upload_step(config@, state@, event@, id),
{
    match state {
        UploadState::Start => match event {
            Event::Begin => (UploadState::AwaitField(UploadForm::new()), Action::NextField),
            _ => (UploadState::Done, fail_out_of_turn()),
        },
        UploadState::AwaitField(form) => next_field(config, form, event, id),
        UploadState::AwaitBody(form) => match event {
            Event::Body(data) => {
                let form = UploadForm {
                    file_data: Some(data),
                    original_filename: form.original_filename,
                    mime_type: form.mime_type,
                    custom_filename: form.custom_filename,
                };
                (UploadState::AwaitField(form), Action::NextField)
            },
            Event::BodyFailed(message) => {
                let message = String::from_str("Failed to read the file: ").concat(
                    message.as_str(),
                );
                (UploadState::Done, Action::Fail(AppError::FileProcessingError(message)))
            },
            _ => (UploadState::Done, fail_out_of_turn()),
        },
        UploadState::AwaitText(form) => match event {
            Event::Text(text) => {
                if text.as_str().unicode_len() > 0 {
                    let form = UploadForm {
                        file_data: form.file_data,
                        original_filename: form.original_filename,
                        mime_type: form.mime_type,
                        custom_filename: Some(text),
                    };
                    (UploadState::AwaitField(form), Action::NextField)
                } else {
                    (UploadState::AwaitField(form), Action::NextField)
                }
            },
            Event::TextFailed => (UploadState::AwaitField(form), Action::NextField),
            _ => (UploadState::Done, fail_out_of_turn()),
        },
        UploadState::AwaitProbe(c) => match event {
            Event::Found(Some(existing)) => (
                UploadState::Done,
                Action::ReplyUpload(UploadResponse::of(&existing)),
            ),
            Event::Found(None) => {
                let key = c.blob_key();
                let data = c.data.clone();
                (UploadState::AwaitBlob(c), Action::Upload { key, data })
            },
            Event::DatabaseFailed(message) => (
                UploadState::Done,
                Action::Fail(AppError::DatabaseError(message)),
            ),
            _ => (UploadState::Done, fail_out_of_turn()),
        },
        UploadState::AwaitBlob(c) => match event {
            Event::Stored(Ok(locator)) => {
                if c.wants_thumbnail() {
                    let data = c.data.clone();
                    let base_name = id_text(c.file_id);
                    (
                        UploadState::AwaitRender(c, locator),
                        Action::RenderThumbnail { data, base_name },
                    )
                } else {
                    commit_record(config, c, locator, None)
                }
            },
            Event::Stored(Err(_)) => (
                UploadState::Done,
                Action::Fail(
                    AppError::InternalServerError(String::from_str("Failed to upload file")),
                ),
            ),
            _ => (UploadState::Done, fail_out_of_turn()),
        },
        UploadState::AwaitRender(c, file_path) => match event {
            Event::Rendered(Some(jpeg)) => {
                let key = c.thumbnail_key();
                (UploadState::AwaitThumbnail(c, file_path), Action::Upload { key, data: jpeg })
            },
            Event::Rendered(None) => commit_record(config, c, file_path, None),
            _ => (UploadState::Done, fail_out_of_turn()),
        },
        UploadState::AwaitThumbnail(c, file_path) => match event {
            Event::Stored(Ok(locator)) => commit_record(config, c, file_path, Some(locator)),
            Event::Stored(Err(_)) => commit_record(config, c, file_path, None),
            _ => (UploadState::Done, fail_out_of_turn()),
        },
        UploadState::AwaitInsert(file_id) => match event {
            Event::Inserted(row) => {
                let response = UploadResponse {
                    id: file_id,
                    filename: row.filename,
                    url: String::from_str("/files/").concat(id_text(file_id).as_str()),
                    size: row.file_size,
                    mime_type: row.mime_type,
                };
                (UploadState::Done, Action::ReplyUpload(response))
            },
            Event::DatabaseFailed(message) => (
                UploadState::Done,
                Action::Fail(AppError::DatabaseError(message)),
            ),
            _ => (UploadState::Done, fail_out_of_turn()),
        },
        UploadState::Done => (UploadState::Done, fail_out_of_turn()),
    }
}

/// Takes one step of an upload. Where the form has just ended, the upload is
/// given a freshly minted random identifier.
pub fn upload_file(config: &Config, state: UploadState, event: Event) -> (next: (
    UploadState,
    Action,
))
    requires
        config@.valid(),
    ensures
        exists|id: u128|
            (mints_id(state@, event@) ==> is_random_id(id)) && (next.0@, next.1@) == #[trigger] upload_step(
                config@,
                state@,
                event@,
                id,
            ),
{
    let mints = match (&state, &event) {
        (UploadState::AwaitField(_), Event::EndOfFields) => true,
        _ => false,
    };
    let id: u128 = if mints {
        new_file_id()
    } else {
        0
    };
    upload_with_id(config, state, event, id)
}

} // verus!
