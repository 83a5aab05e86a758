use file_service::config::{Config, Environment};
use file_service::error::AppError;
use file_service::handlers::files::{FileState, ListState};
use file_service::handlers::protocol::{Action, BlobResponse, Event};
use file_service::handlers::upload::UploadState;
use file_service::handlers::{
    delete_file, download_file, get_file, get_thummbnail, list_files, upload_file,
};
use file_service::models::{File, FileResponse, UploadResponse};
use file_service::storage::{init_storage, Fetched, Removed, StorageBackend};
use file_service::utils::generate_thumbnail;

/// A service in memory: a blob store keyed as the backend keys it, and the
/// rows of the metadata index.
struct World {
    config: Config,
    backend: StorageBackend,
    blobs: Vec<(String, Vec<u8>)>,
    rows: Vec<File>,
    writes: usize,
    clock: i64,
}

struct Field {
    name: &'static str,
    file_name: Option<&'static str>,
    content_type: Option<&'static str>,
    body: Vec<u8>,
}

enum Reply {
    Upload(UploadResponse),
    File(FileResponse),
    Files(Vec<FileResponse>),
    Blob(BlobResponse),
    NoContent,
}

fn world(use_s3: bool, max_file_size: u64) -> World {
    let config = Config::from_env(Environment {
        database_url: Some("postgres://db".to_string()),
        use_s3: Some(use_s3.to_string()),
        s3_endpoint: None,
        s3_region: None,
        s3_bucket: None,
        s3_access_key: None,
        s3_secret_key: None,
        max_file_size: Some(max_file_size.to_string()),
        allowed_extensions: None,
    })
    .expect("valid");
    let backend = init_storage(&config);
    World { config, backend, blobs: Vec::new(), rows: Vec::new(), writes: 0, clock: 1_700_000_000_000_000 }
}

fn file_field(file_name: &'static str, content_type: &'static str, body: &[u8]) -> Field {
    Field { name: "file", file_name: Some(file_name), content_type: Some(content_type), body: body.to_vec() }
}

fn name_field(text: &'static str) -> Field {
    Field { name: "filename", file_name: None, content_type: None, body: text.as_bytes().to_vec() }
}

fn plain_png(width: u32, height: u32) -> Vec<u8> {
    let picture = image::RgbImage::from_pixel(width, height, image::Rgb([10, 200, 90]));
    let mut out = std::io::Cursor::new(Vec::new());
    image::DynamicImage::ImageRgb8(picture)
        .write_to(&mut out, image::ImageFormat::Png)
        .expect("a PNG can be encoded");
    out.into_inner()
}

fn hyphenated(id: u128) -> String {
    uuid::Uuid::from_u128(id).to_string()
}

impl World {
    /// Performs `action` and says how it ended; a final action ends the request.
    fn perform(&mut self, action: Action) -> Result<Event, Result<Reply, AppError>> {
        Ok(match action {
            Action::FindByChecksum(sum) => Event::Found(
                self.rows.iter().find(|row| row.checksum.as_deref() == Some(sum.as_str())).cloned(),
            ),
            Action::FindById(id) => Event::Found(self.rows.iter().find(|row| row.id == id).cloned()),
            Action::ListRecent(limit) => {
                let mut rows = self.rows.clone();
                rows.sort_by(|a, b| b.uploaded_at.cmp(&a.uploaded_at));
                rows.truncate(limit);
                Event::Listed(rows)
            }
            Action::Insert(mut row) => {
                self.clock += 1;
                row.uploaded_at = Some(self.clock);
                row.updated_at = Some(self.clock);
                self.rows.push(row.clone());
                Event::Inserted(row)
            }
            Action::DeleteById(id) => {
                self.rows.retain(|row| row.id != id);
                Event::RowDeleted
            }
            Action::Upload { key, data } => {
                self.writes += 1;
                self.blobs.retain(|(k, _)| *k != key);
                self.blobs.push((key.clone(), data));
                Event::Stored(self.backend.upload(&key, Ok(())))
            }
            Action::Download { key } => {
                let fetched = match self.blobs.iter().find(|(k, _)| *k == key) {
                    Some((_, data)) => Fetched::Bytes(data.clone()),
                    None => Fetched::Absent("NoSuchKey".to_string()),
                };
                Event::Loaded(self.backend.download(&key, fetched))
            }
            Action::Delete { key } => {
                let before = self.blobs.len();
                self.blobs.retain(|(k, _)| *k != key);
                let removed = if self.blobs.len() < before { Removed::Done } else { Removed::Absent };
                Event::Deleted(self.backend.delete(removed))
            }
            Action::RenderThumbnail { data, base_name } => {
                Event::Rendered(generate_thumbnail(&data, &base_name).ok().map(|t| t.jpeg))
            }
            Action::ReplyUpload(r) => return Err(Ok(Reply::Upload(r))),
            Action::ReplyFile(r) => return Err(Ok(Reply::File(r))),
            Action::ReplyFiles(r) => return Err(Ok(Reply::Files(r))),
            Action::ReplyBlob(r) => return Err(Ok(Reply::Blob(r))),
            Action::ReplyNoContent => return Err(Ok(Reply::NoContent)),
            Action::Fail(e) => return Err(Err(e)),
            Action::NextField | Action::ReadBody | Action::ReadText => {
                panic!("a form action outside an upload")
            }
        })
    }

    fn upload(&mut self, fields: Vec<Field>) -> Result<UploadResponse, AppError> {
        let mut fields = fields.into_iter();
        let mut current: Option<Field> = None;
        let mut state = UploadState::Start;
        let mut event = Event::Begin;
        loop {
            let (next, action) = upload_file(&self.config, state, event);
            state = next;
            event = match action {
                Action::NextField => {
                    current = fields.next();
                    match &current {
                        Some(field) => Event::Field {
                            name: Some(field.name.to_string()),
                            file_name: field.file_name.map(|s| s.to_string()),
                            content_type: field.content_type.map(|s| s.to_string()),
                        },
                        None => Event::EndOfFields,
                    }
                }
                Action::ReadBody => Event::Body(current.take().expect("a field").body),
                Action::ReadText => match String::from_utf8(current.take().expect("a field").body) {
                    Ok(text) => Event::Text(text),
                    Err(_) => Event::TextFailed,
                },
                other => match self.perform(other) {
                    Ok(event) => event,
                    Err(Ok(Reply::Upload(response))) => {
                        assert_eq!(state, UploadState::Done);
                        return Ok(response);
                    }
                    Err(Ok(_)) => panic!("an upload answers with an upload response"),
                    Err(Err(e)) => {
                        assert_eq!(state, UploadState::Done);
                        return Err(e);
                    }
                },
            };
        }
    }

    fn about(
        &mut self,
        id: u128,
        step: fn(FileState, Event) -> (FileState, Action),
    ) -> Result<Reply, AppError> {
        let mut state = FileState::Requested(id);
        let mut event = Event::Begin;
        loop {
            let (next, action) = step(state, event);
            state = next;
            event = match self.perform(action) {
                Ok(event) => event,
                Err(end) => {
                    assert_eq!(state, FileState::Done);
                    return end;
                }
            };
        }
    }

    fn download(&mut self, id: u128) -> Result<BlobResponse, AppError> {
        match self.about(id, download_file)? {
            Reply::Blob(blob) => Ok(blob),
            _ => panic!("a download answers with a blob"),
        }
    }

    fn thumbnail(&mut self, id: u128) -> Result<BlobResponse, AppError> {
        match self.about(id, get_thummbnail)? {
            Reply::Blob(blob) => Ok(blob),
            _ => panic!("a thumbnail request answers with a blob"),
        }
    }

    fn metadata(&mut self, id: u128) -> Result<FileResponse, AppError> {
        match self.about(id, get_file)? {
            Reply::File(file) => Ok(file),
            _ => panic!("a metadata request answers with a description"),
        }
    }

    fn delete(&mut self, id: u128) -> Result<(), AppError> {
        match self.about(id, delete_file)? {
            Reply::NoContent => Ok(()),
            _ => panic!("a delete answers without content"),
        }
    }

    fn list(&mut self) -> Result<Vec<FileResponse>, AppError> {
        let mut state = ListState::Requested;
        let mut event = Event::Begin;
        loop {
            let (next, action) = list_files(state, event);
            state = next;
            event = match self.perform(action) {
                Ok(event) => event,
                Err(Ok(Reply::Files(list))) => return Ok(list),
                Err(Ok(_)) => panic!("a listing answers with a list"),
                Err(Err(e)) => return Err(e),
            };
        }
    }

    fn keys(&self) -> Vec<String> {
        self.blobs.iter().map(|(k, _)| k.clone()).collect()
    }
}

fn status(result: Result<UploadResponse, AppError>) -> u16 {
    result.expect_err("the upload is refused").status()
}

#[test]
fn upload_then_download_round_trip() {
    let mut w = world(false, 10_485_760);
    let response = w.upload(vec![file_field("original.txt", "text/plain", b"abc")]).expect("accepted");
    let id = hyphenated(response.id);
    assert_eq!(id.len(), 36);
    assert!(id.chars().all(|c| c == '-' || c.is_ascii_digit() || ('a'..='f').contains(&c)));
    assert_eq!(response.filename, format!("{}.txt", id));
    assert_eq!(response.url, format!("/files/{}", id));
    assert_eq!(response.size, 3);
    assert_eq!(response.mime_type, "text/plain");

    let row = &w.rows[0];
    assert_eq!(
        row.checksum.as_deref(),
        Some("ba7816bf8f01cfea414140de5dae2223b00361a396177a9cb410ff61f20015ad")
    );
    assert_eq!(row.file_path, format!("uploads/files/{}.txt", id));
    assert_eq!(row.storage_type, "local");
    assert_eq!(row.original_filename, "original.txt");
    assert_eq!(row.thumbnail_path, None);
    assert_eq!(w.keys(), vec![format!("files/{}.txt", id)]);

    let blob = w.download(response.id).expect("found");
    assert_eq!(blob.body, b"abc");
    assert_eq!(blob.content_type, "text/plain");
    assert_eq!(
        blob.content_disposition.as_deref(),
        Some("attachment; filename=\"original.txt\"")
    );

    let meta = w.metadata(response.id).expect("found");
    assert_eq!(meta.original_filename, "original.txt");
    assert_eq!(meta.size, 3);
    assert_eq!(meta.download_url, format!("/files/{}/download", id));
    assert_eq!(meta.thumbnail_url, None);
    assert_eq!(meta.uploaded_at, row_time(&w, response.id));
}

fn row_time(w: &World, id: u128) -> Option<i64> {
    w.rows.iter().find(|row| row.id == id).and_then(|row| row.uploaded_at)
}

#[test]
fn identical_bytes_are_stored_once() {
    let mut w = world(false, 10_485_760);
    let first = w.upload(vec![file_field("original.txt", "text/plain", b"abc")]).expect("accepted");
    let second = w.upload(vec![file_field("other.txt", "text/x-other", b"abc")]).expect("accepted");
    assert_eq!(second.id, first.id);
    assert_eq!(second, first);
    assert_eq!(w.writes, 1);
    assert_eq!(w.rows.len(), 1);
    assert_eq!(w.keys().iter().filter(|k| k.starts_with("files/")).count(), 1);
}

#[test]
fn different_bytes_get_different_records() {
    let mut w = world(false, 10_485_760);
    let first = w.upload(vec![file_field("a.txt", "text/plain", b"abc")]).expect("accepted");
    let second = w.upload(vec![file_field("a.txt", "text/plain", b"abd")]).expect("accepted");
    assert_ne!(second.id, first.id);
    assert_eq!(w.writes, 2);
    assert_eq!(w.rows.len(), 2);
}

#[test]
fn payload_above_the_limit_is_refused() {
    let mut w = world(false, 10_485_760);
    let payload = vec![0u8; 10_485_761];
    let refused = w.upload(vec![file_field("big.txt", "text/plain", &payload)]);
    assert_eq!(
        refused,
        Err(AppError::PayloadTooLarge(
            "File size 10485761 exceeds maximum limit of 10485760 bytes".to_string()
        ))
    );
    assert_eq!(status(refused), 413);
    assert_eq!(w.writes, 0);
    assert!(w.rows.is_empty());
}

#[test]
fn payload_of_exactly_the_limit_is_accepted() {
    let mut w = world(false, 1000);
    let at_limit = w.upload(vec![file_field("a.txt", "text/plain", &[1u8; 1000])]).expect("accepted");
    assert_eq!(at_limit.size, 1000);
    assert_eq!(status(w.upload(vec![file_field("b.txt", "text/plain", &[2u8; 1001])])), 413);
}

#[test]
fn disallowed_extension_is_refused() {
    let mut w = world(false, 10_485_760);
    let refused = w.upload(vec![file_field("setup.exe", "application/octet-stream", b"MZ")]);
    assert_eq!(
        refused,
        Err(AppError::UnSupportedMediaType("File extension .exe is not allowed".to_string()))
    );
    assert_eq!(status(refused), 415);
    assert_eq!(w.writes, 0);
    assert!(w.rows.is_empty());
}

#[test]
fn missing_extension_is_a_bad_request() {
    let mut w = world(false, 10_485_760);
    for name in ["README", ".bashrc", ""] {
        let refused = w.upload(vec![file_field(name, "text/plain", b"abc")]);
        assert_eq!(refused, Err(AppError::BadRequest("Invalid file extension".to_string())));
    }
    assert_eq!(w.writes, 0);
}

#[test]
fn extension_is_taken_from_the_file_name_of_a_path() {
    let mut w = world(false, 10_485_760);
    let response = w.upload(vec![file_field("docs/notes.txt/", "text/plain", b"abc")]).expect("accepted");
    assert_eq!(response.filename, format!("{}.txt", hyphenated(response.id)));
    assert_eq!(w.rows[0].original_filename, "docs/notes.txt/");
    for name in ["notes.txt/draft", "notes.txt/..", ".."] {
        assert_eq!(
            w.upload(vec![file_field(name, "text/plain", b"abd")]),
            Err(AppError::BadRequest("Invalid file extension".to_string()))
        );
    }
    assert_eq!(w.writes, 1);
}

#[test]
fn extension_is_matched_in_lowercase() {
    let mut w = world(false, 10_485_760);
    let response = w.upload(vec![file_field("Photo.TXT", "text/plain", b"abc")]).expect("accepted");
    assert_eq!(response.filename, format!("{}.txt", hyphenated(response.id)));
}

#[test]
fn missing_file_is_a_bad_request() {
    let mut w = world(false, 10_485_760);
    assert_eq!(w.upload(vec![]), Err(AppError::BadRequest("No file provided".to_string())));
    assert_eq!(
        w.upload(vec![name_field("custom")]),
        Err(AppError::BadRequest("No file provided".to_string()))
    );
    let nameless = Field { name: "file", file_name: None, content_type: None, body: b"abc".to_vec() };
    assert_eq!(w.upload(vec![nameless]), Err(AppError::BadRequest("No file provided".to_string())));
}

#[test]
fn presence_is_checked_before_size_and_size_before_extension() {
    let mut w = world(false, 2);
    let nameless = Field { name: "file", file_name: None, content_type: None, body: b"abc".to_vec() };
    assert_eq!(status(w.upload(vec![nameless])), 400);
    assert_eq!(status(w.upload(vec![file_field("setup.exe", "x/y", b"abc")])), 413);
    assert_eq!(status(w.upload(vec![file_field("setup.exe", "x/y", b"ab")])), 415);
}

#[test]
fn custom_filename_follows_the_identifier() {
    let mut w = world(false, 10_485_760);
    let response = w
        .upload(vec![name_field("holiday"), file_field("a.png", "text/plain", b"abc")])
        .expect("accepted");
    assert_eq!(response.filename, format!("{}_holiday", hyphenated(response.id)));
    assert_eq!(w.keys(), vec![format!("files/{}_holiday", hyphenated(response.id))]);
}

#[test]
fn empty_custom_filename_counts_as_absent() {
    let mut w = world(false, 10_485_760);
    let response = w
        .upload(vec![file_field("a.txt", "text/plain", b"abc"), name_field("")])
        .expect("accepted");
    assert_eq!(response.filename, format!("{}.txt", hyphenated(response.id)));
    let response = w
        .upload(vec![name_field("kept"), name_field(""), file_field("b.txt", "text/plain", b"abd")])
        .expect("accepted");
    assert_eq!(response.filename, format!("{}_kept", hyphenated(response.id)));
}

#[test]
fn unknown_fields_are_ignored_and_the_last_file_counts() {
    let mut w = world(false, 10_485_760);
    let other = Field { name: "comment", file_name: None, content_type: None, body: b"hi".to_vec() };
    let response = w
        .upload(vec![
            file_field("first.txt", "text/plain", b"first"),
            other,
            file_field("second.pdf", "application/pdf", b"second"),
        ])
        .expect("accepted");
    assert_eq!(response.size, 6);
    assert_eq!(response.mime_type, "application/pdf");
    assert_eq!(w.rows[0].original_filename, "second.pdf");
}

#[test]
fn missing_media_type_is_recorded_as_octet_stream() {
    let mut w = world(false, 10_485_760);
    let field = Field { name: "file", file_name: Some("a.png"), content_type: None, body: plain_png(4, 4) };
    let response = w.upload(vec![field]).expect("accepted");
    assert_eq!(response.mime_type, "application/octet-stream");
    assert_eq!(w.rows[0].thumbnail_path, None);
    assert_eq!(w.writes, 1);
}

#[test]
fn image_gets_a_thumbnail() {
    let mut w = world(false, 10_485_760);
    let response = w.upload(vec![file_field("pic.png", "image/png", &plain_png(300, 120))]).expect("accepted");
    let id = hyphenated(response.id);
    assert_eq!(w.rows[0].thumbnail_path, Some(format!("uploads/thumbnails/{}.jpg", id)));
    assert_eq!(w.keys(), vec![format!("files/{}.png", id), format!("thumbnails/{}.jpg", id)]);

    let meta = w.metadata(response.id).expect("found");
    assert_eq!(meta.thumbnail_url, Some(format!("/files/{}/thumbnail", id)));

    let thumbnail = w.thumbnail(response.id).expect("found");
    assert_eq!(thumbnail.content_type, "image/jpeg");
    assert_eq!(thumbnail.content_disposition, None);
    assert_eq!(&thumbnail.body[..2], &[0xff, 0xd8]);
    let decoded = image::load_from_memory(&thumbnail.body).expect("a JPEG");
    assert_eq!((decoded.width(), decoded.height()), (200, 80));
}

#[test]
fn thumbnail_failure_does_not_fail_the_upload() {
    let mut w = world(false, 10_485_760);
    let response = w.upload(vec![file_field("pic.png", "image/png", b"no picture")]).expect("accepted");
    assert_eq!(w.rows[0].thumbnail_path, None);
    assert_eq!(w.metadata(response.id).expect("found").thumbnail_url, None);
    assert_eq!(
        w.thumbnail(response.id),
        Err(AppError::NotFound("Thumbnail not available".to_string()))
    );
}

#[test]
fn no_thumbnail_for_other_media_types() {
    let mut w = world(false, 10_485_760);
    let response = w.upload(vec![file_field("pic.png", "application/pdf", &plain_png(30, 30))]).expect("accepted");
    assert_eq!(w.rows[0].thumbnail_path, None);
    assert_eq!(w.writes, 1);
    assert_eq!(w.thumbnail(response.id).expect_err("no thumbnail").status(), 404);
}

#[test]
fn s3_records_carry_s3_locators() {
    let mut w = world(true, 10_485_760);
    let response = w.upload(vec![file_field("pic.png", "image/png", &plain_png(16, 16))]).expect("accepted");
    let id = hyphenated(response.id);
    assert_eq!(w.rows[0].storage_type, "s3");
    assert_eq!(w.rows[0].file_path, format!("s3://files/{}.png", id));
    assert_eq!(w.rows[0].thumbnail_path, Some(format!("s3://thumbnails/{}.jpg", id)));
    assert_eq!(w.download(response.id).expect("found").body, plain_png(16, 16));
    assert_eq!(&w.thumbnail(response.id).expect("found").body[..2], &[0xff, 0xd8]);
}

#[test]
fn delete_removes_blob_thumbnail_and_record() {
    for use_s3 in [false, true] {
        let mut w = world(use_s3, 10_485_760);
        let kept = w.upload(vec![file_field("a.txt", "text/plain", b"kept")]).expect("accepted");
        let gone = w.upload(vec![file_field("pic.png", "image/png", &plain_png(8, 8))]).expect("accepted");
        assert_eq!(w.blobs.len(), 3);

        assert_eq!(w.delete(gone.id), Ok(()));
        assert_eq!(w.keys(), vec![format!("files/{}.txt", hyphenated(kept.id))]);
        assert_eq!(w.rows.len(), 1);

        let not_found = AppError::NotFound("File not found".to_string());
        assert_eq!(w.delete(gone.id), Err(not_found.clone()));
        assert_eq!(w.metadata(gone.id), Err(not_found.clone()));
        assert_eq!(w.download(gone.id), Err(not_found.clone()));
        assert_eq!(w.thumbnail(gone.id), Err(not_found.clone()));
        assert_eq!(not_found.status(), 404);
        assert_eq!(w.download(kept.id).expect("found").body, b"kept");
    }
}

#[test]
fn download_of_a_lost_blob_is_a_server_error() {
    let mut w = world(false, 10_485_760);
    let response = w.upload(vec![file_field("a.txt", "text/plain", b"abc")]).expect("accepted");
    w.blobs.clear();
    assert_eq!(
        w.download(response.id),
        Err(AppError::InternalServerError("Failed to download file".to_string()))
    );
}

#[test]
fn headers_fall_back_where_values_cannot_stand_in_them() {
    let mut w = world(false, 10_485_760);
    let response = w
        .upload(vec![file_field("line\nbreak.txt", "text/\u{7f}plain", b"abc")])
        .expect("accepted");
    let blob = w.download(response.id).expect("found");
    assert_eq!(blob.content_type, "application/octet-stream");
    assert_eq!(blob.content_disposition.as_deref(), Some("attachment"));
    assert_eq!(blob.body, b"abc");

    let response = w
        .upload(vec![file_field("tab\tété.txt", "text/plain; charset=utf-8", b"abd")])
        .expect("accepted");
    let blob = w.download(response.id).expect("found");
    assert_eq!(blob.content_type, "text/plain; charset=utf-8");
    assert_eq!(
        blob.content_disposition.as_deref(),
        Some("attachment; filename=\"tab\tété.txt\"")
    );
}

#[test]
fn listing_is_recent_first_and_bounded() {
    let mut w = world(false, 10_485_760);
    let mut ids = Vec::new();
    for i in 0..105u32 {
        let body = format!("payload {}", i);
        let response = w.upload(vec![file_field("a.txt", "text/plain", body.as_bytes())]).expect("accepted");
        ids.push(response.id);
    }
    let list = w.list().expect("listed");
    assert_eq!(list.len(), 100);
    let expected: Vec<u128> = ids.iter().rev().take(100).copied().collect();
    assert_eq!(list.iter().map(|r| r.id).collect::<Vec<u128>>(), expected);
    assert_eq!(list[0].download_url, format!("/files/{}/download", hyphenated(list[0].id)));
    assert_eq!(w.list().expect("listed"), list);
}

#[test]
fn listing_shows_thumbnails_with_a_leading_slash() {
    let mut w = world(false, 10_485_760);
    let response = w.upload(vec![file_field("pic.png", "image/png", &plain_png(8, 8))]).expect("accepted");
    let list = w.list().expect("listed");
    assert_eq!(
        list[0].thumbnail_url,
        Some(format!("/files/{}/thumbnail", hyphenated(response.id)))
    );
    assert_eq!(list[0], w.metadata(response.id).expect("found"));
}
