use file_service::error::AppError;
use file_service::handlers::files::{FileState, ListState, RECENT_LIMIT};
use file_service::handlers::protocol::{Action, BlobResponse, Event};
use file_service::handlers::{delete_file, download_file, get_file, get_thummbnail, list_files};
use file_service::models::{File, FileResponse, UploadResponse};
use file_service::storage::StorageError;

const ID: u128 = 0x0123_4567_89ab_cdef_0123_4567_89ab_cdef;
const ID_TEXT: &str = "01234567-89ab-cdef-0123-456789abcdef";

fn file(storage_type: &str, file_path: &str, thumbnail_path: Option<&str>) -> File {
    File {
        id: ID,
        filename: format!("{}.png", ID_TEXT),
        original_filename: "cat.png".to_string(),
        file_path: file_path.to_string(),
        file_size: 42,
        mime_type: "image/png".to_string(),
        storage_type: storage_type.to_string(),
        checksum: Some("00".repeat(32)),
        thumbnail_path: thumbnail_path.map(|p| p.to_string()),
        uploaded_at: Some(1_700_000_000_000_000),
        updated_at: Some(1_700_000_000_000_001),
    }
}

fn local() -> File {
    file("local", "uploads/files/cat.png", Some("uploads/thumbnails/cat.jpg"))
}

fn fail(e: AppError) -> (FileState, Action) {
    (FileState::Done, Action::Fail(e))
}

fn out_of_turn() -> (FileState, Action) {
    fail(AppError::InternalServerError("Unexpected event".to_string()))
}

fn not_found() -> (FileState, Action) {
    fail(AppError::NotFound("File not found".to_string()))
}

fn database_failed() -> (FileState, Action) {
    fail(AppError::DatabaseError("gone".to_string()))
}

fn lost() -> Event {
    Event::Loaded(Err(StorageError::NotFound("k".to_string())))
}

#[test]
fn every_file_request_starts_with_a_lookup() {
    let steps: [fn(FileState, Event) -> (FileState, Action); 4] =
        [download_file, get_thummbnail, get_file, delete_file];
    for step in steps {
        assert_eq!(
            step(FileState::Requested(ID), Event::Begin),
            (FileState::AwaitRecord(ID), Action::FindById(ID))
        );
        assert_eq!(step(FileState::AwaitRecord(ID), Event::Found(None)), not_found());
        assert_eq!(
            step(FileState::AwaitRecord(ID), Event::DatabaseFailed("gone".to_string())),
            database_failed()
        );
        assert_eq!(step(FileState::Requested(ID), Event::Found(None)), out_of_turn());
        assert_eq!(step(FileState::AwaitRecord(ID), Event::Begin), out_of_turn());
        assert_eq!(step(FileState::Done, Event::Begin), out_of_turn());
    }
}

#[test]
fn descriptions_of_records() {
    assert_eq!(
        FileResponse::of(&local()),
        FileResponse {
            id: ID,
            filename: format!("{}.png", ID_TEXT),
            original_filename: "cat.png".to_string(),
            size: 42,
            mime_type: "image/png".to_string(),
            uploaded_at: Some(1_700_000_000_000_000),
            download_url: format!("/files/{}/download", ID_TEXT),
            thumbnail_url: Some(format!("/files/{}/thumbnail", ID_TEXT)),
        }
    );
    let bare = file("s3", "s3://files/cat.png", None);
    assert_eq!(FileResponse::of(&bare).thumbnail_url, None);
    assert_eq!(
        UploadResponse::of(&bare),
        UploadResponse {
            id: ID,
            filename: format!("{}.png", ID_TEXT),
            url: format!("/files/{}", ID_TEXT),
            size: 42,
            mime_type: "image/png".to_string(),
        }
    );
}

#[test]
fn metadata_describe_the_record() {
    assert_eq!(
        get_file(FileState::AwaitRecord(ID), Event::Found(Some(local()))),
        (FileState::Done, Action::ReplyFile(FileResponse::of(&local())))
    );
}

#[test]
fn download_fetches_under_the_normalized_key() {
    assert_eq!(
        download_file(FileState::AwaitRecord(ID), Event::Found(Some(local()))),
        (FileState::AwaitBlob(local()), Action::Download { key: "files/cat.png".to_string() })
    );
    let s3 = file("s3", "s3://files/cat.png", None);
    assert_eq!(
        download_file(FileState::AwaitRecord(ID), Event::Found(Some(s3))).1,
        Action::Download { key: "files/cat.png".to_string() }
    );
    let bare = file("local", "files/cat.png", None);
    assert_eq!(
        download_file(FileState::AwaitRecord(ID), Event::Found(Some(bare))).1,
        Action::Download { key: "files/cat.png".to_string() }
    );
}

#[test]
fn download_answers_with_an_attachment() {
    assert_eq!(
        download_file(FileState::AwaitBlob(local()), Event::Loaded(Ok(vec![1, 2, 3]))),
        (
            FileState::Done,
            Action::ReplyBlob(BlobResponse {
                content_type: "image/png".to_string(),
                content_disposition: Some("attachment; filename=\"cat.png\"".to_string()),
                body: vec![1, 2, 3],
            })
        )
    );
    assert_eq!(
        download_file(FileState::AwaitBlob(local()), lost()),
        fail(AppError::InternalServerError("Failed to download file".to_string()))
    );
}

#[test]
fn download_degrades_headers_one_by_one() {
    let odd_type = File { mime_type: "image/\u{0}png".to_string(), ..local() };
    match download_file(FileState::AwaitBlob(odd_type), Event::Loaded(Ok(vec![]))).1 {
        Action::ReplyBlob(blob) => {
            assert_eq!(blob.content_type, "application/octet-stream");
            assert_eq!(blob.content_disposition.as_deref(), Some("attachment; filename=\"cat.png\""));
        }
        other => panic!("expected a blob, got {:?}", other),
    }
    let odd_name = File { original_filename: "c\rat.png".to_string(), ..local() };
    match download_file(FileState::AwaitBlob(odd_name), Event::Loaded(Ok(vec![]))).1 {
        Action::ReplyBlob(blob) => {
            assert_eq!(blob.content_type, "image/png");
            assert_eq!(blob.content_disposition.as_deref(), Some("attachment"));
        }
        other => panic!("expected a blob, got {:?}", other),
    }
}

#[test]
fn thumbnail_requires_a_thumbnail() {
    assert_eq!(
        get_thummbnail(FileState::AwaitRecord(ID), Event::Found(Some(local()))),
        (FileState::AwaitBlob(local()), Action::Download { key: "thumbnails/cat.jpg".to_string() })
    );
    let bare = file("local", "uploads/files/cat.png", None);
    assert_eq!(
        get_thummbnail(FileState::AwaitRecord(ID), Event::Found(Some(bare))),
        fail(AppError::NotFound("Thumbnail not available".to_string()))
    );
    let s3 = file("s3", "s3://files/cat.png", Some("s3://thumbnails/cat.jpg"));
    assert_eq!(
        get_thummbnail(FileState::AwaitRecord(ID), Event::Found(Some(s3))).1,
        Action::Download { key: "thumbnails/cat.jpg".to_string() }
    );
}

#[test]
fn thumbnail_answers_with_a_jpeg() {
    assert_eq!(
        get_thummbnail(FileState::AwaitBlob(local()), Event::Loaded(Ok(vec![0xff, 0xd8]))),
        (
            FileState::Done,
            Action::ReplyBlob(BlobResponse {
                content_type: "image/jpeg".to_string(),
                content_disposition: None,
                body: vec![0xff, 0xd8],
            })
        )
    );
    assert_eq!(
        get_thummbnail(FileState::AwaitBlob(local()), lost()),
        fail(AppError::InternalServerError("Failed to download thumbnail".to_string()))
    );
}

#[test]
fn delete_removes_blob_then_thumbnail_then_row() {
    let (state, action) = delete_file(FileState::AwaitRecord(ID), Event::Found(Some(local())));
    assert_eq!(action, Action::Delete { key: "files/cat.png".to_string() });
    assert_eq!(
        state,
        FileState::AwaitBlobRemoval { id: ID, thumbnail_key: Some("thumbnails/cat.jpg".to_string()) }
    );
    let (state, action) = delete_file(state, Event::Deleted(Ok(())));
    assert_eq!(action, Action::Delete { key: "thumbnails/cat.jpg".to_string() });
    assert_eq!(state, FileState::AwaitThumbnailRemoval(ID));
    let (state, action) = delete_file(state, Event::Deleted(Ok(())));
    assert_eq!((&state, &action), (&FileState::AwaitRowRemoval(ID), &Action::DeleteById(ID)));
    assert_eq!(delete_file(state, Event::RowDeleted), (FileState::Done, Action::ReplyNoContent));
}

#[test]
fn delete_without_thumbnail_skips_it() {
    let bare = file("s3", "s3://files/cat.png", None);
    let (state, action) = delete_file(FileState::AwaitRecord(ID), Event::Found(Some(bare)));
    assert_eq!(action, Action::Delete { key: "files/cat.png".to_string() });
    assert_eq!(
        delete_file(state, Event::Deleted(Ok(()))),
        (FileState::AwaitRowRemoval(ID), Action::DeleteById(ID))
    );
}

#[test]
fn failed_blob_removal_keeps_the_record() {
    let state = FileState::AwaitBlobRemoval { id: ID, thumbnail_key: None };
    let failed = Event::Deleted(Err(StorageError::DeleteError("denied".to_string())));
    assert_eq!(
        delete_file(state, failed),
        fail(AppError::InternalServerError("Failed to delete file from storage".to_string()))
    );
}

#[test]
fn failed_thumbnail_removal_is_swallowed() {
    let failed = Event::Deleted(Err(StorageError::IoError("busy".to_string())));
    assert_eq!(
        delete_file(FileState::AwaitThumbnailRemoval(ID), failed),
        (FileState::AwaitRowRemoval(ID), Action::DeleteById(ID))
    );
}

#[test]
fn failed_row_removal_is_a_database_error() {
    assert_eq!(
        delete_file(FileState::AwaitRowRemoval(ID), Event::DatabaseFailed("gone".to_string())),
        database_failed()
    );
    assert_eq!(database_failed().1, Action::Fail(AppError::DatabaseError("gone".to_string())));
}

#[test]
fn listing_asks_for_the_limit_and_describes_in_order() {
    assert_eq!(RECENT_LIMIT, 100);
    assert_eq!(
        list_files(ListState::Requested, Event::Begin),
        (ListState::AwaitRows, Action::ListRecent(100))
    );
    let rows = vec![local(), file("s3", "s3://files/cat.png", None)];
    let expected: Vec<FileResponse> = rows.iter().map(FileResponse::of).collect();
    assert_eq!(
        list_files(ListState::AwaitRows, Event::Listed(rows)),
        (ListState::Done, Action::ReplyFiles(expected))
    );
    assert_eq!(
        list_files(ListState::AwaitRows, Event::Listed(vec![])),
        (ListState::Done, Action::ReplyFiles(vec![]))
    );
}

#[test]
fn listing_never_exceeds_the_limit() {
    let rows: Vec<File> = (0..130u128).map(|i| File { id: i, ..local() }).collect();
    match list_files(ListState::AwaitRows, Event::Listed(rows)) {
        (ListState::Done, Action::ReplyFiles(list)) => {
            assert_eq!(list.len(), 100);
            assert_eq!(list.iter().map(|r| r.id).collect::<Vec<u128>>(), (0..100).collect::<Vec<u128>>());
        }
        other => panic!("expected a list, got {:?}", other),
    }
}

#[test]
fn listing_failures() {
    let out_of_turn =
        || Action::Fail(AppError::InternalServerError("Unexpected event".to_string()));
    assert_eq!(
        list_files(ListState::AwaitRows, Event::DatabaseFailed("gone".to_string())),
        (ListState::Done, Action::Fail(AppError::DatabaseError("gone".to_string())))
    );
    assert_eq!(list_files(ListState::Requested, Event::RowDeleted), (ListState::Done, out_of_turn()));
    assert_eq!(list_files(ListState::AwaitRows, Event::Begin), (ListState::Done, out_of_turn()));
    assert_eq!(list_files(ListState::Done, Event::Begin), (ListState::Done, out_of_turn()));
}
