use file_service::config::{Config, Environment};
use file_service::storage::local::LocalStorage;
use file_service::storage::s3::{BucketAction, BucketEvent, BucketState, BucketStatus, S3Storage};
use file_service::storage::{
    init_storage, storage_key, Fetched, Removed, StorageBackend, StorageError,
};

fn storage_config(use_s3: bool, endpoint: Option<&str>) -> Config {
    Config::from_env(Environment {
        database_url: Some("postgres://db".to_string()),
        use_s3: Some(use_s3.to_string()),
        s3_endpoint: endpoint.map(|e| e.to_string()),
        s3_region: Some("eu-central-1".to_string()),
        s3_bucket: Some("bucket".to_string()),
        s3_access_key: Some("access".to_string()),
        s3_secret_key: Some("secret".to_string()),
        max_file_size: None,
        allowed_extensions: None,
    })
    .expect("valid")
}

fn failed(message: &str) -> BucketEvent {
    BucketEvent::Failed(message.to_string())
}

#[test]
fn local_paths_lie_below_the_base() {
    let storage = LocalStorage::new("uploads");
    assert_eq!(storage.get_full_path("files/a.txt"), "uploads/files/a.txt");
    assert_eq!(storage.get_full_path(""), "uploads/");
    assert_eq!(LocalStorage::new("/var/data").get_full_path("x"), "/var/data/x");
}

#[test]
fn local_storage_keeps_three_directories() {
    assert_eq!(
        LocalStorage::new("uploads").directories(),
        vec!["uploads", "uploads/files", "uploads/thumbnails"]
    );
}

#[test]
fn local_upload_returns_the_full_path() {
    let storage = LocalStorage::new("uploads");
    assert_eq!(storage.upload("files/a.txt", Ok(())), Ok("uploads/files/a.txt".to_string()));
    assert_eq!(
        storage.upload("files/a.txt", Err("disk full".to_string())),
        Err(StorageError::IoError("disk full".to_string()))
    );
}

#[test]
fn local_download_reports_a_missing_file_under_its_key() {
    let storage = LocalStorage::new("uploads");
    assert_eq!(storage.download("k", Fetched::Bytes(vec![1, 2, 3])), Ok(vec![1, 2, 3]));
    assert_eq!(
        storage.download("files/gone", Fetched::Absent(String::new())),
        Err(StorageError::NotFound("files/gone".to_string()))
    );
    assert_eq!(
        storage.download("k", Fetched::Failed("denied".to_string())),
        Err(StorageError::IoError("denied".to_string()))
    );
}

#[test]
fn local_delete_is_idempotent() {
    let storage = LocalStorage::new("uploads");
    assert_eq!(storage.delete(Removed::Done), Ok(()));
    assert_eq!(storage.delete(Removed::Absent), Ok(()));
    assert_eq!(
        storage.delete(Removed::Failed("busy".to_string())),
        Err(StorageError::IoError("busy".to_string()))
    );
}

#[test]
fn s3_settings_follow_the_configuration() {
    let storage = S3Storage::new(&storage_config(true, Some("http://minio:9000")));
    assert_eq!(storage.bucket, "bucket");
    assert_eq!(storage.region, "eu-central-1");
    assert_eq!(storage.endpoint, Some("http://minio:9000".to_string()));
    let credentials = storage.credentials.expect("an endpoint brings credentials");
    assert_eq!(credentials.access_key, "access");
    assert_eq!(credentials.secret_key, "secret");
}

#[test]
fn s3_without_endpoint_fixes_no_credentials() {
    let storage = S3Storage::new(&storage_config(true, None));
    assert_eq!(storage.endpoint, None);
    assert_eq!(storage.credentials, None);
}

#[test]
fn s3_results() {
    let storage = S3Storage::new(&storage_config(true, None));
    assert_eq!(storage.upload("files/a.txt", Ok(())), Ok("s3://files/a.txt".to_string()));
    assert_eq!(
        storage.upload("files/a.txt", Err("refused".to_string())),
        Err(StorageError::UploadError("refused".to_string()))
    );
    assert_eq!(storage.download(Fetched::Bytes(vec![9])), Ok(vec![9]));
    assert_eq!(
        storage.download(Fetched::Absent("NoSuchKey".to_string())),
        Err(StorageError::NotFound("NoSuchKey".to_string()))
    );
    assert_eq!(
        storage.download(Fetched::Failed("reset".to_string())),
        Err(StorageError::IoError("reset".to_string()))
    );
    assert_eq!(storage.delete(Removed::Done), Ok(()));
    assert_eq!(
        storage.delete(Removed::Failed("denied".to_string())),
        Err(StorageError::DeleteError("denied".to_string()))
    );
}

#[test]
fn bucket_is_created_first() {
    assert_eq!(
        S3Storage::ensure_bucket_exists(BucketState::Idle, &BucketEvent::Begin),
        (BucketState::Creating, BucketAction::CreateBucket)
    );
    assert_eq!(
        S3Storage::ensure_bucket_exists(BucketState::Creating, &BucketEvent::Succeeded),
        (BucketState::Settled(BucketStatus::Created), BucketAction::Finish)
    );
}

#[test]
fn bucket_that_exists_is_tolerated() {
    for message in [
        "service error: BucketAlreadyOwnedByYou",
        "BucketAlreadyExists: taken",
        "OperationAborted: YourPreviousRequestToCreateTheBucket is in flight",
    ] {
        assert_eq!(
            S3Storage::ensure_bucket_exists(BucketState::Creating, &failed(message)),
            (BucketState::Settled(BucketStatus::AlreadyExists), BucketAction::Finish)
        );
    }
}

#[test]
fn other_failures_are_probed() {
    assert_eq!(
        S3Storage::ensure_bucket_exists(BucketState::Creating, &failed("dispatch failure")),
        (BucketState::Probing, BucketAction::HeadBucket)
    );
    assert_eq!(
        S3Storage::ensure_bucket_exists(BucketState::Creating, &failed("bucketalreadyexists")),
        (BucketState::Probing, BucketAction::HeadBucket)
    );
    assert_eq!(
        S3Storage::ensure_bucket_exists(BucketState::Probing, &BucketEvent::Succeeded),
        (BucketState::Settled(BucketStatus::Verified), BucketAction::Finish)
    );
    assert_eq!(
        S3Storage::ensure_bucket_exists(BucketState::Probing, &failed("403")),
        (BucketState::Settled(BucketStatus::Missing), BucketAction::Finish)
    );
}

#[test]
fn answers_out_of_turn_change_nothing() {
    assert_eq!(
        S3Storage::ensure_bucket_exists(BucketState::Idle, &BucketEvent::Succeeded),
        (BucketState::Idle, BucketAction::Finish)
    );
    let settled = BucketState::Settled(BucketStatus::Created);
    assert_eq!(
        S3Storage::ensure_bucket_exists(settled, &BucketEvent::Begin),
        (settled, BucketAction::Finish)
    );
}

#[test]
fn configuration_selects_the_backend() {
    match init_storage(&storage_config(false, None)) {
        StorageBackend::Local(local) => assert_eq!(local.base_path, "uploads"),
        other => panic!("expected the local backend, got {:?}", other),
    }
    match init_storage(&storage_config(true, None)) {
        StorageBackend::S3(s3) => assert_eq!(s3.bucket, "bucket"),
        other => panic!("expected the S3 backend, got {:?}", other),
    }
}

#[test]
fn backends_tag_and_locate() {
    let local = init_storage(&storage_config(false, None));
    let s3 = init_storage(&storage_config(true, None));
    assert_eq!(local.storage_type(), "local");
    assert_eq!(s3.storage_type(), "s3");
    assert_eq!(local.upload("files/x.png", Ok(())), Ok("uploads/files/x.png".to_string()));
    assert_eq!(s3.upload("files/x.png", Ok(())), Ok("s3://files/x.png".to_string()));
    assert_eq!(
        local.upload("k", Err("e".to_string())),
        Err(StorageError::IoError("e".to_string()))
    );
    assert_eq!(
        s3.upload("k", Err("e".to_string())),
        Err(StorageError::UploadError("e".to_string()))
    );
    assert_eq!(
        local.download("k", Fetched::Absent("why".to_string())),
        Err(StorageError::NotFound("k".to_string()))
    );
    assert_eq!(
        s3.download("k", Fetched::Absent("why".to_string())),
        Err(StorageError::NotFound("why".to_string()))
    );
    assert_eq!(local.delete(Removed::Absent), Ok(()));
    assert_eq!(
        s3.delete(Removed::Failed("e".to_string())),
        Err(StorageError::DeleteError("e".to_string()))
    );
}

#[test]
fn keys_are_locators_without_their_prefix() {
    assert_eq!(storage_key("s3", "s3://files/a.txt"), "files/a.txt");
    assert_eq!(storage_key("local", "uploads/files/a.txt"), "files/a.txt");
    assert_eq!(storage_key("local", "uploads/thumbnails/a.jpg"), "thumbnails/a.jpg");
}

#[test]
fn keys_without_prefix_stay() {
    assert_eq!(storage_key("s3", "files/a.txt"), "files/a.txt");
    assert_eq!(storage_key("local", "thumbnails/a.jpg"), "thumbnails/a.jpg");
    assert_eq!(storage_key("s3", "uploads/files/a.txt"), "uploads/files/a.txt");
    assert_eq!(storage_key("local", "s3://files/a.txt"), "s3://files/a.txt");
    assert_eq!(storage_key("anything", "uploads/x"), "x");
}

#[test]
fn locators_lead_back_to_their_keys() {
    for use_s3 in [false, true] {
        let backend = init_storage(&storage_config(use_s3, None));
        for key in ["files/a.txt", "thumbnails/b.jpg", "", "uploads/x", "s3://y"] {
            let locator = backend.upload(key, Ok(())).expect("written");
            assert_eq!(storage_key(&backend.storage_type(), &locator), key);
        }
    }
}

#[test]
fn storage_errors_describe_themselves() {
    assert_eq!(StorageError::NotFound("k".to_string()).to_string(), "File not found: k");
    assert_eq!(StorageError::IoError("e".to_string()).to_string(), "Io Error: e");
    assert_eq!(StorageError::UploadError("e".to_string()).to_string(), "Upload Error: e");
    assert_eq!(StorageError::DeleteError("e".to_string()).to_string(), "Delete Error: e");
}
