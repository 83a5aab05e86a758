//! The backend that keeps blobs as objects of one bucket of an S3-compatible
//! service.

use vstd::prelude::*;
use vstd::string::StringExecFns;
use crate::config::Config;
use crate::text::text_view;
use crate::text::{contains, has_infix};
use super::{Fetched, Removed, StorageError, StorageErrorView};

verus! {

/// Fixed credentials for a service reached at an endpoint of its own.
#[derive(Debug, Clone, PartialEq, Eq)]
pub struct S3Credentials {
    pub access_key: String,
    pub secret_key: String,
}

/// How the bucket of the service is reached. Requests address the bucket in
/// path style.
#[derive(Debug, Clone, PartialEq, Eq)]
pub struct S3Storage {
    pub bucket: String,
    /// The region tried first; the environment's region and then `us-east-1`
    /// stand behind it.
    pub region: String,
    /// The endpoint that replaces the service's own, if any.
    pub endpoint: Option<String>,
    /// Present exactly when an endpoint is.
    pub credentials: Option<S3Credentials>,
}

/// An [`S3Storage`] with its texts as sequences of characters; the
/// credentials are the access key and the secret key.
pub struct S3StorageView {
    pub bucket: Seq<char>,
    pub region: Seq<char>,
    pub endpoint: Option<Seq<char>>,
    pub credentials: Option<(Seq<char>, Seq<char>)>,
}

impl View for S3Storage {
    type V = S3StorageView;

    open spec fn view(&self) -> S3StorageView {
        S3StorageView {
            bucket: self.bucket@,
            region: self.region@,
            endpoint: text_view(self.endpoint),
            credentials: match self.credentials {
                Some(c) => Some((c.access_key@, c.secret_key@)),
                None => None,
            },
        }
    }
}

/// The locator of the object stored under `key`: `s3://{key}`.
pub open spec fn s3_locator(key: Seq<char>) -> Seq<char> {
    "s3://"@ + key
}

/// Whether the service's answer to a failed bucket creation says that the
/// bucket is there already, or that creating it is under way.
pub open spec fn says_bucket_exists(message: Seq<char>) -> bool {
    has_infix(message, "BucketAlreadyOwnedByYou"@) || has_infix(message, "BucketAlreadyExists"@)
        || has_infix(message, "YourPreviousRequestToCreateTheBucket"@)
}

/// What is known of the bucket once it has been ensured.
#[derive(Debug, PartialEq, Eq, Structural, Clone, Copy)]
pub enum BucketStatus {
    /// The bucket was created.
    Created,
    /// Creating it failed because it exists.
    AlreadyExists,
    /// Creating it failed for another reason, but it answers a probe.
    Verified,
    /// It could neither be created nor found.
    Missing,
}

/// How far ensuring the bucket has come.
#[derive(Debug, PartialEq, Eq, Structural, Clone, Copy)]
pub enum BucketState {
    /// Nothing was asked of the service yet.
    Idle,
    /// The service was asked to create the bucket.
    Creating,
    /// The service was asked whether the bucket exists.
    Probing,
    /// Nothing is left to ask.
    Settled(BucketStatus),
}

/// What the service answered to the last request.
#[derive(Debug, PartialEq, Eq)]
pub enum BucketEvent {
    /// No request was made yet.
    Begin,
    /// The request succeeded.
    Succeeded,
    /// The request failed, with the service's message.
    Failed(String),
}

/// What to ask of the service next.
#[derive(Debug, PartialEq, Eq, Structural, Clone, Copy)]
pub enum BucketAction {
    CreateBucket,
    HeadBucket,
    /// Nothing: the state says how it ended.
    Finish,
}

/// The step from `state` on the answer `event`. Creation is tried first; a
/// failure that says the bucket exists settles it, any other failure is
/// followed by one probe. An answer that the state does not wait for changes
/// nothing.
pub open spec fn bucket_step(state: BucketState, event: BucketEvent) -> (BucketState, BucketAction) {
    match (state, event) {
        (BucketState::Idle, BucketEvent::Begin) => (BucketState::Creating, BucketAction::CreateBucket),
        (BucketState::Creating, BucketEvent::Succeeded) => (
            BucketState::Settled(BucketStatus::Created),
            BucketAction::Finish,
        ),
        (BucketState::Creating, BucketEvent::Failed(message)) => if says_bucket_exists(message@) {
            (BucketState::Settled(BucketStatus::AlreadyExists), BucketAction::Finish)
        } else {
            (BucketState::Probing, BucketAction::HeadBucket)
        },
        (BucketState::Probing, BucketEvent::Succeeded) => (
            BucketState::Settled(BucketStatus::Verified),
            BucketAction::Finish,
        ),
        (BucketState::Probing, BucketEvent::Failed(_)) => (
            BucketState::Settled(BucketStatus::Missing),
            BucketAction::Finish,
        ),
        _ => (state, BucketAction::Finish),
    }
}

impl S3Storage {
    /// The way to the bucket that `config` names. Credentials are fixed only
    /// where the configuration overrides the endpoint.
    pub fn new(config: &Config) -> (storage: S3Storage)
        ensures
            storage@.bucket == config@.s3_bucket,
            storage@.region == config@.s3_region,
            storage@.endpoint == config@.s3_endpoint,
            storage@.credentials == if config@.s3_endpoint.is_some() {
                Some((config@.s3_access_key, config@.s3_secret_key))
            } else {
                None
            },
    {
        let credentials = match &config.s3_endpoint {
            Some(_) => Some(
                S3Credentials {
                    access_key: config.s3_access_key.clone(),
                    secret_key: config.s3_secret_key.clone(),
                },
            ),
            None => None,
        };
        S3Storage {
            bucket: config.s3_bucket.clone(),
            region: config.s3_region.clone(),
            endpoint: config.s3_endpoint.clone(),
            credentials,
        }
    }

    /// Decides the next request while the bucket is being ensured.
    pub fn ensure_bucket_exists(state: BucketState, event: &BucketEvent) -> (next: (
        BucketState,
        BucketAction,
    ))
        ensures
            next == bucket_step(state, *event),
    {
        match (state, event) {
            (BucketState::Idle, BucketEvent::Begin) => (
                BucketState::Creating,
                BucketAction::CreateBucket,
            ),
            (BucketState::Creating, BucketEvent::Succeeded) => (
                BucketState::Settled(BucketStatus::Created),
                BucketAction::Finish,
            ),
            (BucketState::Creating, BucketEvent::Failed(message)) => {
                if contains(message.as_str(), "BucketAlreadyOwnedByYou") || contains(
                    message.as_str(),
                    "BucketAlreadyExists",
                ) || contains(message.as_str(), "YourPreviousRequestToCreateTheBucket") {
                    (BucketState::Settled(BucketStatus::AlreadyExists), BucketAction::Finish)
                } else {
                    (BucketState::Probing, BucketAction::HeadBucket)
                }
            },
            (BucketState::Probing, BucketEvent::Succeeded) => (
                BucketState::Settled(BucketStatus::Verified),
                BucketAction::Finish,
            ),
            (BucketState::Probing, BucketEvent::Failed(_)) => (
                BucketState::Settled(BucketStatus::Missing),
                BucketAction::Finish,
            ),
            _ => (state, BucketAction::Finish),
        }
    }

    /// The result of an upload under `key`, given how the put request ended:
    /// the object's locator, or the failure as an upload error.
    pub fn upload(&self, key: &str, sent: Result<(), String>) -> (r: Result<String, StorageError>)
        ensures
            match sent {
                Ok(_) => r matches Ok(locator) && locator@ == s3_locator(key@),
                Err(e) => r matches Err(err) && err@ == StorageErrorView::UploadError(e@),
            },
    {
        match sent {
            Ok(_) => Ok(String::from_str("s3://").concat(key)),
            Err(e) => Err(StorageError::UploadError(e)),
        }
    }

    /// The result of a download, given how the get request ended: a request
    /// that the service refused is reported as not found with the service's
    /// message, a body that could not be collected as an I/O error.
    pub fn download(&self, fetched: Fetched) -> (r: Result<Vec<u8>, StorageError>)
        ensures
            match fetched {
                Fetched::Bytes(bytes) => r == Ok::<Vec<u8>, StorageError>(bytes),
                Fetched::Absent(e) => r matches Err(err) && err@ == StorageErrorView::NotFound(e@),
                Fetched::Failed(e) => r matches Err(err) && err@ == StorageErrorView::IoError(e@),
            },
    {
        match fetched {
            Fetched::Bytes(bytes) => Ok(bytes),
            Fetched::Absent(e) => Err(StorageError::NotFound(e)),
            Fetched::Failed(e) => Err(StorageError::IoError(e)),
        }
    }

    /// The result of a delete, given how the delete request ended: whatever
    /// the service accepted is no error, a failure is a delete error.
    pub fn delete(&self, removed: Removed) -> (r: Result<(), StorageError>)
        ensures
            match removed {
                Removed::Done => r is Ok,
                Removed::Absent => r is Ok,
                Removed::Failed(e) => r matches Err(err) && err@ == StorageErrorView::DeleteError(
                    e@,
                ),
            },
    {
        match removed {
            Removed::Done => Ok(()),
            Removed::Absent => Ok(()),
            Removed::Failed(e) => Err(StorageError::DeleteError(e)),
        }
    }
}

} // verus!
