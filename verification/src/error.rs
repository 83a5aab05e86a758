//! The errors a request can end in, and how each is shown to the client.

use vstd::prelude::*;
use vstd::string::StringExecFns;

verus! {

/// Application-level error of a request.
#[derive(Debug, Clone, PartialEq, Eq)]
pub enum AppError {
    BadRequest(String),
    NotFound(String),
    InternalServerError(String),
    PayloadTooLarge(String),
    UnSupportedMediaType(String),
    MultipartError(String),
    FileProcessingError(String),
    /// A failure of the metadata store, with the store's own description.
    DatabaseError(String),
}

/// An [`AppError`] with its texts as sequences of characters.
pub enum AppErrorView {
    BadRequest(Seq<char>),
    NotFound(Seq<char>),
    InternalServerError(Seq<char>),
    PayloadTooLarge(Seq<char>),
    UnSupportedMediaType(Seq<char>),
    MultipartError(Seq<char>),
    FileProcessingError(Seq<char>),
    DatabaseError(Seq<char>),
}

impl View for AppError {
    type V = AppErrorView;

    open spec fn view(&self) -> AppErrorView {
        match self {
            AppError::BadRequest(m) => AppErrorView::BadRequest(m@),
            AppError::NotFound(m) => AppErrorView::NotFound(m@),
            AppError::InternalServerError(m) => AppErrorView::InternalServerError(m@),
            AppError::PayloadTooLarge(m) => AppErrorView::PayloadTooLarge(m@),
            AppError::UnSupportedMediaType(m) => AppErrorView::UnSupportedMediaType(m@),
            AppError::MultipartError(m) => AppErrorView::MultipartError(m@),
            AppError::FileProcessingError(m) => AppErrorView::FileProcessingError(m@),
            AppError::DatabaseError(m) => AppErrorView::DatabaseError(m@),
        }
    }
}

/// What the client receives for an error: an HTTP status and the text of the
/// `error` member of the JSON body.
#[derive(Debug, Clone, PartialEq, Eq)]
pub struct ErrorResponse {
    pub status: u16,
    pub error: String,
}

impl AppErrorView {
    /// The HTTP status an error is reported with.
    pub open spec fn status(self) -> u16 {
        match self {
            AppErrorView::BadRequest(_) => 400,
            AppErrorView::NotFound(_) => 404,
            AppErrorView::InternalServerError(_) => 500,
            AppErrorView::PayloadTooLarge(_) => 413,
            AppErrorView::UnSupportedMediaType(_) => 415,
            AppErrorView::MultipartError(_) => 400,
            AppErrorView::FileProcessingError(_) => 500,
            AppErrorView::DatabaseError(_) => 500,
        }
    }

    /// The text shown to the client: the error's own message, except for a
    /// store failure, whose details stay on the server.
    pub open spec fn client_message(self) -> Seq<char> {
        match self {
            AppErrorView::BadRequest(m) => m,
            AppErrorView::NotFound(m) => m,
            AppErrorView::InternalServerError(m) => m,
            AppErrorView::PayloadTooLarge(m) => m,
            AppErrorView::UnSupportedMediaType(m) => m,
            AppErrorView::MultipartError(m) => m,
            AppErrorView::FileProcessingError(m) => m,
            AppErrorView::DatabaseError(_) => "Database error"@,
        }
    }

    /// The error's description for logs: a label for its kind and its message;
    /// a store failure is described by the store's text alone.
    pub open spec fn description(self) -> Seq<char> {
        match self {
            AppErrorView::BadRequest(m) => "Bad request: "@ + m,
            AppErrorView::NotFound(m) => "Not found: "@ + m,
            AppErrorView::InternalServerError(m) => "Internal server error: "@ + m,
            AppErrorView::PayloadTooLarge(m) => "Payload too large: "@ + m,
            AppErrorView::UnSupportedMediaType(m) => "Unsupported media type: "@ + m,
            AppErrorView::MultipartError(m) => "Multipart error: "@ + m,
            AppErrorView::FileProcessingError(m) => "File processing error: "@ + m,
            AppErrorView::DatabaseError(m) => m,
        }
    }
}

/// `label` followed by `message`.
fn labelled(label: &str, message: &str) -> (s: String)
    ensures
        s@ == label@ + message@,
{
    String::from_str(label).concat(message)
}

impl AppError {
    /// The HTTP status this error is reported with.
    pub fn status(&self) -> (code: u16)
        ensures
            code == self@.status(),
    {
        match self {
            AppError::BadRequest(_) => 400,
            AppError::NotFound(_) => 404,
            AppError::InternalServerError(_) => 500,
            AppError::PayloadTooLarge(_) => 413,
            AppError::UnSupportedMediaType(_) => 415,
            AppError::MultipartError(_) => 400,
            AppError::FileProcessingError(_) => 500,
            AppError::DatabaseError(_) => 500,
        }
    }

    /// The description of this error for logs.
    pub fn to_string(&self) -> (s: String)
        ensures
            s@ == self@.description(),
    {
        match self {
            AppError::BadRequest(m) => labelled("Bad request: ", m.as_str()),
            AppError::NotFound(m) => labelled("Not found: ", m.as_str()),
            AppError::InternalServerError(m) => labelled("Internal server error: ", m.as_str()),
            AppError::PayloadTooLarge(m) => labelled("Payload too large: ", m.as_str()),
            AppError::UnSupportedMediaType(m) => labelled("Unsupported media type: ", m.as_str()),
            AppError::MultipartError(m) => labelled("Multipart error: ", m.as_str()),
            AppError::FileProcessingError(m) => labelled("File processing error: ", m.as_str()),
            AppError::DatabaseError(m) => m.clone(),
        }
    }

    /// Converts this error into what the client receives.
    pub fn into_response(self) -> (response: ErrorResponse)
        ensures
            response.status == self@.status(),
            response.error@ == self@.client_message(),
    {
        let status: u16 = self.status();
        let error = match self {
            AppError::BadRequest(m) => m,
            AppError::NotFound(m) => m,
            AppError::InternalServerError(m) => m,
            AppError::PayloadTooLarge(m) => m,
            AppError::UnSupportedMediaType(m) => m,
            AppError::MultipartError(m) => m,
            AppError::FileProcessingError(m) => m,
            AppError::DatabaseError(_) => String::from_str("Database error"),
        };
        ErrorResponse { status, error }
    }
}

} // verus!
