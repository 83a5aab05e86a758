//! The request handlers, as step functions over events and actions.

pub mod files;
pub mod protocol;
pub mod upload;
pub mod upload_laws;

pub use files::{delete_file, download_file, get_file, get_thummbnail, list_files};
pub use upload::upload_file;
