//! Fetches one comic's metadata, decodes it, and renders it as text or JSON.
//!
//! The library holds every decision of a run: the metadata URL, the decoding
//! of the response body into a comic record, the file name an image is saved
//! under, and the exact bytes written to standard output. The program around
//! it performs the network and file system work.
pub mod client;
pub mod comic;
pub mod config;
pub mod decimal;
pub mod error;
pub mod json;
pub mod url_name;
