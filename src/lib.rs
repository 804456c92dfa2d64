//! An asset reader that fetches named assets over HTTP from a configured base URL.
//!
//! The library holds the logic of the reader: how a logical asset path, in which a
//! caller-chosen escape sequence may stand for a separator, becomes the path of a
//! request, and how what the transport answered becomes bytes or a typed failure.
//! Performing the requests is left to the embedding application.
pub mod fetch;
pub mod path;
pub mod reader;

pub use fetch::{IoFailure, ReadError, Reply};
pub use reader::{ConfigError, HttpAssetReader, HttpAssetReaderPlugin, REQUEST_TIMEOUT_SECS};
