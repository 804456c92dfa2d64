//! The remote reader and the configuration from which it is built.
use vstd::prelude::*;

use crate::path::{meta_path, resolve_path, unescape};

verus! {

/// How many seconds each request may take before it is given up.
pub const REQUEST_TIMEOUT_SECS: u64 = 5;

#[verifier::external_type_specification]
#[verifier::external_body]
pub struct ExUrl(surf::Url);

#[verifier::external_type_specification]
#[verifier::external_body]
pub struct ExParseError(surf::http::url::ParseError);

/// Whether `input` parses as an absolute URL.
pub uninterp spec fn parses_as_absolute_url(input: Seq<char>) -> bool;

/// Relies on url's `Url::parse` (re-exported by surf): it succeeds exactly on the
/// inputs that parse as an absolute URL, and an absolute URL has a scheme that
/// ends in a colon, so an input without a colon is refused.
pub assume_specification[ surf::Url::parse ](input: &str) -> (r: Result<
    surf::Url,
    surf::http::url::ParseError,
>)
    ensures
        r is Ok <==> parses_as_absolute_url(input@),
        (forall|i: int| 0 <= i < input@.len() ==> input@[i] != ':') ==> r is Err,
;

/// A configuration that cannot give a reader.
#[derive(Debug)]
pub enum ConfigError {
    /// The base URL does not parse as an absolute URL; the parser's reason.
    InvalidBaseUrl(surf::http::url::ParseError),
}

/// A reader of assets over HTTP: each request goes to a path under one base URL,
/// and an escape sequence in a logical path stands for a separator. Both are
/// fixed when the reader is built.
pub struct HttpAssetReader {
    base_url: surf::Url,
    fake_slash: String,
}

impl HttpAssetReader {
    /// The escape sequence that this reader turns into separators.
    pub closed spec fn escape(&self) -> Seq<char> {
        self.fake_slash@
    }

    /// Builds a reader for the base URL `base_url`, which must parse as an
    /// absolute URL, with the escape sequence `fake_slash`.
    pub fn new(base_url: &str, fake_slash: String) -> (r: Result<HttpAssetReader, ConfigError>)
        ensures
            r is Ok <==> parses_as_absolute_url(base_url@),
            (forall|i: int| 0 <= i < base_url@.len() ==> base_url@[i] != ':') ==> r is Err,
            r matches Ok(reader) ==> reader.escape() == fake_slash@,
    {
        match surf::Url::parse(base_url) {
            Ok(url) => Ok(HttpAssetReader { base_url: url, fake_slash }),
            Err(e) => Err(ConfigError::InvalidBaseUrl(e)),
        }
    }

    /// The base URL under which requests are made.
    pub fn base_url(&self) -> &surf::Url {
        &self.base_url
    }

    /// The escape sequence that this reader turns into separators.
    pub fn fake_slash(&self) -> (r: &str)
        ensures
            r@ == self.escape(),
    {
        self.fake_slash.as_str()
    }

    /// The request path of the asset at logical path `path`.
    pub fn resolve(&self, path: &str) -> (r: String)
        ensures
            r@ == unescape(path@, self.escape()),
    {
        resolve_path(path, self.fake_slash.as_str())
    }

    /// The request path of the metadata sidecar of the asset at logical path `path`.
    pub fn resolve_meta(&self, path: &str) -> (r: String)
        ensures
            r@ == meta_path(path@, self.escape()),
    {
        let mut r = self.resolve(path);
        r.append(".meta");
        proof {
            reveal_strlit(".meta");
        }
        r
    }

    /// Listing a directory is not offered over HTTP: the listing is always empty.
    pub fn read_directory(&self, _path: &str) -> (r: Vec<String>)
        ensures
            r@.len() == 0,
    {
        Vec::new()
    }

    /// Remote sources are flat: no path is a directory.
    pub fn is_directory(&self, _path: &str) -> (r: bool)
        ensures
            !r,
    {
        false
    }
}

/// The configuration of a named asset source served by an `HttpAssetReader`.
pub struct HttpAssetReaderPlugin {
    /// The name under which the source is registered.
    pub id: String,
    /// The base URL of the source's reader.
    pub base_url: String,
    /// The escape sequence of the source's reader.
    pub fake_slash: String,
}

impl HttpAssetReaderPlugin {
    /// Builds the reader of this source.
    pub fn make_reader(&self) -> (r: Result<HttpAssetReader, ConfigError>)
        ensures
            r is Ok <==> parses_as_absolute_url(self.base_url@),
            (forall|i: int| 0 <= i < self.base_url@.len() ==> self.base_url@[i] != ':') ==> r is Err,
            r matches Ok(reader) ==> reader.escape() == self.fake_slash@,
    {
        HttpAssetReader::new(self.base_url.as_str(), self.fake_slash.clone())
    }
}

} // verus!
