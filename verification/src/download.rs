//! Planning an image download: validating the URL, judging the HTTP status,
//! and laying out the filesystem effect. The network and file I/O itself is
//! performed by the caller, exactly as a returned plan directs.

use vstd::prelude::*;
use crate::text::{dec_rep, u64_to_dec};
use crate::urlinfo::{parse_url, url_normal, url_ok, url_scheme};

verus! {

/// Everything that can go wrong while downloading an image.
#[derive(Debug)]
pub enum DownloadError {
    /// The URL string does not parse.
    InvalidUrl,
    /// The URL parsed, but its scheme is neither `http` nor `https`;
    /// carries the offending scheme.
    UnsupportedScheme(String),
    /// The GET request itself failed; carries the transport error text.
    RequestFailed(String),
    /// The response status was outside the success range.
    BadStatus(u16),
    /// Reading the response body failed; carries the error text.
    BodyReadFailed(String),
    /// Creating the destination's parent directory failed; carries the error text.
    CreateDirFailed(String),
    /// Writing the destination file failed; carries the error text.
    WriteFailed(String),
}

/// The schemes the download command accepts.
pub open spec fn scheme_allowed(s: Seq<char>) -> bool {
    s == "http"@ || s == "https"@
}

pub open spec fn status_is_success(status: u16) -> bool {
    200 <= status < 300
}

/// The filesystem effect of a successful download: optionally create a
/// parent directory, then write `bytes` to `path`.
pub struct WriteJob {
    /// Parent directory to create (with any missing ancestors) before writing,
    /// when the destination has a non-empty parent component.
    pub parent: Option<String>,
    /// Destination path, written (or overwritten) with the body.
    pub path: String,
    /// The full response body.
    pub bytes: Vec<u8>,
}

/// The parent component that `std::path::Path::parent` gives for a path
/// string, itself a pure function of that string.
pub uninterp spec fn path_parent(p: Seq<char>) -> Option<Seq<char>>;

/// Relies on `std::path::Path::parent`: the path without its final component,
/// `None` for an empty or root path. The parent of a UTF-8 string path is a
/// substring of it, so `to_str` on it always succeeds.
#[verifier::external_body]
fn parent_of(path: &str) -> (r: Option<String>)
    ensures
        r is Some <==> path_parent(path@) is Some,
        r is Some ==> r->Some_0@ == path_parent(path@)->Some_0,
{
    std::path::Path::new(path).parent().and_then(|p| p.to_str()).map(|p| p.to_string())
}

/// Validates a download URL. Returns the parser's normalized URL to fetch,
/// or the error to surface: `InvalidUrl` exactly when the string does not
/// parse, `UnsupportedScheme` (naming the scheme) exactly when it parses to a
/// scheme other than `http` or `https`. No network or filesystem action is
/// part of an error outcome.
pub fn plan_download(url: &str) -> (r: Result<String, DownloadError>)
    ensures
        r is Ok <==> url_ok(url@) && scheme_allowed(url_scheme(url@)),
        r is Ok ==> r->Ok_0@ == url_normal(url@),
        !url_ok(url@) ==> r == Err::<String, DownloadError>(DownloadError::InvalidUrl),
        url_ok(url@) && !scheme_allowed(url_scheme(url@)) ==> (r->Err_0 is UnsupportedScheme
            && r->Err_0->UnsupportedScheme_0@ == url_scheme(url@)),
{
    match parse_url(url) {
        None => Err(DownloadError::InvalidUrl),
        Some(info) => {
            let ok = crate::text::str_eq(info.scheme.as_str(), "http") || crate::text::str_eq(
                info.scheme.as_str(),
                "https",
            );
            if ok {
                Ok(info.normalized)
            } else {
                Err(DownloadError::UnsupportedScheme(info.scheme))
            }
        },
    }
}

/// Judges the fetched response and lays out the write. Succeeds exactly on a
/// success status (2xx); the job then carries the body unchanged, the given
/// destination path, and the destination's non-empty parent component, if it
/// has one, as the directory to create. On any other status the command
/// fails with that status and plans no filesystem action.
pub fn plan_after_response(status: u16, body: Vec<u8>, dest: &str) -> (r: Result<
    WriteJob,
    DownloadError,
>)
    ensures
        r is Ok <==> status_is_success(status),
        !status_is_success(status) ==> (r->Err_0 is BadStatus && r->Err_0->BadStatus_0 == status),
        r is Ok ==> r->Ok_0.bytes@ == body@,
        r is Ok ==> r->Ok_0.path@ == dest@,
        r is Ok ==> (r->Ok_0.parent is Some <==> (path_parent(dest@) is Some && path_parent(
            dest@,
        )->Some_0.len() > 0)),
        r is Ok && r->Ok_0.parent is Some ==> r->Ok_0.parent->Some_0@ == path_parent(
            dest@,
        )->Some_0,
{
    if !(200 <= status && status < 300) {
        return Err(DownloadError::BadStatus(status));
    }
    let parent = match parent_of(dest) {
        Some(p) => if p.as_str().unicode_len() > 0 {
            Some(p)
        } else {
            None
        },
        None => None,
    };
    Ok(WriteJob { parent, path: dest.to_owned(), bytes: body })
}

/// The human-readable text of each error.
pub open spec fn message_chars(e: DownloadError) -> Seq<char> {
    match e {
        DownloadError::InvalidUrl => "invalid url"@,
        DownloadError::UnsupportedScheme(s) => "unsupported url scheme: "@ + s@,
        DownloadError::RequestFailed(s) => "request failed: "@ + s@,
        DownloadError::BadStatus(c) => "request failed with status: "@ + dec_rep(c as nat),
        DownloadError::BodyReadFailed(s) => "failed to read response body: "@ + s@,
        DownloadError::CreateDirFailed(s) => "failed to create parent directory: "@ + s@,
        DownloadError::WriteFailed(s) => "failed to write file: "@ + s@,
    }
}

impl DownloadError {
    /// The descriptive string surfaced across the bridge.
    pub fn message(&self) -> (r: String)
        ensures
            r@ == message_chars(*self),
    {
        match self {
            DownloadError::InvalidUrl => String::from_str("invalid url"),
            DownloadError::UnsupportedScheme(s) => String::from_str(
                "unsupported url scheme: ",
            ).concat(s.as_str()),
            DownloadError::RequestFailed(s) => String::from_str("request failed: ").concat(
                s.as_str(),
            ),
            DownloadError::BadStatus(c) => String::from_str("request failed with status: ").concat(
                u64_to_dec(*c as u64).as_str(),
            ),
            DownloadError::BodyReadFailed(s) => String::from_str(
                "failed to read response body: ",
            ).concat(s.as_str()),
            DownloadError::CreateDirFailed(s) => String::from_str(
                "failed to create parent directory: ",
            ).concat(s.as_str()),
            DownloadError::WriteFailed(s) => String::from_str("failed to write file: ").concat(
                s.as_str(),
            ),
        }
    }
}

} // verus!
