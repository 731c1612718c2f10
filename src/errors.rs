//! Errors of the client, one variant per kind of failure.
use vstd::prelude::*;

verus! {

/// Body of a failed call to the token endpoint.
#[derive(Debug, Clone, PartialEq, Eq)]
pub struct DracoonAuthErrorResponse {
    pub status: u16,
    pub error: String,
    pub error_description: Option<String>,
}

/// Body of a failed call to the REST API, or the error details of an upload.
#[derive(Debug, Clone, PartialEq, Eq)]
pub struct DracoonErrorResponse {
    pub status: u16,
    pub code: Option<i64>,
    pub message: String,
}

#[derive(Debug, Clone, PartialEq, Eq)]
pub enum DracoonClientError {
    MissingBaseUrl,
    MissingClientId,
    MissingClientSecret,
    InvalidUrl,
    Auth(DracoonAuthErrorResponse),
    Http(DracoonErrorResponse),
    IoError,
    CryptoError,
    MissingEncryptionSecret,
    UnsupportedStorageMode,
    ConnectionClosed,
    /// A chunk size of zero, above the per-part limit, or one that needs more
    /// parts than a `u32` part number can count.
    InvalidChunkSize,
    /// The server's answer lacks what the protocol requires of it.
    InvalidResponse,
    /// The upload did not reach a final status within the allowed polls.
    UploadTimeout,
}

/// The HTTP status carried by an API error, if the error is one.
pub open spec fn http_status(e: DracoonClientError) -> Option<u16> {
    match e {
        DracoonClientError::Http(r) => Some(r.status),
        _ => None,
    }
}

impl DracoonClientError {
    fn has_http_status(&self, status: u16) -> (r: bool)
        ensures
            r == (http_status(*self) == Some(status)),
    {
        match self {
            DracoonClientError::Http(resp) => resp.status == status,
            _ => false,
        }
    }

    pub fn is_not_found(&self) -> (r: bool)
        ensures
            r == (http_status(*self) == Some(404u16)),
    {
        self.has_http_status(404)
    }

    pub fn is_unauthorized(&self) -> (r: bool)
        ensures
            r == (http_status(*self) == Some(401u16)),
    {
        self.has_http_status(401)
    }

    pub fn is_forbidden(&self) -> (r: bool)
        ensures
            r == (http_status(*self) == Some(403u16)),
    {
        self.has_http_status(403)
    }

    pub fn is_conflict(&self) -> (r: bool)
        ensures
            r == (http_status(*self) == Some(409u16)),
    {
        self.has_http_status(409)
    }

    pub fn is_payload_too_large(&self) -> (r: bool)
        ensures
            r == (http_status(*self) == Some(413u16)),
    {
        self.has_http_status(413)
    }
}

} // verus!
