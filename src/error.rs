//! The failures a call can end in.
use vstd::prelude::*;

verus! {

/// Why a client could not be built or a call did not produce its value.
#[derive(Debug)]
pub enum ClientError {
    /// A credential file could not be opened or read.
    CredentialIo { message: String },
    /// Certificate or key bytes could not be parsed.
    CredentialFormat { message: String },
    /// The arguments of a call break its precondition; nothing was sent.
    InvalidArgument { message: String },
    /// The transport failed: name resolution, connection, TLS handshake, reset or timeout.
    Network { message: String },
    /// The service answered with a status other than `200 OK`.
    BadStatus { status: u16, url: String },
    /// The response body grew past the size limit while it was read.
    ResponseTooLarge { limit: usize },
    /// The response body is not JSON, or not of the shape the endpoint answers with.
    JsonParse { body: String, cause: String },
    /// The service understood the request and answered `success: false`.
    RemoteOperationFailed { endpoint: String },
}

} // verus!
