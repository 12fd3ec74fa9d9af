//! A typed client core for the JSON-over-HTTPS interface of a blockchain full node and its
//! wallet service: URLs, request bodies, response status and size checks, answer decoding, the
//! client credentials, and the request of each endpoint.
use vstd::prelude::*;

pub mod envelope;
pub mod error;
pub mod node;
pub mod request;
pub mod space;
pub mod transport;
pub mod url;
pub mod wallet;

pub use envelope::{
    decode_members, decode_response, decode_response_bytes, unsigned_value, Field, Member,
};
pub use error::ClientError;
pub use request::{encode_params, json_string_array, Param, ParamValue, RpcRequest};
pub use space::{SpaceByHeight, SpaceStep};
pub use transport::{
    check_status, load_credentials, BoundedBody, Credentials, ServerVerification,
    REQUEST_TIMEOUT_SECS, RESPONSE_SIZE_LIMIT, STATUS_OK,
};
pub use url::{decimal_string, get_url};

verus! {

} // verus!
