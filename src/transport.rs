//! Decisions of the request/response exchange that do not need the network: the status check,
//! the bounded response body and the client credentials.
use vstd::prelude::*;

use crate::error::ClientError;

verus! {

/// The only status whose body is decoded.
pub const STATUS_OK: u16 = 200;

/// The largest response body that is read, in bytes (50 MiB).
pub const RESPONSE_SIZE_LIMIT: usize = 52428800;

/// The time a whole exchange may take, in seconds.
pub const REQUEST_TIMEOUT_SECS: u64 = 300;

/// Accepts status `200 OK` and refuses any other, naming the status and the URL of the request.
pub fn check_status(status: u16, url: &str) -> (r: Result<(), ClientError>)
    ensures
        r is Ok <==> status == STATUS_OK,
        r matches Err(e) ==> (e matches ClientError::BadStatus { status: s, url: u } && s == status
            && u@ == url@),
{
    if status == STATUS_OK {
        Ok(())
    } else {
        Err(ClientError::BadStatus { status, url: String::from_str(url) })
    }
}

/// A response body read chunk by chunk, never holding more than its limit.
pub struct BoundedBody {
    bytes: Vec<u8>,
    limit: usize,
}

impl View for BoundedBody {
    type V = Seq<u8>;

    closed spec fn view(&self) -> Seq<u8> {
        self.bytes@
    }
}

impl BoundedBody {
    /// The number of bytes the body may hold.
    pub closed spec fn limit_spec(&self) -> nat {
        self.limit as nat
    }

    /// The body holds no more than its limit.
    pub open spec fn wf(&self) -> bool {
        self@.len() <= self.limit_spec()
    }

    /// An empty body that will hold at most `limit` bytes.
    pub fn new(limit: usize) -> (r: BoundedBody)
        ensures
            r.wf(),
            r@ == Seq::<u8>::empty(),
            r.limit_spec() == limit,
    {
        BoundedBody { bytes: Vec::new(), limit }
    }

    /// The bytes the body may hold.
    pub fn limit(&self) -> (r: usize)
        ensures
            r == self.limit_spec(),
    {
        self.limit
    }

    /// The number of bytes read so far.
    pub fn len(&self) -> (r: usize)
        requires
            self.wf(),
        ensures
            r == self@.len(),
    {
        self.bytes.len()
    }

    /// Appends `chunk` when the body stays within its limit; otherwise refuses it with
    /// `ResponseTooLarge`, before any of it is kept, and leaves the body as it was.
    pub fn push_chunk(&mut self, chunk: &[u8]) -> (r: Result<(), ClientError>)
        requires
            old(self).wf(),
        ensures
            final(self).wf(),
            final(self).limit_spec() == old(self).limit_spec(),
            r is Ok <==> old(self)@.len() + chunk@.len() <= old(self).limit_spec(),
            r is Ok ==> final(self)@ == old(self)@ + chunk@,
            r matches Err(e) ==> final(self)@ == old(self)@,
            r matches Err(e) ==> (e matches ClientError::ResponseTooLarge { limit }
                && limit == old(self).limit_spec()),
    {
        if chunk.len() > self.limit - self.bytes.len() {
            return Err(ClientError::ResponseTooLarge { limit: self.limit });
        }
        let ghost start = self.bytes@;
        let mut i: usize = 0;
        while i < chunk.len()
            invariant
                i <= chunk@.len(),
                start.len() + chunk@.len() <= self.limit,
                self.limit == old(self).limit,
                self.bytes@ == start + chunk@.subrange(0, i as int),
            decreases chunk@.len() - i,
        {
            self.bytes.push(chunk[i]);
            i = i + 1;
            proof {
                assert(chunk@.subrange(0, i as int) =~= chunk@.subrange(0, i - 1) + seq![chunk@[i - 1]]);
            }
        }
        proof {
            assert(chunk@.subrange(0, chunk@.len() as int) =~= chunk@);
        }
        Ok(())
    }

    /// The bytes read, in order.
    pub fn into_bytes(self) -> (r: Vec<u8>)
        ensures
            r@ == self@,
    {
        self.bytes
    }
}

#[verifier::external_type_specification]
#[verifier::external_body]
pub struct ExCertificate(reqwest::Certificate);

#[verifier::external_type_specification]
#[verifier::external_body]
pub struct ExIdentity(reqwest::Identity);

/// Whether the server's certificate is checked against the root certificate.
pub enum ServerVerification {
    /// Check it (the default).
    Verify,
    /// Accept any server certificate; for development against a local node only.
    SkipForDevelopment,
}

impl Default for ServerVerification {
    fn default() -> (r: ServerVerification)
        ensures
            r is Verify,
    {
        ServerVerification::Verify
    }
}

/// What a client authenticates with and how it treats the server: the root certificate the
/// server is checked against (when it is checked), the client's key and certificate, and the
/// time an exchange may take.
pub struct Credentials {
    pub root: Option<reqwest::Certificate>,
    pub identity: reqwest::Identity,
    pub verification: ServerVerification,
    pub timeout_secs: u64,
}

/// Whether reqwest accepts `pem` as a private key followed by its certificate chain.
pub uninterp spec fn identity_pem_accepted(pem: Seq<u8>) -> bool;

/// Relies on reqwest::Identity::from_pem (rustls backend): parses a PEM private key and
/// certificate chain; whether it succeeds depends on the bytes alone.
#[verifier::external_body]
fn identity_from_pem(pem: &Vec<u8>) -> (r: Result<reqwest::Identity, String>)
    ensures
        r is Ok <==> identity_pem_accepted(pem@),
{
    reqwest::Identity::from_pem(pem).map_err(|e| e.to_string())
}

/// Relies on reqwest::Certificate::from_pem (rustls backend), which keeps the PEM bytes for the
/// client builder to parse and always succeeds.
#[verifier::external_body]
fn certificate_from_pem(pem: &Vec<u8>) -> (r: Result<reqwest::Certificate, String>)
    ensures
        r is Ok,
{
    reqwest::Certificate::from_pem(pem).map_err(|e| e.to_string())
}

/// The private key, a line break, then the certificate: the PEM of the client's identity.
pub open spec fn identity_pem(cert_pem: Seq<u8>, key_pem: Seq<u8>) -> Seq<u8> {
    key_pem + seq![10u8] + cert_pem
}

fn join_identity(cert_pem: &Vec<u8>, key_pem: &Vec<u8>) -> (r: Vec<u8>)
    ensures
        r@ == identity_pem(cert_pem@, key_pem@),
{
    let mut r: Vec<u8> = Vec::new();
    let mut i: usize = 0;
    while i < key_pem.len()
        invariant
            i <= key_pem@.len(),
            r@ == key_pem@.subrange(0, i as int),
        decreases key_pem@.len() - i,
    {
        r.push(key_pem[i]);
        i = i + 1;
        proof {
            assert(r@ =~= key_pem@.subrange(0, i as int));
        }
    }
    r.push(10u8);
    let ghost head = r@;
    let mut j: usize = 0;
    while j < cert_pem.len()
        invariant
            j <= cert_pem@.len(),
            r@ == head + cert_pem@.subrange(0, j as int),
        decreases cert_pem@.len() - j,
    {
        r.push(cert_pem[j]);
        j = j + 1;
        proof {
            assert(r@ =~= head + cert_pem@.subrange(0, j as int));
        }
    }
    proof {
        assert(key_pem@.subrange(0, key_pem@.len() as int) =~= key_pem@);
        assert(cert_pem@.subrange(0, cert_pem@.len() as int) =~= cert_pem@);
        assert(r@ =~= identity_pem(cert_pem@, key_pem@));
    }
    r
}

/// Builds the credentials of a client from the PEM bytes of its certificate and private key.
/// The certificate also serves as the root the server is checked against, when it is checked.
/// Fails with `CredentialFormat` exactly when the key followed by the certificate is not a PEM
/// identity. The root certificate itself is only parsed when the HTTP client is built from the
/// credentials.
pub fn load_credentials(
    cert_pem: &Vec<u8>,
    key_pem: &Vec<u8>,
    verification: ServerVerification,
) -> (r: Result<Credentials, ClientError>)
    ensures
        r is Ok <==> identity_pem_accepted(identity_pem(cert_pem@, key_pem@)),
        r matches Err(e) ==> e is CredentialFormat,
        r matches Ok(c) ==> c.verification == verification && c.timeout_secs == REQUEST_TIMEOUT_SECS
            && (c.root is Some <==> verification is Verify),
{
    let pem = join_identity(cert_pem, key_pem);
    let identity = match identity_from_pem(&pem) {
        Ok(identity) => identity,
        Err(message) => {
            return Err(ClientError::CredentialFormat { message });
        },
    };
    let root = match verification {
        ServerVerification::Verify => match certificate_from_pem(cert_pem) {
            Ok(cert) => Some(cert),
            Err(message) => {
                return Err(ClientError::CredentialFormat { message });
            },
        },
        ServerVerification::SkipForDevelopment => None,
    };
    Ok(Credentials { root, identity, verification, timeout_secs: REQUEST_TIMEOUT_SECS })
}

} // verus!
