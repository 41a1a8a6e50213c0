//! Client side ("party two") of a two-party ECDSA wallet protocol: the checks
//! on every reply of the remote party, the order in which the rounds of key
//! generation and signing are run, and the uniform result envelope.
use vstd::prelude::*;
use vstd::string::StringExecFns;

pub mod decimal;
pub mod envelope;
pub mod keygen;
pub mod reply;
pub mod request;
pub mod sign;

verus! {

/// Where the remote party is reached: its base address and, when the session
/// has one, the bearer credential sent with every request.
#[derive(Debug, Clone)]
pub struct ClientShim {
    pub auth_token: Option<String>,
    pub endpoint: String,
}

/// The address of an endpoint: the base address, a slash, and the path.
pub open spec fn url_of(endpoint: Seq<char>, path: Seq<char>) -> Seq<char> {
    endpoint + seq!['/'] + path
}

impl ClientShim {
    pub fn new(endpoint: String, auth_token: Option<String>) -> (r: ClientShim)
        ensures
            r.endpoint == endpoint,
            r.auth_token == auth_token,
    {
        ClientShim { auth_token, endpoint }
    }

    /// The address to which a request for `path` is sent.
    pub fn url(&self, path: &str) -> (r: String)
        ensures
            r@ == url_of(self.endpoint@, path@),
    {
        let mut u = self.endpoint.clone();
        proof { reveal_strlit("/"); }
        u.append("/");
        u.append(path);
        u
    }
}

/// The context put before the error of a failed signing.
pub fn signing_context(endpoint: &str) -> (r: String)
    ensures
        r@ == "signing to endpoint "@ + endpoint@ + " failed: "@,
{
    let mut c = String::from_str("signing to endpoint ");
    c.append(endpoint);
    c.append(" failed: ");
    c
}

} // verus!
