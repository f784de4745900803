//! The credentials of one endpoint: the jump host or the switch.

use crate::outcome::{no_address, Failure, RetrievalError};
use vstd::prelude::*;

verus! {

/// What the credentials of an endpoint hold, as text.
pub struct Endpoint {
    pub host: Seq<char>,
    pub username: Seq<char>,
    pub secret: Seq<char>,
}

/// The address, user name and secret of one endpoint. The address is never
/// empty; the secret may be.
#[derive(PartialEq, Eq)]
pub struct EndpointCredentials {
    host: String,
    username: String,
    secret: String,
}

impl View for EndpointCredentials {
    type V = Endpoint;

    closed spec fn view(&self) -> Endpoint {
        Endpoint { host: self.host@, username: self.username@, secret: self.secret@ }
    }
}

/// The secure-shell port, as it follows an address.
pub open spec fn port_suffix() -> Seq<char> {
    ":22"@
}

/// The socket address of the secure-shell service on `host`.
pub open spec fn service_address(host: Seq<char>) -> Seq<char> {
    host + port_suffix()
}

/// The socket address of the secure-shell service on `host`.
pub fn socket_address(host: &str) -> (address: String)
    ensures
        address@ == service_address(host@),
{
    let mut address = String::from_str(host);
    address.append(":22");
    address
}

impl Clone for EndpointCredentials {
    fn clone(&self) -> (copy: EndpointCredentials)
        ensures
            copy@ == self@,
    {
        proof {
            use_type_invariant(self);
        }
        EndpointCredentials {
            host: self.host.clone(),
            username: self.username.clone(),
            secret: self.secret.clone(),
        }
    }
}

impl EndpointCredentials {
    #[verifier::type_invariant]
    spec fn addressed(&self) -> bool {
        self.host@.len() > 0
    }

    /// Credentials for the endpoint at `host`. An empty `host` is no address:
    /// it gives the failure of a connection that cannot be set up.
    pub fn new(host: &str, username: &str, secret: &str) -> (made: Result<
        EndpointCredentials,
        RetrievalError,
    >)
        ensures
            made is Err <==> host@.len() == 0,
            made matches Ok(c) ==> c@ == (Endpoint {
                host: host@,
                username: username@,
                secret: secret@,
            }),
            made matches Err(e) ==> e@ == (Failure::Connect {
                address: host@,
                detail: no_address(),
            }),
    {
        if host.is_empty() {
            Err(
                RetrievalError::Connect {
                    address: String::from_str(host),
                    detail: String::from_str("adresse vide"),
                },
            )
        } else {
            Ok(
                EndpointCredentials {
                    host: String::from_str(host),
                    username: String::from_str(username),
                    secret: String::from_str(secret),
                },
            )
        }
    }

    pub fn host(&self) -> (host: &str)
        ensures
            host@ == self@.host,
            host@.len() > 0,
    {
        proof {
            use_type_invariant(self);
        }
        self.host.as_str()
    }

    pub fn username(&self) -> (username: &str)
        ensures
            username@ == self@.username,
    {
        self.username.as_str()
    }

    pub fn secret(&self) -> (secret: &str)
        ensures
            secret@ == self@.secret,
    {
        self.secret.as_str()
    }

    /// Whether a secret is to be sent at all.
    pub fn has_secret(&self) -> (present: bool)
        ensures
            present == (self@.secret.len() > 0),
    {
        !self.secret.as_str().is_empty()
    }
}

} // verus!
