//! Telemetry configuration: the capture endpoint of an analytics store.
//!
//! The store holds the configured key and host; a connection derives the
//! capture endpoint from the host.  Sending an event over the network is
//! outside this library.

use vstd::prelude::*;

verus! {

/// One connection's configuration: the API key and the host it derives its
/// endpoint from.
pub struct PosthogConnection {
    pub api_key: String,
    pub host: String,
}

impl PosthogConnection {
    pub fn new(api_key: &str, host: &str) -> (r: Self)
        ensures
            r.api_key@ == api_key@,
            r.host@ == host@,
    {
        PosthogConnection { api_key: api_key.to_owned(), host: host.to_owned() }
    }

    /// The capture endpoint: the host followed by `/capture`.
    pub fn endpoint(&self) -> (r: String)
        ensures
            r@ == self.host@ + "/capture"@,
    {
        self.host.clone().concat("/capture")
    }
}

/// The analytics store's configuration surface.
pub struct PosthogStore {
    pub api_key: String,
    pub host: String,
}

impl PosthogStore {
    /// A connection configured from this store.
    pub fn get_connection(&self) -> (r: PosthogConnection)
        ensures
            r.api_key@ == self.api_key@,
            r.host@ == self.host@,
    {
        PosthogConnection { api_key: self.api_key.clone(), host: self.host.clone() }
    }
}

} // verus!
