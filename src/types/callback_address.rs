//! Addresses that the connector calls back on events.
use vstd::prelude::*;

verus! {

/// An address called back on the listed events.
#[derive(Debug, PartialEq, Clone)]
pub struct CallbackAddress {
    pub auth: Option<CallbackAddressAuth>,
    pub transactional: bool,
    pub uri: String,
    pub events: Vec<String>,
}

/// The credentials sent along with a call back.
#[derive(Debug, PartialEq, Clone)]
pub struct CallbackAddressAuth {
    pub auth_key: String,
    pub auth_code_id: String,
}

/// Builds a `CallbackAddress`.
pub struct CallbackAddressBuilder {
    pub auth: Option<CallbackAddressAuth>,
    pub transactional: bool,
    pub uri: String,
    pub events: Vec<String>,
}

impl CallbackAddress {
    /// A builder for a non-transactional address `uri` called on `events`,
    /// without credentials.
    pub fn builder(uri: &str, events: Vec<String>) -> (r: CallbackAddressBuilder)
        ensures
            r.auth is None,
            !r.transactional,
            r.uri@ == uri@,
            r.events == events,
    {
        CallbackAddressBuilder { auth: None, transactional: false, uri: uri.to_owned(), events }
    }
}

impl CallbackAddressBuilder {
    /// Sends the key `auth_key` with the secret `auth_code_id` on each call.
    pub fn auth(self, auth_key: &str, auth_code_id: &str) -> (r: Self)
        ensures
            r.auth is Some,
            r.auth->Some_0.auth_key@ == auth_key@,
            r.auth->Some_0.auth_code_id@ == auth_code_id@,
            r.transactional == self.transactional,
            r.uri == self.uri,
            r.events == self.events,
    {
        let mut b = self;
        b.auth = Some(
            CallbackAddressAuth { auth_key: auth_key.to_owned(), auth_code_id: auth_code_id.to_owned() },
        );
        b
    }

    pub fn transactional(self, transactional: bool) -> (r: Self)
        ensures
            r.transactional == transactional,
            r.auth == self.auth,
            r.uri == self.uri,
            r.events == self.events,
    {
        let mut b = self;
        b.transactional = transactional;
        b
    }

    pub fn build(self) -> (r: CallbackAddress)
        ensures
            r.auth == self.auth,
            r.transactional == self.transactional,
            r.uri == self.uri,
            r.events == self.events,
    {
        CallbackAddress {
            auth: self.auth,
            transactional: self.transactional,
            uri: self.uri,
            events: self.events,
        }
    }
}

} // verus!
