//! Secrets kept in the connector's vault.
use vstd::prelude::*;

verus! {

/// A secret to be created; the connector picks the identifier where none is given.
#[derive(Debug, Clone)]
pub struct NewSecret {
    pub id: Option<String>,
    pub value: String,
}

/// Builds a `NewSecret`.
pub struct NewSecretBuilder {
    pub id: Option<String>,
    pub value: String,
}

/// A secret as the connector stores it.
#[derive(Debug, Clone)]
pub struct Secret {
    pub id: String,
    pub value: String,
}

/// Builds a `Secret`.
pub struct SecretBuilder {
    pub id: String,
    pub value: String,
}

impl NewSecret {
    /// A builder for a secret holding `value`, with no identifier yet.
    pub fn builder(value: &str) -> (r: NewSecretBuilder)
        ensures
            r.id is None,
            r.value@ == value@,
    {
        NewSecretBuilder { id: None, value: value.to_owned() }
    }
}

impl NewSecretBuilder {
    pub fn id(self, id: &str) -> (r: Self)
        ensures
            r.id is Some && r.id->Some_0@ == id@,
            r.value == self.value,
    {
        NewSecretBuilder { id: Some(id.to_owned()), value: self.value }
    }

    pub fn build(self) -> (r: NewSecret)
        ensures
            r.id == self.id,
            r.value == self.value,
    {
        NewSecret { id: self.id, value: self.value }
    }
}

impl Secret {
    /// A builder for secret `id` holding `value`.
    pub fn builder(id: &str, value: &str) -> (r: SecretBuilder)
        ensures
            r.id@ == id@,
            r.value@ == value@,
    {
        SecretBuilder { id: id.to_owned(), value: value.to_owned() }
    }

    pub fn value(&self) -> (r: &str)
        ensures
            r@ == self.value@,
    {
        self.value.as_str()
    }

    pub fn id(&self) -> (r: &str)
        ensures
            r@ == self.id@,
    {
        self.id.as_str()
    }
}

impl SecretBuilder {
    pub fn build(self) -> (r: Secret)
        ensures
            r.id == self.id,
            r.value == self.value,
    {
        Secret { id: self.id, value: self.value }
    }
}

} // verus!
