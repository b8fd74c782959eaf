//! Secrets: the key pairs that sign requests.

use crate::api::meta::{ListMeta, ObjectMeta};
use crate::error::Error;
use vstd::prelude::*;

verus! {

/// A stored secret.
#[derive(Debug)]
pub struct Secret {
    pub meta: ObjectMeta,
    pub username: String,
    pub description: String,
    pub secret_id: String,
    pub secret_key: String,
    pub expires_at: i64,
}

impl Secret {
    /// The table that holds the secrets.
    pub fn table_name() -> (name: &'static str)
        ensures
            name@ == "secret"@,
    {
        "secret"
    }

    /// Before the secret is created: nothing to do.
    pub fn _before_create(&mut self) -> (done: Result<(), Error>)
        ensures
            done is Ok,
            *final(self) == *old(self),
    {
        Ok(())
    }

    /// Before the secret is updated: nothing to do.
    pub fn _before_update(&mut self) -> (done: Result<(), Error>)
        ensures
            done is Ok,
            *final(self) == *old(self),
    {
        Ok(())
    }

    /// After the secret is found: nothing to do.
    pub fn _after_find(&mut self) -> (done: Result<(), Error>)
        ensures
            done is Ok,
            *final(self) == *old(self),
    {
        Ok(())
    }
}

/// One page of secrets.
#[derive(Debug)]
pub struct SecretList {
    pub meta: ListMeta,
    pub items: Vec<Secret>,
}

} // verus!
