//! The client that authenticates with a secret.

use crate::api::authz::AuthInfo;
use std::collections::HashMap;
use vstd::prelude::*;

verus! {

/// An authorization check as an HTTP request describes it.
pub struct AuthzRequest {
    pub auth_info: Option<AuthInfo>,
    pub url: String,
    pub method: String,
    pub headers: Option<HashMap<String, String>>,
    pub version: String,
}

/// A client that signs with a secret: the secret's id and its key.
#[derive(Debug)]
pub struct IAMClient<'a> {
    id: &'a str,
    key: &'a str,
}

impl<'a> View for IAMClient<'a> {
    type V = (Seq<char>, Seq<char>);

    /// The id and the key, in that order.
    closed spec fn view(&self) -> (Seq<char>, Seq<char>) {
        (self.id@, self.key@)
    }
}

impl<'a> IAMClient<'a> {
    /// A client for the secret with the given id and key.
    pub fn from_secret(id: &'a str, key: &'a str) -> (client: Self)
        ensures
            client@ == (id@, key@),
    {
        IAMClient { id, key }
    }
}

} // verus!
