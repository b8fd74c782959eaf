//! What a login sends and what it gets back.

use crate::clock::Timestamp;
use vstd::prelude::*;

verus! {

/// The answer to a login: a token and the moment at which it expires.
#[derive(Debug)]
pub struct LoginResponse {
    pub token: String,
    pub expire: Timestamp,
}

/// The credentials that a login sends.
#[derive(Debug)]
pub struct UserNamePassword {
    pub username: String,
    pub password: String,
}

} // verus!
