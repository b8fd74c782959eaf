//! The pure parts of the clients that authenticate with a bearer token.

use crate::error::{fresh, Error, ErrorKind};
use vstd::prelude::*;

verus! {

/// The error for a request that failed: of unknown kind, with the words of
/// the failure as its cause.
pub fn request_map_err(why: String) -> (error: Error)
    ensures
        error@ == fresh(ErrorKind::Unknown, Some(why@)),
{
    Error::new_with_str(ErrorKind::Unknown, why)
}

/// The header that carries a bearer token: its name and its value.
pub fn jwt_header(token: String) -> (header: (String, String))
    ensures
        header.0@ == "Authorization"@,
        header.1@ == "Bearer "@ + token@,
{
    let mut value = "Bearer ".to_owned();
    value.append(token.as_str());
    ("Authorization".to_owned(), value)
}

/// `base`, a slash, and `part`.
pub open spec fn joined(base: Seq<char>, part: Seq<char>) -> Seq<char> {
    base + seq!['/'] + part
}

/// `base`, a slash, and `part`, as one text.
fn join(base: &str, part: &str) -> (url: String)
    ensures
        url@ == joined(base@, part@),
{
    proof {
        reveal_strlit("/");
        assert("/"@ == seq!['/']);
    }
    let mut url = base.to_owned();
    url.append("/");
    url.append(part);
    url
}

/// Where the users are: `users` under the root.
pub fn users_url(root_url: &str) -> (url: String)
    ensures
        url@ == joined(root_url@, "users"@),
{
    join(root_url, "users")
}

/// Where the secrets are: `secret` under the root.
pub fn secrets_url(root_url: &str) -> (url: String)
    ensures
        url@ == joined(root_url@, "secret"@),
{
    join(root_url, "secret")
}

/// Where the policies are: `policy` under the root.
pub fn policies_url(root_url: &str) -> (url: String)
    ensures
        url@ == joined(root_url@, "policy"@),
{
    join(root_url, "policy")
}

/// Where authorization is checked: `authz` under the server's address.
pub fn authz_url(address: &str) -> (url: String)
    ensures
        url@ == joined(address@, "authz"@),
{
    join(address, "authz")
}

/// Where one resource is: its name under the address of its collection.
pub fn named_url(collection_url: &str, name: &str) -> (url: String)
    ensures
        url@ == joined(collection_url@, name@),
{
    join(collection_url, name)
}

} // verus!
