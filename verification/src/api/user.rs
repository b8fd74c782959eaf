//! Users of the service.

use crate::api::meta::{ListMeta, ObjectMeta};
use crate::clock::{now, Timestamp};
use crate::error::Error;
use vstd::prelude::*;

verus! {

/// A stored user.
#[derive(Debug)]
pub struct User {
    pub meta: ObjectMeta,
    pub username: String,
    pub password: String,
    pub is_admin: bool,
    pub login_at: Timestamp,
    pub total_policy: u64,
}

impl User {
    /// The table that holds the users.
    pub fn table_name() -> (name: &'static str)
        ensures
            name@ == "user"@,
    {
        "user"
    }

    /// Before the user is created: nothing to do.
    pub fn _before_create(&mut self) -> (done: Result<(), Error>)
        ensures
            done is Ok,
            *final(self) == *old(self),
    {
        Ok(())
    }

    /// Before the user is updated: nothing to do.
    pub fn _before_update(&mut self) -> (done: Result<(), Error>)
        ensures
            done is Ok,
            *final(self) == *old(self),
    {
        Ok(())
    }

    /// After the user is found: nothing to do.
    pub fn _after_find(&mut self) -> (done: Result<(), Error>)
        ensures
            done is Ok,
            *final(self) == *old(self),
    {
        Ok(())
    }
}

impl User {
    /// A sample administrator with the given metadata, who logged in at the
    /// given moment.
    pub fn sample(meta: ObjectMeta, login_at: Timestamp) -> (user: Self)
        ensures
            user.meta == meta,
            user.username@ == "admin"@,
            user.password@ == "admin"@,
            user.is_admin,
            user.login_at == login_at,
            user.total_policy == 8,
    {
        User {
            meta,
            username: "admin".to_owned(),
            password: "admin".to_owned(),
            is_admin: true,
            login_at,
            total_policy: 8_u64,
        }
    }
}

impl Default for User {
    /// A sample administrator with the sample metadata, who logged in at the
    /// current time. The clock is read for each stamp, so nothing is said of
    /// them.
    fn default() -> (user: Self)
        ensures
            user.meta.id == 123,
            user.meta.instance_id@ == "instance_id"@,
            user.meta.name@ == "name-123fsz"@,
            user.meta.extend is None,
            user.meta.extend_shadow@ == ""@,
            user.username@ == "admin"@,
            user.password@ == "admin"@,
            user.is_admin,
            user.total_policy == 8,
    {
        User::sample(ObjectMeta::default(), now())
    }
}

/// One page of users.
#[derive(Debug)]
pub struct UserList {
    pub meta: ListMeta,
    pub items: Vec<User>,
}

} // verus!
