//! Authorization policies.

use crate::api::meta::{ListMeta, ObjectMeta};
use crate::error::Error;
use vstd::prelude::*;

verus! {

/// The body of a policy: who may or may not do what, on what, and when.
#[derive(Debug)]
pub struct PolicyInfo {
    pub id: String,
    pub description: String,
    pub subjects: Vec<String>,
    pub effect: String,
    pub resources: Vec<String>,
    pub actions: Vec<String>,
    pub conditions: Vec<String>,
    pub meta: Vec<u8>,
}

impl Default for PolicyInfo {
    /// The empty policy: every text and every list empty.
    fn default() -> (info: Self)
        ensures
            info.id@.len() == 0,
            info.description@.len() == 0,
            info.subjects@.len() == 0,
            info.effect@.len() == 0,
            info.resources@.len() == 0,
            info.actions@.len() == 0,
            info.conditions@.len() == 0,
            info.meta@.len() == 0,
    {
        PolicyInfo {
            id: String::new(),
            description: String::new(),
            subjects: Vec::new(),
            effect: String::new(),
            resources: Vec::new(),
            actions: Vec::new(),
            conditions: Vec::new(),
            meta: Vec::new(),
        }
    }
}

/// A stored policy.
///
/// `policy` is the policy itself; `policy_shadow` is the text in which it is
/// stored.
#[derive(Debug)]
pub struct Policy {
    pub meta: ObjectMeta,
    pub username: String,
    pub policy: PolicyInfo,
    pub policy_shadow: String,
}

impl Policy {
    /// The table that holds the policies.
    pub fn table_name() -> (name: &'static str)
        ensures
            name@ == "policy"@,
    {
        "policy"
    }

    /// Before the policy is created: nothing to do.
    pub fn _before_create(&mut self) -> (done: Result<(), Error>)
        ensures
            done is Ok,
            *final(self) == *old(self),
    {
        Ok(())
    }

    /// Before the policy is updated: nothing to do.
    pub fn _before_update(&mut self) -> (done: Result<(), Error>)
        ensures
            done is Ok,
            *final(self) == *old(self),
    {
        Ok(())
    }

    /// After the policy is found: nothing to do.
    pub fn _after_find(&mut self) -> (done: Result<(), Error>)
        ensures
            done is Ok,
            *final(self) == *old(self),
    {
        Ok(())
    }
}

/// One page of policies.
#[derive(Debug)]
pub struct PolicyList {
    pub meta: ListMeta,
    pub items: Vec<Policy>,
}

} // verus!
