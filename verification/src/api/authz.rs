//! Authorization checks: the question and the answer.

use std::collections::HashMap;
use vstd::prelude::*;

verus! {

/// The question of an authorization check.
#[derive(Debug)]
pub struct RequestInfo {
    pub info: AuthInfo,
}

/// Who asks to do what on which resource, and in what context.
#[derive(Debug)]
pub struct AuthInfo {
    pub resource: Option<String>,
    pub action: Option<String>,
    pub subject: Option<String>,
    pub context: Option<HashMap<String, serde_json::Value>>,
}

impl RequestInfo {
    /// The question whether `subject` may do `action` on `resource` in the
    /// given context. Every part of it is present.
    pub fn new(
        resource: String,
        action: String,
        subject: String,
        context: HashMap<String, serde_json::Value>,
    ) -> (request: Self)
        ensures
            request.info.resource == Some(resource),
            request.info.action == Some(action),
            request.info.subject == Some(subject),
            request.info.context == Some(context),
    {
        RequestInfo {
            info: AuthInfo {
                resource: Some(resource),
                action: Some(action),
                subject: Some(subject),
                context: Some(context),
            },
        }
    }
}

/// The server's answer to an authorization check.
#[derive(Debug)]
pub struct ResponseInfo {
    pub allowed: bool,
    pub denied: bool,
    pub reason: String,
    pub error: String,
}

} // verus!
