use iam_sdk_rust::api::authz::RequestInfo;
use iam_sdk_rust::error::ErrorKind;
use iam_sdk_rust::iam::chain::{
    authz_url, jwt_header, named_url, policies_url, request_map_err, secrets_url, users_url,
};
use iam_sdk_rust::iam::config::{
    default_max_retries, default_retry_duration_ms, default_timeout_ms, AuthInfo, Config, Flags,
    ServerInfo,
};
use std::collections::HashMap;
use iam_sdk_rust::iam::tradition::IAMClient;

#[derive(Debug)]
enum A {
    Nil,
    Str(u32),
}

#[test]
fn test() {
    println!("{:?}", std::mem::size_of::<A>());
    println!("{:?}", std::mem::size_of_val(&A::Nil));
    println!("{:?}", std::mem::size_of_val(&A::Str(13)));
}

#[test]
fn test_tradition_iam_client() {
    let c = IAMClient::from_secret("id", "key");
    println!("{:?}", c);
}

#[test]
fn client_keeps_the_id_and_the_key() {
    let c = IAMClient::from_secret("id", "key");
    assert_eq!(format!("{:?}", c), "IAMClient { id: \"id\", key: \"key\" }");
}

#[test]
fn bearer_header_carries_the_token() {
    let (name, value) = jwt_header("abc.def.ghi".to_string());
    assert_eq!(name, "Authorization");
    assert_eq!(value, "Bearer abc.def.ghi");
}

#[test]
fn bearer_header_of_an_empty_token() {
    let (name, value) = jwt_header(String::new());
    assert_eq!(name, "Authorization");
    assert_eq!(value, "Bearer ");
}

#[test]
fn server_defaults() {
    assert_eq!(default_timeout_ms(), 1000);
    assert_eq!(default_max_retries(), 3);
    assert_eq!(default_retry_duration_ms(), 1000);
}

#[test]
fn config_clones_field_by_field() {
    let c = Config {
        auth_info: AuthInfo {
            token: "12312312".to_string(),
            username: Some("admin".to_string()),
            password: Some("admin".to_string()),
            secret_id: None,
            secret_key: None,
        },
        server_info: ServerInfo {
            timeout_ms: default_timeout_ms(),
            max_retries: 4,
            retry_duration_ms: 2000,
            address: "127.0.0.1".to_string(),
            use_tls: true,
            skip_tls_verify: true,
            tls_cert: Some("12312312".to_string()),
            tls_cert_data: None,
            tls_key: Some("12312312".to_string()),
            tls_key_data: None,
        },
    };
    let d = c.clone();
    assert_eq!(d.auth_info.token, "12312312");
    assert_eq!(d.auth_info.username.as_deref(), Some("admin"));
    assert_eq!(d.server_info.timeout_ms, 1000);
    assert_eq!(d.server_info.max_retries, 4);
    assert_eq!(d.server_info.retry_duration_ms, 2000);
    assert_eq!(d.server_info.address, "127.0.0.1");
    assert!(d.server_info.use_tls);
    assert_eq!(d.server_info.tls_key_data, None);
}

#[test]
fn collection_addresses() {
    assert_eq!(users_url("http://127.0.0.1:8080/v1"), "http://127.0.0.1:8080/v1/users");
    assert_eq!(secrets_url("http://127.0.0.1:8080/v1"), "http://127.0.0.1:8080/v1/secret");
    assert_eq!(policies_url("http://127.0.0.1:8080/v1"), "http://127.0.0.1:8080/v1/policy");
    assert_eq!(authz_url("127.0.0.1"), "127.0.0.1/authz");
    assert_eq!(users_url(""), "/users");
}

#[test]
fn address_of_a_named_resource() {
    assert_eq!(named_url(&users_url("http://h"), "admin"), "http://h/users/admin");
    assert_eq!(named_url("http://h/secret", ""), "http://h/secret/");
}

fn flags_of_the_command_line() -> Flags {
    Flags {
        auth_token: Some("12312312".to_string()),
        auth_username: Some("admin".to_string()),
        auth_password: Some("admin".to_string()),
        auth_secret_id: None,
        auth_secret_key: None,
        server_timeout_ms: Some(1000),
        server_max_retries: Some(4),
        server_retry_duration_ms: Some(2000),
        server_address: Some("127.0.0.1".to_string()),
        server_use_tls: true,
        server_skip_tls_verify: true,
        server_tls_cert: Some("12312312".to_string()),
        server_tls_cert_data: Some("12312312".to_string()),
        server_tls_key: Some("12312312".to_string()),
        server_tls_key_data: Some("12312312".to_string()),
    }
}

#[test]
fn configuration_from_flags() {
    let flags = flags_of_the_command_line();
    assert!(flags.is_complete());
    let c = Config::from_flags(flags);
    assert_eq!(c.auth_info.token, "12312312");
    assert_eq!(c.auth_info.username.as_deref(), Some("admin"));
    assert_eq!(c.auth_info.password.as_deref(), Some("admin"));
    assert_eq!(c.auth_info.secret_id, None);
    assert_eq!(c.auth_info.secret_key, None);
    assert_eq!(c.server_info.timeout_ms, 1000);
    assert_eq!(c.server_info.max_retries, 4);
    assert_eq!(c.server_info.retry_duration_ms, 2000);
    assert_eq!(c.server_info.address, "127.0.0.1");
    assert!(c.server_info.use_tls);
    assert!(c.server_info.skip_tls_verify);
    assert_eq!(c.server_info.tls_cert.as_deref(), Some("12312312"));
    assert_eq!(c.server_info.tls_cert_data.as_deref(), Some("12312312"));
    assert_eq!(c.server_info.tls_key.as_deref(), Some("12312312"));
    assert_eq!(c.server_info.tls_key_data.as_deref(), Some("12312312"));
}

#[test]
fn flags_without_a_needed_value_are_incomplete() {
    let mut no_token = flags_of_the_command_line();
    no_token.auth_token = None;
    assert!(!no_token.is_complete());

    let mut no_address = flags_of_the_command_line();
    no_address.server_address = None;
    assert!(!no_address.is_complete());

    let mut no_timeout = flags_of_the_command_line();
    no_timeout.server_timeout_ms = None;
    assert!(!no_timeout.is_complete());

    let mut no_retries = flags_of_the_command_line();
    no_retries.server_max_retries = None;
    assert!(!no_retries.is_complete());

    let mut no_pause = flags_of_the_command_line();
    no_pause.server_retry_duration_ms = None;
    assert!(!no_pause.is_complete());

    let mut bare = flags_of_the_command_line();
    bare.auth_username = None;
    bare.server_tls_cert = None;
    assert!(bare.is_complete());
}

#[test]
fn authorization_question_holds_every_part() {
    let mut context = HashMap::new();
    context.insert("ip".to_string(), serde_json::Value::from("10.0.0.1"));
    let r = RequestInfo::new(
        "resources:articles".to_string(),
        "delete".to_string(),
        "users:peter".to_string(),
        context.clone(),
    );
    assert_eq!(r.info.resource.as_deref(), Some("resources:articles"));
    assert_eq!(r.info.action.as_deref(), Some("delete"));
    assert_eq!(r.info.subject.as_deref(), Some("users:peter"));
    assert_eq!(r.info.context, Some(context));
}

#[test]
fn failed_request_is_of_unknown_kind() {
    let e = request_map_err("connection refused".to_string());
    assert!(e.is(ErrorKind::Unknown));
    assert!(!e.is(ErrorKind::Network));
    assert_eq!(e.cause_string().unwrap(), "connection refused");
    assert!(e.source().is_none());
    assert_eq!(e.to_string(), "unknown error.;");
}
