//! What the clients need to know of the server and of the caller.

use vstd::prelude::*;

verus! {

/// All that the clients are configured with.
#[derive(Debug, Clone)]
pub struct Config {
    pub auth_info: AuthInfo,
    pub server_info: ServerInfo,
}

/// How the caller authenticates.
#[derive(Debug, Clone)]
pub struct AuthInfo {
    pub token: String,
    pub username: Option<String>,
    pub password: Option<String>,
    pub secret_id: Option<String>,
    pub secret_key: Option<String>,
}

/// Where the server is and how to reach it.
#[derive(Debug, Clone)]
pub struct ServerInfo {
    pub timeout_ms: u16,
    pub max_retries: u8,
    pub retry_duration_ms: u16,
    pub address: String,
    pub use_tls: bool,
    pub skip_tls_verify: bool,
    pub tls_cert: Option<String>,
    pub tls_cert_data: Option<String>,
    pub tls_key: Option<String>,
    pub tls_key_data: Option<String>,
}

/// What the command line gave for each flag of the configuration; `None`
/// where a flag has no value.
#[derive(Debug, Clone)]
pub struct Flags {
    pub auth_token: Option<String>,
    pub auth_username: Option<String>,
    pub auth_password: Option<String>,
    pub auth_secret_id: Option<String>,
    pub auth_secret_key: Option<String>,
    pub server_timeout_ms: Option<u16>,
    pub server_max_retries: Option<u8>,
    pub server_retry_duration_ms: Option<u16>,
    pub server_address: Option<String>,
    pub server_use_tls: bool,
    pub server_skip_tls_verify: bool,
    pub server_tls_cert: Option<String>,
    pub server_tls_cert_data: Option<String>,
    pub server_tls_key: Option<String>,
    pub server_tls_key_data: Option<String>,
}

impl Flags {
    /// Whether every flag that a configuration cannot do without has a
    /// value: the token, the server's address, and the three numbers.
    pub open spec fn complete(&self) -> bool {
        &&& self.auth_token is Some
        &&& self.server_timeout_ms is Some
        &&& self.server_max_retries is Some
        &&& self.server_retry_duration_ms is Some
        &&& self.server_address is Some
    }

    /// Whether every flag that a configuration cannot do without has a value.
    pub fn is_complete(&self) -> (complete: bool)
        ensures
            complete == self.complete(),
    {
        self.auth_token.is_some() && self.server_timeout_ms.is_some()
            && self.server_max_retries.is_some() && self.server_retry_duration_ms.is_some()
            && self.server_address.is_some()
    }
}

impl Config {
    /// The configuration that the flags describe: each value goes to the
    /// field of its name, the optional ones as they are.
    pub fn from_flags(flags: Flags) -> (config: Self)
        requires
            flags.complete(),
        ensures
            Some(config.auth_info.token) == flags.auth_token,
            config.auth_info.username == flags.auth_username,
            config.auth_info.password == flags.auth_password,
            config.auth_info.secret_id == flags.auth_secret_id,
            config.auth_info.secret_key == flags.auth_secret_key,
            Some(config.server_info.timeout_ms) == flags.server_timeout_ms,
            Some(config.server_info.max_retries) == flags.server_max_retries,
            Some(config.server_info.retry_duration_ms) == flags.server_retry_duration_ms,
            Some(config.server_info.address) == flags.server_address,
            config.server_info.use_tls == flags.server_use_tls,
            config.server_info.skip_tls_verify == flags.server_skip_tls_verify,
            config.server_info.tls_cert == flags.server_tls_cert,
            config.server_info.tls_cert_data == flags.server_tls_cert_data,
            config.server_info.tls_key == flags.server_tls_key,
            config.server_info.tls_key_data == flags.server_tls_key_data,
    {
        Config {
            auth_info: AuthInfo {
                token: flags.auth_token.unwrap(),
                username: flags.auth_username,
                password: flags.auth_password,
                secret_id: flags.auth_secret_id,
                secret_key: flags.auth_secret_key,
            },
            server_info: ServerInfo {
                timeout_ms: flags.server_timeout_ms.unwrap(),
                max_retries: flags.server_max_retries.unwrap(),
                retry_duration_ms: flags.server_retry_duration_ms.unwrap(),
                address: flags.server_address.unwrap(),
                use_tls: flags.server_use_tls,
                skip_tls_verify: flags.server_skip_tls_verify,
                tls_cert: flags.server_tls_cert,
                tls_cert_data: flags.server_tls_cert_data,
                tls_key: flags.server_tls_key,
                tls_key_data: flags.server_tls_key_data,
            },
        }
    }
}

/// The timeout of a request where none is configured, in milliseconds.
pub fn default_timeout_ms() -> (ms: u16)
    ensures
        ms == 1000,
{
    1000
}

/// The number of retries where none is configured.
pub fn default_max_retries() -> (retries: u8)
    ensures
        retries == 3,
{
    3
}

/// The pause between two tries where none is configured, in milliseconds.
pub fn default_retry_duration_ms() -> (ms: u16)
    ensures
        ms == 1000,
{
    1000
}

} // verus!
