//! Session configuration.

use vstd::prelude::*;

verus! {

/// Where a remote process is reached.
#[derive(Clone, Debug)]
pub struct ConnectionConfig {
    pub host: String,
    pub user: String,
    pub port: Option<u16>,
    pub key_path: Option<String>,
}

/// What a session is started with.
#[derive(Clone, Debug)]
pub struct CodexConfig {
    pub working_directory: String,
    pub model: String,
    pub provider: String,
    pub use_oss: bool,
    pub custom_args: Option<Vec<String>>,
    pub approval_policy: String,
    pub sandbox_mode: String,
    pub codex_path: Option<String>,
    pub api_key: Option<String>,
    pub connection: Option<ConnectionConfig>,
}

} // verus!
