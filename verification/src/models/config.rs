//! System configuration entries.

use vstd::prelude::*;

verus! {

/// One configuration entry.
#[derive(Debug, Clone)]
pub struct SystemConfig {
    pub id: i64,
    pub config_key: String,
    pub config_value: Option<String>,
    pub config_type: Option<String>,
    pub description: Option<String>,
    pub is_active: bool,
}

/// Request for several configuration values.
#[derive(Debug, Clone)]
pub struct GetConfigRequest {
    pub keys: Vec<String>,
}

/// Request to set one configuration value.
#[derive(Debug, Clone)]
pub struct SetConfigRequest {
    pub key: String,
    pub value: String,
    pub operator: Option<String>,
}

/// Outcome of a configuration change.
#[derive(Debug, Clone)]
pub struct ConfigResponse {
    pub success: bool,
    pub message: Option<String>,
}

impl ConfigResponse {
    pub fn success() -> (r: ConfigResponse)
        ensures
            r.success,
            r.message is None,
    {
        ConfigResponse { success: true, message: None }
    }

    pub fn error(message: String) -> (r: ConfigResponse)
        ensures
            !r.success,
            r.message == Some(message),
    {
        ConfigResponse { success: false, message: Some(message) }
    }
}

} // verus!
