//! Configuration validation. The five settings come from the environment at
//! process start; reading the environment happens outside the library, which
//! is handed each value as an optional string. A missing value is a
//! startup-fatal error naming the first setting that was absent.

use vstd::prelude::*;

verus! {

/// The five settings the process needs: where the bridge is, how to
/// authenticate to it, the two button bindings, and the light to blink.
#[derive(Debug, PartialEq, Eq)]
pub struct AppConfig {
    pub bridge_address: String,
    pub app_key: String,
    pub on_button_rid: String,
    pub off_button_rid: String,
    pub light_id: String,
}

/// Which setting was missing from the environment.
#[derive(Clone, Copy, Debug, PartialEq, Eq, Structural)]
pub enum ConfigError {
    MissingBridgeAddress,
    MissingAppKey,
    MissingOnButtonRid,
    MissingOffButtonRid,
    MissingLightId,
}

/// Builds the configuration from the environment's values, or reports the
/// first missing setting, in the order the fields are declared.
pub fn get_config(
    bridge_address: Option<String>,
    app_key: Option<String>,
    on_button_rid: Option<String>,
    off_button_rid: Option<String>,
    light_id: Option<String>,
) -> (r: Result<AppConfig, ConfigError>)
    ensures
        r is Ok <==> {
            &&& bridge_address is Some
            &&& app_key is Some
            &&& on_button_rid is Some
            &&& off_button_rid is Some
            &&& light_id is Some
        },
        r matches Ok(c) ==> {
            &&& Some(c.bridge_address) == bridge_address
            &&& Some(c.app_key) == app_key
            &&& Some(c.on_button_rid) == on_button_rid
            &&& Some(c.off_button_rid) == off_button_rid
            &&& Some(c.light_id) == light_id
        },
        r matches Err(e) ==> e == (if bridge_address is None {
            ConfigError::MissingBridgeAddress
        } else if app_key is None {
            ConfigError::MissingAppKey
        } else if on_button_rid is None {
            ConfigError::MissingOnButtonRid
        } else if off_button_rid is None {
            ConfigError::MissingOffButtonRid
        } else {
            ConfigError::MissingLightId
        }),
{
    let bridge_address = match bridge_address {
        Some(v) => v,
        None => {
            return Err(ConfigError::MissingBridgeAddress);
        }
    };
    let app_key = match app_key {
        Some(v) => v,
        None => {
            return Err(ConfigError::MissingAppKey);
        }
    };
    let on_button_rid = match on_button_rid {
        Some(v) => v,
        None => {
            return Err(ConfigError::MissingOnButtonRid);
        }
    };
    let off_button_rid = match off_button_rid {
        Some(v) => v,
        None => {
            return Err(ConfigError::MissingOffButtonRid);
        }
    };
    let light_id = match light_id {
        Some(v) => v,
        None => {
            return Err(ConfigError::MissingLightId);
        }
    };
    Ok(AppConfig { bridge_address, app_key, on_button_rid, off_button_rid, light_id })
}

} // verus!
