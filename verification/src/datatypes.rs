//! Value objects: composable record types built from the codec helpers, the
//! instant codec and the enumeration sets. Each encodes to one map-shaped
//! tree with lowerCamelCase keys, omitting absent optional fields entirely,
//! and decodes with typed failures.

pub mod ac_charging_parameters;
pub mod charging_needs;
pub mod clear_monitoring_result;
pub mod dc_charging_parameters;
pub mod evse;
pub mod firmware;
pub mod id_token;
pub mod id_token_info;
pub mod log_parameters;
pub mod message_content;
pub mod meter_value;
pub mod sampled_value;
pub mod transaction;
pub mod status_info;
