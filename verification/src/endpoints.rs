//! The gateway's resource endpoints: token provisioning and the
//! declarative resource schemas.

pub mod configuration;
pub mod rules;
pub mod scenes;
pub mod schedules;
