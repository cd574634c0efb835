//! Schedule resources: declarative records mirroring the gateway's
//! schedule schema, and the wire tokens of their enumerated fields.

use vstd::prelude::*;

use std::collections::HashMap;

verus! {

/// Whether a schedule fires.
#[derive(Debug, Clone, Copy, PartialEq, Eq)]
pub enum ScheduleStatus {
    Enabled,
    Disabled,
}

/// The method a schedule's command is sent with.
#[derive(Debug, Clone, Copy, PartialEq, Eq)]
pub enum ScheduleMethod {
    Put,
}

/// A schedule as submitted to the gateway.
#[derive(Debug, Clone, PartialEq)]
pub struct ScheduleRequest {
    pub name: String,
    pub description: String,
    pub status: ScheduleStatus,
    pub time: String,
}

/// A partial update of a schedule: absent fields are left unchanged.
#[derive(Debug, Clone, PartialEq)]
pub struct ScheduleAttributes {
    pub name: Option<String>,
    pub description: Option<String>,
    pub status: Option<ScheduleStatus>,
    pub time: Option<String>,
    pub etag: Option<String>,
    pub auto_delete: Option<bool>,
}

/// The request a schedule issues when it fires.
#[derive(Debug, Clone, PartialEq)]
pub struct ScheduleCommand {
    pub address: String,
    pub body: HashMap<String, serde_json::Value>,
    pub method: ScheduleMethod,
}

/// The lowercase wire token of a schedule status.
pub open spec fn schedule_status_token(s: ScheduleStatus) -> Seq<char> {
    match s {
        ScheduleStatus::Enabled => "enabled"@,
        ScheduleStatus::Disabled => "disabled"@,
    }
}

/// The uppercase wire token of a schedule method.
pub open spec fn schedule_method_token(m: ScheduleMethod) -> Seq<char> {
    match m {
        ScheduleMethod::Put => "PUT"@,
    }
}

impl ScheduleStatus {
    /// The token this status serializes to.
    pub fn wire_token(&self) -> (r: String)
        ensures
            r@ == schedule_status_token(*self),
    {
        match *self {
            ScheduleStatus::Enabled => String::from_str("enabled"),
            ScheduleStatus::Disabled => String::from_str("disabled"),
        }
    }
}

impl ScheduleMethod {
    /// The token this method serializes to.
    pub fn wire_token(&self) -> (r: String)
        ensures
            r@ == schedule_method_token(*self),
    {
        match *self {
            ScheduleMethod::Put => String::from_str("PUT"),
        }
    }
}

} // verus!
