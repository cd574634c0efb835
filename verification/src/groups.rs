//! Group resources: declarative records mirroring the gateway's group
//! schema.

use vstd::prelude::*;

use crate::light::LightEffect;
use crate::light::XyColor;

verus! {

/// The body of a group-creation request.
#[derive(Debug, Clone, PartialEq)]
pub struct CreateGroupRequest {
    pub name: String,
}

/// The payload a successful group creation returns.
#[derive(Debug, Clone, PartialEq)]
pub struct CreateGroupResponse {
    pub name: String,
}

/// The success wrapper around a group-creation payload.
#[derive(Debug, Clone, PartialEq)]
pub struct CreateGroupResponseWrapper {
    pub success: CreateGroupResponse,
}

/// A group as listed in the whole-collection response.
#[derive(Debug, Clone, PartialEq)]
pub struct GetAllGroupsEntry {
    pub device_membership: Option<Vec<String>>,
    pub name: String,
    pub etag: String,
    pub hidden: bool,
}

/// A scene reference inside a group.
#[derive(Debug, Clone, PartialEq)]
pub struct SceneEntry {
    pub id: String,
    pub name: String,
}

/// The state a whole group is driven to.
#[derive(Debug, Clone, Copy, PartialEq)]
pub struct GroupAction {
    pub on: bool,
    pub bri: u8,
    pub hue: u64,
    pub sat: u8,
    pub ct: u16,
    pub xy: XyColor,
    pub effect: LightEffect,
}

/// A group as fetched on its own.
#[derive(Debug, Clone, PartialEq)]
pub struct GetGroupsEntry {
    pub device_membership: Option<Vec<String>>,
    pub name: String,
    pub etag: String,
    pub hidden: bool,
    pub action: GroupAction,
    pub id: String,
    pub lights: Vec<String>,
    pub lightsequence: Vec<String>,
    pub multideviceids: Vec<String>,
    pub scenes: Vec<SceneEntry>,
}

} // verus!
