//! Scene resources: declarative records mirroring the gateway's scene
//! schema.

use vstd::prelude::*;

use crate::light::LightState;

verus! {

/// A scene as listed by the gateway: the lights it covers, by id.
#[derive(Debug, Clone, PartialEq)]
pub struct Scene {
    pub lights: Vec<String>,
    pub name: String,
}

/// A scene's stored attributes: one captured state per light.
#[derive(Debug, Clone, PartialEq)]
pub struct SceneAttributes {
    pub lights: Vec<LightState>,
    pub name: String,
    pub __state: Option<u128>,
}

} // verus!
