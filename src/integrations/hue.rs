use vstd::prelude::*;
use crate::text::str_eq;

verus! {

/// The options of the lighting-bridge integration: its application key, which
/// may name environment variables.
pub struct IntegrationConfig {
    pub auth: String,
}

/// The kind of resource that a light is addressed as on the bridge.
#[derive(Clone, Copy, Debug, PartialEq, Eq, Structural)]
pub enum LightResource {
    Light,
    GroupedLight,
}

impl LightResource {
    /// The endpoint segment of the resource.
    pub fn endpoint(&self) -> (r: &'static str)
        ensures
            r@ == match *self {
                LightResource::Light => "light"@,
                LightResource::GroupedLight => "grouped_light"@,
            },
    {
        match self {
            LightResource::Light => "light",
            LightResource::GroupedLight => "grouped_light",
        }
    }

    /// The resource named by the type `s` of a bridge record: `grouped_light`
    /// is a group, anything else a single light.
    pub fn from_type(s: &str) -> (r: LightResource)
        ensures
            r == (if s@ == "grouped_light"@ {
                LightResource::GroupedLight
            } else {
                LightResource::Light
            }),
    {
        if str_eq(s, "grouped_light") {
            LightResource::GroupedLight
        } else {
            LightResource::Light
        }
    }
}

/// The on/off state of a light.
#[derive(Clone, Copy, Debug, PartialEq, Eq, Structural)]
pub struct On {
    pub on: bool,
}

/// The request body that switches a light on or off.
#[derive(Clone, Copy, Debug, PartialEq, Eq, Structural)]
pub struct LightOnRequest {
    pub on: On,
}

impl LightOnRequest {
    /// The request that switches a light to `on`.
    pub fn new(on: bool) -> (r: LightOnRequest)
        ensures
            r.on.on == on,
    {
        LightOnRequest { on: On { on } }
    }
}

} // verus!
