use vstd::prelude::*;
use crate::text::joined;

verus! {

/// The options of the home-automation hub integration.
pub struct IntegrationConfig {
    pub api_endpoint: String,
    pub username: String,
    pub password: String,
}

/// The characteristic values that the hub reports for an accessory.
#[derive(Clone, Copy, Debug, PartialEq, Eq, Structural)]
pub struct HomebridgeValues {
    pub on: Option<u64>,
    pub brightness: Option<u64>,
    pub color_temperature: Option<u64>,
}

impl HomebridgeValues {
    /// Whether the accessory is on: the value 1 is on, 0 is off, and anything
    /// else, or no value, leaves it unknown.
    pub fn on_state(&self) -> (r: Option<bool>)
        ensures
            r == match self.on {
                Some(v) => if v == 1 {
                    Some(true)
                } else if v == 0 {
                    Some(false)
                } else {
                    None::<bool>
                },
                None => None,
            },
    {
        match self.on {
            Some(1) => Some(true),
            Some(0) => Some(false),
            _ => None,
        }
    }
}

/// An accessory as the hub reports it.
pub struct HomebridgeDeviceResponse {
    pub uuid: String,
    pub utype: String,
    pub unique_id: String,
    pub human_type: String,
    pub service_name: String,
    pub values: HomebridgeValues,
}

impl HomebridgeDeviceResponse {
    /// The path of the accessory on the hub's API.
    pub fn endpoint(&self) -> (r: String)
        ensures
            r@ == "api/accessories/"@ + self.unique_id@,
    {
        joined("api/accessories/", self.unique_id.as_str())
    }
}

/// The value written to the `On` characteristic for `on`.
pub fn switch_value(on: bool) -> (r: u64)
    ensures
        r == (if on {
            1u64
        } else {
            0u64
        }),
{
    if on {
        1
    } else {
        0
    }
}

/// What to do with an accessory for a `toggle` or `set` action.
#[derive(Clone, Copy, Debug, PartialEq, Eq, Structural)]
pub enum DevicePlan {
    /// Write the `On` characteristic.
    Switch(bool),
    /// Compute the light state from the brightness options and apply it.
    Dim,
}

/// The plan for toggling an accessory that is `on`: a lit accessory is
/// switched off; a dark one is dimmed where it has a brightness, else
/// switched on.
pub fn toggle_plan(on: bool, has_brightness: bool) -> (r: DevicePlan)
    ensures
        r == (if on {
            DevicePlan::Switch(false)
        } else if has_brightness {
            DevicePlan::Dim
        } else {
            DevicePlan::Switch(true)
        }),
{
    if on {
        DevicePlan::Switch(false)
    } else if has_brightness {
        DevicePlan::Dim
    } else {
        DevicePlan::Switch(true)
    }
}

/// The plan for a `set` action: with a brightness option the accessory is
/// dimmed unless `on` is false; without one it is switched on only where `on`
/// is true.
pub fn set_plan(brightness_given: bool, on: Option<bool>) -> (r: DevicePlan)
    ensures
        r == (if brightness_given {
            if on == Some(false) {
                DevicePlan::Switch(false)
            } else {
                DevicePlan::Dim
            }
        } else {
            DevicePlan::Switch(on == Some(true))
        }),
{
    if brightness_given {
        match on {
            Some(false) => DevicePlan::Switch(false),
            _ => DevicePlan::Dim,
        }
    } else {
        match on {
            Some(true) => DevicePlan::Switch(true),
            _ => DevicePlan::Switch(false),
        }
    }
}

/// The seconds before its expiry at which a token is no longer used.
pub const TOKEN_MARGIN_SECS: u64 = 7200;

/// The hub's credentials and the token they last obtained, with its expiry in
/// seconds since the Unix epoch.
pub struct HomebridgeAuth {
    pub username: String,
    pub password: String,
    pub token: Option<String>,
    pub expires_at: Option<u64>,
}

impl HomebridgeAuth {
    /// At time `now` (seconds since the Unix epoch), whether the token's
    /// expiry, less the margin, is still ahead; false where no expiry is known.
    pub fn has_token_expired(&self, now: u64) -> (r: bool)
        ensures
            r == match self.expires_at {
                Some(e) => e - TOKEN_MARGIN_SECS > now,
                None => false,
            },
    {
        match self.expires_at {
            Some(e) => e >= TOKEN_MARGIN_SECS && e - TOKEN_MARGIN_SECS > now,
            None => false,
        }
    }

    /// At time `now`, whether a token is held and `has_token_expired` holds of
    /// it.
    pub fn has_valid_token(&self, now: u64) -> (r: bool)
        ensures
            r == (self.token is Some && match self.expires_at {
                Some(e) => e - TOKEN_MARGIN_SECS > now,
                None => false,
            }),
    {
        match &self.token {
            Some(_) => self.has_token_expired(now),
            None => false,
        }
    }
}

} // verus!
