use vstd::prelude::*;
use crate::text::{joined, str_eq};

verus! {

/// The protocol over which a media device is controlled.
#[derive(Clone, Copy, Debug, PartialEq, Eq, Structural)]
pub enum Protocol {
    Companion,
    AirPlay,
    RAOP,
}

/// The name of a protocol on the remote-control tool's command line.
pub open spec fn protocol_spec(p: Protocol) -> Seq<char> {
    match p {
        Protocol::Companion => "companion"@,
        Protocol::AirPlay => "airplay"@,
        Protocol::RAOP => "raop"@,
    }
}

impl Protocol {
    /// The name of the protocol.
    pub fn as_str(&self) -> (r: &'static str)
        ensures
            r@ == protocol_spec(*self),
    {
        match self {
            Protocol::Companion => "companion",
            Protocol::AirPlay => "airplay",
            Protocol::RAOP => "raop",
        }
    }
}

/// A configured media device.
pub struct Device {
    pub name: String,
    pub identifier: String,
    pub credentials: Option<String>,
    pub protocol: Option<Protocol>,
}

/// The options of the media-device integration.
pub struct IntegrationConfig {
    pub api_endpoint: String,
    pub devices: Vec<Device>,
}

/// An action of the media-device integration.
pub enum AirplayAction {
    /// Send the remote-control command `command` to the device `device`.
    Command { device: String, command: String },
    /// Open the app `identifier` on the device `device`.
    OpenApp { device: String, identifier: String },
}

/// The protocol used for a device: its own, or AirPlay by default.
pub open spec fn device_protocol(d: Device) -> Seq<char> {
    match d.protocol {
        Some(p) => protocol_spec(p),
        None => "airplay"@,
    }
}

/// The protocol name used for `device`.
pub fn protocol_name(device: &Device) -> (r: &'static str)
    ensures
        r@ == device_protocol(*device),
{
    match device.protocol {
        Some(p) => p.as_str(),
        None => Protocol::AirPlay.as_str(),
    }
}

/// The configured device named `name`; where several share the name, the last
/// one configured.
pub fn find_device<'a>(devices: &'a Vec<Device>, name: &str) -> (r: Option<&'a Device>)
    ensures
        r is None <==> forall|k: int| 0 <= k < devices@.len() ==> (#[trigger] devices@[k]).name@
            != name@,
        r matches Some(d) ==> exists|k: int|
            0 <= k < devices@.len() && *d == devices@[k] && devices@[k].name@ == name@ && forall|
                j: int,
            |
                k < j < devices@.len() ==> (#[trigger] devices@[j]).name@ != name@,
{
    let mut k: usize = devices.len();
    while k > 0
        invariant
            k <= devices@.len(),
            forall|j: int| k <= j < devices@.len() ==> (#[trigger] devices@[j]).name@ != name@,
        decreases k,
    {
        k = k - 1;
        if str_eq(devices[k].name.as_str(), name) {
            return Some(&devices[k]);
        }
    }
    None
}

/// The device that an action addresses.
pub open spec fn action_device(a: AirplayAction) -> Seq<char> {
    match a {
        AirplayAction::Command { device, .. } => device@,
        AirplayAction::OpenApp { device, .. } => device@,
    }
}

/// The path, on the remote-control API, of `action` on `device`.
pub fn url_path_for_action(device: &Device, action: &AirplayAction) -> (r: String)
    ensures
        r@ == match *action {
            AirplayAction::Command { command, .. } => "command/"@ + device.identifier@ + "/"@
                + command@,
            AirplayAction::OpenApp { identifier, .. } => "apps/"@ + device.identifier@
                + "/open/"@ + identifier@,
        },
{
    match action {
        AirplayAction::Command { command, .. } => {
            let mut r = joined("command/", device.identifier.as_str());
            r.append("/");
            r.append(command.as_str());
            r
        },
        AirplayAction::OpenApp { identifier, .. } => {
            let mut r = joined("apps/", device.identifier.as_str());
            r.append("/open/");
            r.append(identifier.as_str());
            r
        },
    }
}

/// The device name and the command-line command of `action`.
pub fn command_for_action(action: &AirplayAction) -> (r: (String, String))
    ensures
        r.0@ == action_device(*action),
        r.1@ == match *action {
            AirplayAction::Command { command, .. } => command@,
            AirplayAction::OpenApp { identifier, .. } => "launch_app="@ + identifier@,
        },
{
    match action {
        AirplayAction::Command { device, command } => (device.clone(), command.clone()),
        AirplayAction::OpenApp { device, identifier } => (
            device.clone(),
            joined("launch_app=", identifier.as_str()),
        ),
    }
}

/// The name of the credentials option or header for the protocol `protocol`.
pub open spec fn credentials_key(protocol: Seq<char>) -> Seq<char> {
    protocol + "-credentials"@
}

/// The credentials header sent to the remote-control API for `device`, where
/// it has credentials.
pub fn credentials_header(device: &Device) -> (r: Option<(String, String)>)
    ensures
        match device.credentials {
            None => r is None,
            Some(c) => r matches Some((k, v)) && k@ == credentials_key(device_protocol(*device))
                && v@ == c@,
        },
{
    match &device.credentials {
        None => None,
        Some(c) => Some((joined(protocol_name(device), "-credentials"), c.clone())),
    }
}

/// The arguments of the remote-control tool that run `command` on `device`:
/// the device identifier, the protocol, the credentials where there are any,
/// then the command.
pub fn atvremote_args(device: &Device, command: &str) -> (r: Vec<String>)
    ensures
        r@.len() == if device.credentials is Some {
            7int
        } else {
            5int
        },
        r@[0]@ == "-i"@,
        r@[1]@ == device.identifier@,
        r@[2]@ == "--protocol"@,
        r@[3]@ == device_protocol(*device),
        device.credentials matches Some(c) ==> r@[4]@ == "--"@ + credentials_key(
            device_protocol(*device),
        ) && r@[5]@ == c@,
        r@[r@.len() - 1]@ == command@,
{
    let protocol = protocol_name(device);
    let mut r: Vec<String> = Vec::new();
    r.push(String::from_str("-i"));
    r.push(device.identifier.clone());
    r.push(String::from_str("--protocol"));
    r.push(String::from_str(protocol));
    match &device.credentials {
        Some(c) => {
            let mut flag = joined("--", protocol);
            flag.append("-credentials");
            r.push(flag);
            r.push(c.clone());
            proof {
                assert("--"@ + protocol@ + "-credentials"@ =~= "--"@ + (protocol@ + "-credentials"@));
            }
        },
        None => {},
    }
    r.push(String::from_str(command));
    r
}

} // verus!
