//! Configuration and request shapes of the integrations that actions are
//! dispatched to, and the parts of their behaviour that are pure decisions.
pub mod airplay;
pub mod homebridge;
pub mod http;
pub mod hue;

use vstd::prelude::*;

verus! {

/// The configuration of one integration: an optional name under which actions
/// address it, and its own options.
pub struct IntegrationConfiguration<T> {
    pub name: Option<String>,
    pub options: T,
}

/// The configuration of any supported integration.
pub enum IntegrationsConfigurationEnum {
    Hue(IntegrationConfiguration<hue::IntegrationConfig>),
    Homebridge(IntegrationConfiguration<homebridge::IntegrationConfig>),
    Airplay(IntegrationConfiguration<airplay::IntegrationConfig>),
    Http(IntegrationConfiguration<http::IntegrationConfig>),
}

/// The kind of integration that a configuration sets up.
pub open spec fn kind_spec(c: IntegrationsConfigurationEnum) -> Seq<char> {
    match c {
        IntegrationsConfigurationEnum::Hue(_) => "hue"@,
        IntegrationsConfigurationEnum::Homebridge(_) => "homebridge"@,
        IntegrationsConfigurationEnum::Airplay(_) => "airplay"@,
        IntegrationsConfigurationEnum::Http(_) => "http"@,
    }
}

/// The configured name of an integration, if any.
pub open spec fn configured_name(c: IntegrationsConfigurationEnum) -> Option<String> {
    match c {
        IntegrationsConfigurationEnum::Hue(i) => i.name,
        IntegrationsConfigurationEnum::Homebridge(i) => i.name,
        IntegrationsConfigurationEnum::Airplay(i) => i.name,
        IntegrationsConfigurationEnum::Http(i) => i.name,
    }
}

impl IntegrationsConfigurationEnum {
    /// The kind of integration: `hue`, `homebridge`, `airplay` or `http`.
    pub fn kind_name(&self) -> (r: String)
        ensures
            r@ == kind_spec(*self),
    {
        match self {
            IntegrationsConfigurationEnum::Hue(_) => String::from_str("hue"),
            IntegrationsConfigurationEnum::Homebridge(_) => String::from_str("homebridge"),
            IntegrationsConfigurationEnum::Airplay(_) => String::from_str("airplay"),
            IntegrationsConfigurationEnum::Http(_) => String::from_str("http"),
        }
    }

    /// The name under which actions address the integration: the configured
    /// name, or else the kind.
    pub fn integration_name(&self) -> (r: String)
        ensures
            r@ == match configured_name(*self) {
                Some(n) => n@,
                None => kind_spec(*self),
            },
    {
        let name = match self {
            IntegrationsConfigurationEnum::Hue(i) => &i.name,
            IntegrationsConfigurationEnum::Homebridge(i) => &i.name,
            IntegrationsConfigurationEnum::Airplay(i) => &i.name,
            IntegrationsConfigurationEnum::Http(i) => &i.name,
        };
        match name {
            Some(n) => n.clone(),
            None => self.kind_name(),
        }
    }
}

} // verus!
