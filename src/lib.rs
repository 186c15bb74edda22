//! Action routing and layout synchronisation for a multi-button control deck.
//!
//! The library holds the decisions of the server: the profile store, the
//! splitting and routing of qualified action names, the registry of connected
//! sessions, the assembly of button layouts and the rendered-icon cache. The
//! program around it performs the network and file work and feeds the results
//! back in.
pub mod actions;
pub mod json;
pub mod profiles;
pub mod sessions;
pub mod text;
pub mod router;
pub mod layout;
pub mod color;
pub mod render;
pub mod cache;
pub mod manager;
pub mod integrations;
