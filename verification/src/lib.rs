//! Startup decisions, panel state and notification logic of the Zed editor,
//! written as verified functions on plain values.

pub mod environment;
pub mod ids;
pub mod launch_errors;
pub mod libp2p_panel;
pub mod notifications;
pub mod p2p_panel;
pub mod panel;
pub mod plugin;
pub mod startup;
pub mod text;
