//! Truthful multi-channel notification delivery: the decisions of a
//! notification service (channels, quiet hours, redaction, delivery
//! outcomes, templates, preferences and the notification log), verified.

pub mod channel;
pub mod delivery;
pub mod domain;
pub mod endpoint;
pub mod ids;
pub mod inputs;
pub mod laws;
pub mod clock;
pub mod quiet_hours;
pub mod server;
pub mod template;
pub mod text;
