//! Handling of incoming chat events.

pub mod on_message;
