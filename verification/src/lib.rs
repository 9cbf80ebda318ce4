//! Moderation logic of a chat-server bot: command parsing, permission
//! decisions, channel aliases, warnings, mass mentions and ticket bookkeeping.

pub mod decimal;
pub mod text;
pub mod doc;
pub mod embed;
pub mod db;
pub mod events;
pub mod mention;
pub mod ticket;
pub mod on_message;
pub mod gateway;
pub mod ticket_flow;
