//! A relay's core: inbound message content is normalised into one canonical
//! mail, its body is rendered according to the declared content type, and a
//! transport-ready message is assembled for a delivery agent.

pub mod adapter;
pub mod content;
pub mod dispatch;
pub mod mail;
pub mod mailbox;
