//! Core of a topic/message relay service: topics are created with an optional
//! notification capability, messages are ingested against existing topics and
//! recorded durably, and each recorded message for a notifying topic yields
//! exactly one outbound notification, whose delivery never affects ingestion.

pub mod domain;
pub mod laws;
pub mod provider;
pub mod records;
pub mod service;
pub mod store;
