//! Bridge from a message-broker feed to typed application events.
//!
//! The library holds the verified core of the bridge: the topic builder that
//! derives the subscription set from a configuration, and the classifier and
//! router that turn one raw `(topic, payload)` pair into a typed event or a
//! documented drop. The surrounding process (broker session, event loop,
//! configuration file) lives outside the library and consults it for every
//! decision.

pub mod config;
pub mod router;
pub mod session;
pub mod text;
pub mod topics;
