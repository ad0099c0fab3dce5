//! A relay peer for a routing network: it mirrors two replicated collections,
//! reacts to inbound protocol events and decides which commands to send back.
pub mod laws;
pub mod model;
pub mod page;
pub mod protocol;
pub mod recipients;
pub mod relay;
