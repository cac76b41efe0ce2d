//! Core logic of a plant-watering controller: an mDNS wire decoder and
//! resolution cache, bounded broker messages and mailboxes, and the decision
//! rules of the resolver and broker workers.

pub mod home_assistant;
pub mod mdns;
pub mod mqtt;
pub mod resolver;
pub mod text;
pub mod wifi;
pub mod wire;
