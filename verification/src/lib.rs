//! Addressing for a message-passing actor runtime.
//!
//! An [`ID`] names one actor, or one sub-actor inside a swarm, by four
//! fixed-width tags. Two reserved tag values turn an address into a
//! broadcast: one for "every sub-actor", one for "every machine".
pub mod decimal;
pub mod id;
pub mod type_registry;

pub use id::{broadcast_machine_id, broadcast_sub_actor_id, ID};
pub use type_registry::ShortTypeId;
