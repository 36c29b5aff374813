//! Addressing and identity core of an actor runtime: node, launch and group
//! identifiers, single-word actor addresses, message envelopes, actor-group
//! blueprints and the network group's routing keys.

pub mod addr;
pub mod envelope;
pub mod group;
pub mod network;
pub mod text;
pub mod utils;

pub use addr::{Addr, GroupNo, NodeLaunchId, NodeNo, SlabConfig};
pub use envelope::{
    AnyMessage, AnyMessageBorrowed, AnyMessageOwned, Envelope, EnvelopeBorrowed, EnvelopeOwned,
    Message, MessageKind, ResponseToken, TraceId,
};
pub use group::{ActorGroup, Blueprint, RestartPolicy, TerminationPolicy};
pub use utils::ErrorChain;
