//! A gossip-style failure detector.
//!
//! Every node keeps a membership table of heartbeat counters, merges the
//! counters it hears from its peers, and classifies each peer as alive,
//! suspect or dead from the time that has passed since the peer's counter
//! last advanced.  The crate holds the decisions only: the caller owns the
//! clock and the sockets, and hands in readings and messages as plain values.

pub mod addr;
pub mod addr_map;
pub mod error;
pub mod events;
pub mod failure_detector;
pub mod history;
pub mod membership;
pub mod octets;
pub mod seqs;
pub mod state;
pub mod time;
pub mod transport;
pub mod wire;

pub use error::Error;
pub use events::{Event, GossipMessage};
