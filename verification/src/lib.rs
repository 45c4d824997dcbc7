//! Client library for a game-server process that talks to a local sidecar:
//! connection bootstrap with a bounded wait, a single-writer health
//! keepalive, lifecycle calls (ready, allocate, reserve, shutdown),
//! metadata writes, a watch on the server-held record, and the
//! counter/list and player-tracking state the sidecar enforces — the
//! protocol logic verified, the transport left to the embedding program.

pub mod alpha;
pub mod beta;
pub mod bootstrap;
pub mod endpoint;
pub mod errors;
pub mod health;
pub mod proto;
pub mod sdk;
pub mod sdk_grpc;
pub mod sidecar;
pub mod types;
pub mod watch;

pub use sdk::Sdk;
