//! Control plane for one node of a Lavalink audio server: the handshake
//! headers, the per-message decoder, the dispatch protocol and the node's
//! connection state, as verified decisions on plain values.

pub mod decimal;
pub mod decoder;
pub mod events;
pub mod handshake;
pub mod json;
pub mod model;
pub mod node;
pub mod reaction;
pub mod text;
