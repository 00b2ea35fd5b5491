//! Aerofoil: Aeron transport abstractions for stream processing.
//!
//! The library is organised into:
//!
//! - [`transport`]: the publisher and subscriber traits, zero-copy buffer
//!   types, channel URI builders, named discovery, in-memory test doubles and
//!   the mapping of Aeron client results onto [`transport::TransportError`];
//! - [`nodes`]: the state and decision logic of the stream-processing nodes
//!   that poll a subscriber or publish an upstream value.
pub mod nodes;
pub mod transport;
