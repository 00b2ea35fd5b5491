//! State and decision logic of the stream-processing nodes.
//!
//! A subscriber node polls an [`AeronSubscriber`](crate::transport::AeronSubscriber),
//! parses each fragment and keeps the latest parsed value for downstream
//! nodes; a publisher node publishes an upstream value whenever it changes.
//! This module holds what those nodes decide: which parsed value is kept,
//! when a value is offered, what back-pressure and errors do to the state.
//! The graph runtime that drives them is wired around these types.
pub mod builder;
pub mod publisher;
pub mod subscriber;

pub use builder::AeronSubscriberNodeBuilder;
pub use publisher::AeronPublisherCore;
pub use subscriber::AeronSubscriberCore;
