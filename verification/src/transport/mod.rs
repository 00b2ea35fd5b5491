//! Aeron transport abstractions for message processing.
//!
//! Trait-based abstractions for Aeron transport operations, so that Aeron
//! client adapters and in-memory test doubles can be used interchangeably.
use vstd::prelude::*;

pub mod aeron_rs_adapter;
pub mod buffer;
pub mod channel;
pub mod decimal;
pub mod discovery;
pub mod error;
pub mod media_driver;
pub mod mock;
pub mod rusteron;

pub use buffer::{ClaimBuffer, FragmentBuffer, FragmentHeader};
pub use channel::ChannelUri;
pub use discovery::{
    aeron_pub_named, aeron_sub_discover, lookup_pub, lookup_sub, register_pub, register_sub, Discovery,
    DiscoveryError,
};
pub use error::TransportError;
pub use mock::{MockPublisher, MockSubscriber};

verus! {

/// Lifecycle status of an Aeron transport endpoint.
#[derive(Debug, Clone, PartialEq, Eq, Structural)]
#[non_exhaustive]
pub enum AeronStatus {
    /// The endpoint is connected and actively communicating.
    Connected,
    /// The endpoint is not connected (the initial state).
    Disconnected,
    /// The endpoint is experiencing back-pressure.
    BackPressured,
    /// The endpoint has been closed.
    Closed,
}

impl Default for AeronStatus {
    /// An endpoint starts out disconnected.
    fn default() -> (s: Self)
        ensures
            s == AeronStatus::Disconnected,
    {
        AeronStatus::Disconnected
    }
}

/// Publishes messages to an Aeron channel.
///
/// - [`offer`](AeronPublisher::offer) publishes a byte slice;
/// - [`try_claim`](AeronPublisher::try_claim) claims a region of the
///   publication buffer to be written in place.
///
/// Every method returns at once, also under back-pressure.
pub trait AeronPublisher {
    /// What an offer of `data` does, as an implementation states it: it
    /// takes the publisher from `before` to `after` and returns `r`. Unless
    /// an implementation states otherwise, nothing is known of an offer.
    open spec fn offer_post(before: &Self, after: &Self, data: Seq<u8>, r: Result<i64, TransportError>) -> bool {
        true
    }

    /// Offers a message to the publication.
    ///
    /// Returns the stream position of the message,
    /// `Err(TransportError::BackPressure)` when the buffer is full (retry
    /// later), or another transport error.
    fn offer(&mut self, buffer: &[u8]) -> (r: Result<i64, TransportError>)
        ensures
            Self::offer_post(&*old(self), &*final(self), buffer@, r),
    ;

    /// Claims a buffer of `length` bytes for zero-copy message writing.
    ///
    /// Returns the claimed buffer, `Err(TransportError::BackPressure)` when
    /// the buffer is full (retry later), or another transport error.
    fn try_claim<'a>(&'a mut self, length: usize) -> Result<ClaimBuffer<'a>, TransportError>;

    /// Whether the publication is connected to at least one subscriber.
    /// Unless an implementation says otherwise, it is not.
    fn is_connected(&self) -> (r: bool)
        default_ensures
            !r,
    {
        false
    }

    /// Whether the publication has been closed, which is terminal (unlike a
    /// temporary disconnection). Unless an implementation says otherwise, it
    /// is not.
    fn is_closed(&self) -> (r: bool)
        default_ensures
            !r,
    {
        false
    }
}

/// Subscribes to and receives messages from an Aeron channel.
///
/// Messages are delivered to a fragment handler, following Aeron's
/// fragment-handler pattern, without blocking.
pub trait AeronSubscriber {
    /// Polls for messages and hands each received fragment to `handler`.
    ///
    /// Returns the number of fragments processed, or the transport error or
    /// the error that the handler returned. The handler must accept every
    /// fragment in every state it may reach.
    fn poll<F>(&mut self, handler: F) -> Result<usize, TransportError> where
        F: FnMut(&FragmentBuffer) -> Result<(), TransportError>,
        requires
            forall|f: &FragmentBuffer| call_requires(handler, (f,)),
    ;

    /// Whether the subscription is connected to at least one publication.
    /// Unless an implementation says otherwise, it is not.
    fn is_connected(&self) -> (r: bool)
        default_ensures
            !r,
    {
        false
    }

    /// Whether the subscription has been closed, which is terminal. Unless
    /// an implementation says otherwise, it is not.
    fn is_closed(&self) -> (r: bool)
        default_ensures
            !r,
    {
        false
    }
}

} // verus!
