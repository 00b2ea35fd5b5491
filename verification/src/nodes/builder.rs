//! Builder for subscriber nodes.
//!
//! The builder collects the subscriber to poll, the parser and the value to
//! show before any message arrives; all three are required.
use vstd::prelude::*;

use crate::transport::{AeronSubscriber, TransportError};

verus! {

/// The part that a node builder was not given.
#[derive(Debug, Clone, Copy, PartialEq, Eq, Structural)]
pub enum MissingPart {
    /// No subscriber was set.
    Subscriber,
    /// No parser was set.
    Parser,
    /// No default value was set.
    DefaultValue,
}

/// The text of the failure for a missing part.
pub open spec fn missing_part_text(part: MissingPart) -> Seq<char> {
    match part {
        MissingPart::Subscriber => "subscriber is required"@,
        MissingPart::Parser => "parser is required"@,
        MissingPart::DefaultValue => "default value is required"@,
    }
}

impl MissingPart {
    /// Renders the failure, e.g. `subscriber is required`.
    pub fn to_string(&self) -> (s: String)
        ensures
            s@ == missing_part_text(*self),
    {
        match self {
            MissingPart::Subscriber => String::from_str("subscriber is required"),
            MissingPart::Parser => String::from_str("parser is required"),
            MissingPart::DefaultValue => String::from_str("default value is required"),
        }
    }
}

/// Builder for subscriber nodes: the subscriber to poll, the parser that
/// turns a fragment into `Ok(Some(value))`, `Ok(None)` (skip) or an error,
/// and the value shown before any message arrives.
#[verifier::reject_recursive_types(T)]
pub struct AeronSubscriberNodeBuilder<T, F, S> where
    F: FnMut(&[u8]) -> Result<Option<T>, TransportError>,
    S: AeronSubscriber,
 {
    subscriber: Option<S>,
    parser: Option<F>,
    default_value: Option<T>,
}

impl<T, F, S> AeronSubscriberNodeBuilder<T, F, S> where
    F: FnMut(&[u8]) -> Result<Option<T>, TransportError>,
    S: AeronSubscriber,
 {
    /// The subscriber set so far.
    pub closed spec fn spec_subscriber(&self) -> Option<S> {
        self.subscriber
    }

    /// The parser set so far.
    pub closed spec fn spec_parser(&self) -> Option<F> {
        self.parser
    }

    /// The default value set so far.
    pub closed spec fn spec_default_value(&self) -> Option<T> {
        self.default_value
    }

    /// Creates a builder with no part set.
    pub fn new() -> (b: Self)
        ensures
            b.spec_subscriber() is None,
            b.spec_parser() is None,
            b.spec_default_value() is None,
    {
        AeronSubscriberNodeBuilder { subscriber: None, parser: None, default_value: None }
    }

    /// Sets the subscriber to poll for messages.
    pub fn subscriber(self, subscriber: S) -> (b: Self)
        ensures
            b.spec_subscriber() == Some(subscriber),
            b.spec_parser() == self.spec_parser(),
            b.spec_default_value() == self.spec_default_value(),
    {
        AeronSubscriberNodeBuilder {
            subscriber: Some(subscriber),
            parser: self.parser,
            default_value: self.default_value,
        }
    }

    /// Sets a parser that may fail: `Ok(Some(value))` is a parsed value,
    /// `Ok(None)` a skipped message, `Err(e)` an error passed on to the
    /// graph.
    pub fn try_parser(self, parser: F) -> (b: Self)
        ensures
            b.spec_parser() == Some(parser),
            b.spec_subscriber() == self.spec_subscriber(),
            b.spec_default_value() == self.spec_default_value(),
    {
        AeronSubscriberNodeBuilder {
            subscriber: self.subscriber,
            parser: Some(parser),
            default_value: self.default_value,
        }
    }

    /// Replaces the parser by one of another type, keeping the other parts.
    pub fn with_parser<G>(self, parser: G) -> (b: AeronSubscriberNodeBuilder<T, G, S>) where
        G: FnMut(&[u8]) -> Result<Option<T>, TransportError>,

        ensures
            b.spec_parser() == Some(parser),
            b.spec_subscriber() == self.spec_subscriber(),
            b.spec_default_value() == self.spec_default_value(),
    {
        AeronSubscriberNodeBuilder {
            subscriber: self.subscriber,
            parser: Some(parser),
            default_value: self.default_value,
        }
    }

    /// Sets the value shown before any message arrives.
    pub fn default(self, value: T) -> (b: Self)
        ensures
            b.spec_default_value() == Some(value),
            b.spec_subscriber() == self.spec_subscriber(),
            b.spec_parser() == self.spec_parser(),
    {
        AeronSubscriberNodeBuilder {
            subscriber: self.subscriber,
            parser: self.parser,
            default_value: Some(value),
        }
    }

    /// Hands out the subscriber, the parser and the default value, or names
    /// the first part missing (checked in that order).
    pub fn into_parts(self) -> (r: Result<(S, F, T), MissingPart>)
        ensures
            self.spec_subscriber() is None ==> r == Err::<(S, F, T), MissingPart>(
                MissingPart::Subscriber,
            ),
            self.spec_subscriber() is Some && self.spec_parser() is None ==> r == Err::<
                (S, F, T),
                MissingPart,
            >(MissingPart::Parser),
            self.spec_subscriber() is Some && self.spec_parser() is Some
                && self.spec_default_value() is None ==> r == Err::<(S, F, T), MissingPart>(
                MissingPart::DefaultValue,
            ),
            self.spec_subscriber() is Some && self.spec_parser() is Some
                && self.spec_default_value() is Some ==> r == Ok::<(S, F, T), MissingPart>(
                (
                    self.spec_subscriber()->0,
                    self.spec_parser()->0,
                    self.spec_default_value()->0,
                ),
            ),
    {
        match self.subscriber {
            None => Err(MissingPart::Subscriber),
            Some(subscriber) => match self.parser {
                None => Err(MissingPart::Parser),
                Some(parser) => match self.default_value {
                    None => Err(MissingPart::DefaultValue),
                    Some(value) => Ok((subscriber, parser, value)),
                },
            },
        }
    }
}

} // verus!
