//! The state of a node that polls an Aeron subscriber.
use vstd::prelude::*;

use crate::transport::{FragmentBuffer, TransportError};

verus! {

/// `next` is the value kept, and `r` the result, after a parser produced
/// `parsed` while `current` was kept:
///
/// - `Ok(Some(v))`: the fragment parsed to `v`, which is kept from now on;
/// - `Ok(None)`: the fragment was skipped, the value is unchanged;
/// - `Err(e)`: the error is passed on and the value is unchanged.
pub open spec fn is_parse_step<T>(
    current: T,
    parsed: Result<Option<T>, TransportError>,
    next: T,
    r: Result<(), TransportError>,
) -> bool {
    match parsed {
        Ok(Some(v)) => next == v && r is Ok,
        Ok(None) => next == current && r is Ok,
        Err(e) => next == current && r == Err::<(), TransportError>(e),
    }
}

/// The state shared by the subscriber nodes: the most recently parsed
/// value, or the initial value while nothing has been parsed.
pub struct AeronSubscriberCore<T> {
    current_value: T,
}

impl<T> AeronSubscriberCore<T> {
    /// The value kept for downstream nodes.
    pub closed spec fn value(&self) -> T {
        self.current_value
    }

    /// Creates the state with the value to show before any message arrives.
    pub fn new(initial_value: T) -> (c: Self)
        ensures
            c.value() == initial_value,
    {
        AeronSubscriberCore { current_value: initial_value }
    }

    /// Returns the value kept for downstream nodes.
    pub fn current_value(&self) -> (v: &T)
        ensures
            *v == self.value(),
    {
        &self.current_value
    }

    /// Takes in what the parser made of one fragment.
    pub fn apply_parsed(&mut self, parsed: Result<Option<T>, TransportError>) -> (r: Result<(), TransportError>)
        ensures
            is_parse_step(old(self).value(), parsed, final(self).value(), r),
    {
        match parsed {
            Ok(Some(value)) => {
                self.current_value = value;
                Ok(())
            },
            Ok(None) => Ok(()),
            Err(e) => Err(e),
        }
    }

    /// Parses one received fragment with `parser` and takes in the outcome.
    pub fn process_fragment<F>(&mut self, parser: &mut F, fragment: &FragmentBuffer) -> (r: Result<
        (),
        TransportError,
    >) where F: FnMut(&[u8]) -> Result<Option<T>, TransportError>
        requires
            forall|bytes: &[u8]| call_requires(*old(parser), (bytes,)),
        ensures
            exists|parsed: Result<Option<T>, TransportError>, bytes: &[u8]|
                bytes@ == fragment.data() && call_ensures(*old(parser), (bytes,), parsed)
                    && is_parse_step(old(self).value(), parsed, final(self).value(), r),
    {
        let bytes: &[u8] = fragment.as_ref();
        let parsed = parser(bytes);
        self.apply_parsed(parsed)
    }
}

/// The value a node shows after a run of fragments that parsed to
/// `outcomes` (`None` for a skipped fragment), starting from `initial`: the
/// most recently parsed value, or `initial` while none was parsed.
pub open spec fn latest_parsed<T>(initial: T, outcomes: Seq<Option<T>>) -> T
    decreases outcomes.len(),
{
    if outcomes.len() == 0 {
        initial
    } else {
        match outcomes.last() {
            Some(v) => v,
            None => latest_parsed(initial, outcomes.drop_last()),
        }
    }
}

/// A node shows the most recently parsed value: after any run of fragments
/// that each parsed to a value or were skipped, the value kept is the last
/// value parsed, or the initial value if there was none.
pub proof fn lemma_shows_latest_parsed<T>(values: Seq<T>, outcomes: Seq<Option<T>>)
    requires
        values.len() == outcomes.len() + 1,
        forall|i: int|
            0 <= i < outcomes.len() ==> is_parse_step(
                values[i],
                Ok(#[trigger] outcomes[i]),
                values[i + 1],
                Ok(()),
            ),
    ensures
        values.last() == latest_parsed(values[0], outcomes),
    decreases outcomes.len(),
{
    if outcomes.len() > 0 {
        let n: int = outcomes.len() - 1;
        assert(is_parse_step(values[n], Ok(outcomes[n]), values[n + 1], Ok(())));
        lemma_shows_latest_parsed(values.drop_last(), outcomes.drop_last());
        assert(values.drop_last()[0] == values[0]);
        assert(values.drop_last().last() == values[n]);
    }
}

/// A parse error never changes the value kept; it is passed on as it is.
pub proof fn lemma_error_keeps_value<T>(current: T, e: TransportError, next: T, r: Result<(), TransportError>)
    requires
        is_parse_step(current, Err(e), next, r),
    ensures
        next == current,
        r == Err::<(), TransportError>(e),
{
}

} // verus!
