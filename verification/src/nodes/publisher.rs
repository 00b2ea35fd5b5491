//! The state of a node that publishes an upstream value.
use vstd::prelude::*;

use vstd::std_specs::cmp::PartialEqSpec;

use crate::transport::{AeronPublisher, TransportError};

verus! {

/// `next` is the last published value, and `r` the result, after `offered`
/// was offered while `last` was the last published value and the offer
/// came back as `outcome`:
///
/// - accepted: `offered` is now the last published value;
/// - back-pressure: nothing changes and no error is raised, so that the
///   value is offered again on the next cycle;
/// - any other error is passed on and nothing changes.
pub open spec fn is_offer_step<T>(
    last: T,
    offered: T,
    outcome: Result<i64, TransportError>,
    next: T,
    r: Result<(), TransportError>,
) -> bool {
    match outcome {
        Ok(_) => next == offered && r is Ok,
        Err(TransportError::BackPressure) => next == last && r is Ok,
        Err(e) => next == last && r == Err::<(), TransportError>(e),
    }
}

/// Whether `current` differs from `last`, as `T`'s equality says.
pub open spec fn differs<T: PartialEq>(current: T, last: T) -> bool {
    !(T::obeys_eq_spec() && current.eq_spec(&last))
}

/// The state of a publisher node: the value it published last (initially
/// the default of the value type).
pub struct AeronPublisherCore<T> {
    last_value: T,
}

impl<T> AeronPublisherCore<T> {
    /// The last published value.
    pub closed spec fn last(&self) -> T {
        self.last_value
    }

    /// Creates the state with the value taken as already published.
    pub fn new(initial_value: T) -> (c: Self)
        ensures
            c.last() == initial_value,
    {
        AeronPublisherCore { last_value: initial_value }
    }

    /// Returns the last published value.
    pub fn last_value(&self) -> (v: &T)
        ensures
            *v == self.last(),
    {
        &self.last_value
    }

    /// Takes in how the offer of `offered` came back.
    pub fn record_offer(&mut self, offered: T, outcome: Result<i64, TransportError>) -> (r: Result<
        (),
        TransportError,
    >)
        ensures
            is_offer_step(old(self).last(), offered, outcome, final(self).last(), r),
            outcome is Ok ==> r is Ok && final(self).last() == offered,
            outcome matches Err(e) ==> final(self).last() == old(self).last() && (if e is BackPressure {
                r is Ok
            } else {
                r == Err::<(), TransportError>(e)
            }),
    {
        match outcome {
            Ok(_) => {
                self.last_value = offered;
                Ok(())
            },
            Err(TransportError::BackPressure) => Ok(()),
            Err(e) => Err(e),
        }
    }
}

impl<T: PartialEq + Clone> AeronPublisherCore<T> {
    /// Whether `current` has to be published: it differs from the last
    /// published value.
    pub fn should_publish(&self, current: &T) -> (b: bool)
        ensures
            T::obeys_eq_spec() ==> b == differs(*current, self.last()),
    {
        !current.eq(&self.last_value)
    }

    /// Publishes `current` through `publisher`, serialised by `serializer`,
    /// when it differs from the last published value; an unchanged value is
    /// not offered again.
    pub fn publish_if_changed<P, Ser>(&mut self, publisher: &mut P, serializer: &mut Ser, current: &T) -> (r:
        Result<(), TransportError>) where P: AeronPublisher, Ser: FnMut(&T) -> Vec<u8>
        requires
            forall|v: &T| call_requires(*old(serializer), (v,)),
        ensures
            T::obeys_eq_spec() && !differs(*current, old(self).last()) ==> r is Ok && final(self).last()
                == old(self).last() && *final(publisher) == *old(publisher),
            final(self).last() == old(self).last() || (r is Ok && cloned(*current, final(self).last())),
            r matches Err(e) ==> !(e is BackPressure) && final(self).last() == old(self).last(),
            T::obeys_eq_spec() && differs(*current, old(self).last()) ==> exists|
                bytes: Vec<u8>,
                outcome: Result<i64, TransportError>,
                offered: T,
            |
                call_ensures(*old(serializer), (current,), bytes) && P::offer_post(
                    &*old(publisher),
                    &*final(publisher),
                    bytes@,
                    outcome,
                ) && cloned(*current, offered) && is_offer_step(
                    old(self).last(),
                    offered,
                    outcome,
                    final(self).last(),
                    r,
                ),
    {
        if !self.should_publish(current) {
            return Ok(());
        }
        let bytes = serializer(current);
        let offered = current.clone();
        let outcome = publisher.offer(bytes.as_slice());
        let r = self.record_offer(offered, outcome);
        proof {
            // The serialised bytes, the outcome and the clone witness the offer.
            assert(P::offer_post(&*old(publisher), &*publisher, bytes@, outcome));
            assert(call_ensures(*old(serializer), (current,), bytes));
            assert(cloned(*current, offered));
            assert(is_offer_step(old(self).last(), offered, outcome, self.last(), r));
        }
        r
    }
}

/// How an offer's outcome decides the node's step, for every outcome: an
/// accepted offer becomes the last published value and the step succeeds;
/// a failed offer leaves the last published value as it was, and only
/// back-pressure is skipped without an error: every other error is the
/// step's result, unchanged.
pub proof fn lemma_offer_outcome_decides_step<T>(
    last: T,
    offered: T,
    outcome: Result<i64, TransportError>,
    next: T,
    r: Result<(), TransportError>,
)
    requires
        is_offer_step(last, offered, outcome, next, r),
    ensures
        outcome is Ok ==> r == Ok::<(), TransportError>(()) && next == offered,
        outcome is Err ==> next == last,
        (r is Ok) == (outcome is Ok || outcome == Err::<i64, TransportError>(TransportError::BackPressure)),
        forall|e: TransportError| outcome == Err::<i64, TransportError>(e) && !(e is BackPressure) ==> r == Err::<(), TransportError>(e),
{
    if let Ok(u) = r {
        assert(u == ());
    }
}

/// Back-pressure only postpones a publication: the last published value
/// stays as it was and no error is raised, so a value that differed from it
/// still differs on the next cycle and is offered again.
pub proof fn lemma_back_pressure_retries<T: PartialEq>(last: T, offered: T, next: T, r: Result<(), TransportError>)
    requires
        is_offer_step(last, offered, Err(TransportError::BackPressure), next, r),
    ensures
        next == last,
        r is Ok,
        differs(offered, last) ==> differs(offered, next),
{
}

/// An accepted offer makes the offered value the last published one, so
/// the same value is not offered again while it stays unchanged (for types
/// whose equality is reflexive on it).
pub proof fn lemma_accepted_offer_settles<T: PartialEq>(last: T, offered: T, position: i64, next: T, r: Result<
    (),
    TransportError,
>)
    requires
        is_offer_step(last, offered, Ok(position), next, r),
        T::obeys_eq_spec() && offered.eq_spec(&offered),
    ensures
        next == offered,
        r is Ok,
        !differs(offered, next),
{
}

} // verus!
