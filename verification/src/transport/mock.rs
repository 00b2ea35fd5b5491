//! In-memory implementations of the transport traits for testing.
//!
//! They need no Aeron media driver, so tests that use them are fast and
//! deterministic.
use vstd::prelude::*;

use std::collections::VecDeque;

use super::buffer::{ClaimBuffer, FragmentBuffer, FragmentHeader};
use super::error::TransportError;
use super::{AeronPublisher, AeronSubscriber};

verus! {

/// The stream position `len` bytes after `pos`, wrapping around as the
/// 64-bit position counter does.
pub open spec fn advance_position(pos: i64, len: nat) -> i64 {
    if pos + len > i64::MAX {
        (pos + len - 0x1_0000_0000_0000_0000int) as i64
    } else {
        (pos + len) as i64
    }
}

/// The stream position after the messages `msgs`, starting at `start`.
pub open spec fn position_after(start: i64, msgs: Seq<Seq<u8>>) -> i64
    decreases msgs.len(),
{
    if msgs.len() == 0 {
        start
    } else {
        advance_position(position_after(start, msgs.drop_last()), msgs.last().len())
    }
}

proof fn lemma_position_after_step(start: i64, msgs: Seq<Seq<u8>>, k: int)
    requires
        0 <= k < msgs.len(),
    ensures
        position_after(start, msgs.take(k + 1)) == advance_position(
            position_after(start, msgs.take(k)),
            msgs[k].len(),
        ),
{
    assert(msgs.take(k + 1).drop_last() =~= msgs.take(k));
}

/// A position moves on by the whole length: by exactly `len` while that
/// stays within `i64`, and otherwise by `len` less one turn of the 64-bit
/// counter (for any length that a `u64` holds).
pub proof fn lemma_position_moves_by_length(pos: i64, len: nat)
    requires
        len <= u64::MAX,
    ensures
        pos + len <= i64::MAX ==> advance_position(pos, len) == pos + len,
        pos + len > i64::MAX ==> advance_position(pos, len) == pos + len - 0x1_0000_0000_0000_0000int,
{
}

fn advance(pos: i64, len: usize) -> (r: i64)
    ensures
        r == advance_position(pos, len as nat),
        pos + len <= i64::MAX ==> r == pos + len,
{
    pos.wrapping_add_unsigned(len as u64)
}

/// The abstract state of a [`MockPublisher`].
pub struct MockPublisherView {
    /// The published messages, oldest first.
    pub messages: Seq<Seq<u8>>,
    /// The stream position of the next message.
    pub next_position: i64,
    /// Whether the next publish attempt is to fail with back-pressure.
    pub back_pressure_once: bool,
    /// The number of messages at which publishing fails with back-pressure.
    pub back_pressure_threshold: Option<usize>,
}

/// Whether a publish attempt in state `s` meets back-pressure.
pub open spec fn publisher_blocked(s: MockPublisherView) -> bool {
    s.back_pressure_once || (s.back_pressure_threshold matches Some(t) && s.messages.len() >= t)
}

/// The state after a publish attempt in state `s` met back-pressure: a
/// one-time back-pressure is used up, nothing else changes.
pub open spec fn after_refusal(s: MockPublisherView) -> MockPublisherView {
    MockPublisherView { back_pressure_once: false, ..s }
}

/// The state after `data` was published in state `s`.
pub open spec fn after_publish(s: MockPublisherView, data: Seq<u8>) -> MockPublisherView {
    MockPublisherView {
        messages: s.messages.push(data),
        next_position: advance_position(s.next_position, data.len()),
        ..s
    }
}

/// The outcome of offering `data` in state `s`: the next state and the
/// result.
pub open spec fn spec_offer(s: MockPublisherView, data: Seq<u8>) -> (MockPublisherView, Result<i64, TransportError>) {
    if publisher_blocked(s) {
        (after_refusal(s), Err(TransportError::BackPressure))
    } else {
        (after_publish(s, data), Ok(s.next_position))
    }
}

/// Mock publisher for testing.
///
/// It keeps every published message in memory, so that tests can inspect
/// what was published, and simulates back-pressure when configured to.
#[derive(Debug, Default)]
pub struct MockPublisher {
    messages: Vec<Vec<u8>>,
    next_position: i64,
    simulate_back_pressure: bool,
    back_pressure_threshold: Option<usize>,
}

impl View for MockPublisher {
    type V = MockPublisherView;

    closed spec fn view(&self) -> MockPublisherView {
        MockPublisherView {
            messages: self.messages@.map_values(|m: Vec<u8>| m@),
            next_position: self.next_position,
            back_pressure_once: self.simulate_back_pressure,
            back_pressure_threshold: self.back_pressure_threshold,
        }
    }
}

impl MockPublisher {
    /// Creates a mock publisher with no messages, at stream position 0, and
    /// no back-pressure.
    pub fn new() -> (p: Self)
        ensures
            p@.messages.len() == 0,
            p@.next_position == 0,
            !p@.back_pressure_once,
            p@.back_pressure_threshold is None,
    {
        let p = Self {
            messages: Vec::new(),
            next_position: 0,
            simulate_back_pressure: false,
            back_pressure_threshold: None,
        };
        assert(p@.messages =~= Seq::<Seq<u8>>::empty());
        p
    }

    /// Returns all published messages, oldest first.
    pub fn published_messages(&self) -> (msgs: &[Vec<u8>])
        ensures
            msgs@.len() == self@.messages.len(),
            forall|i: int| 0 <= i < msgs@.len() ==> (#[trigger] msgs@[i])@ == self@.messages[i],
    {
        self.messages.as_slice()
    }

    /// Clears all published messages. The stream position and the
    /// back-pressure settings stay as they are.
    pub fn clear(&mut self)
        ensures
            final(self)@ == (MockPublisherView { messages: Seq::empty(), ..old(self)@ }),
    {
        self.messages.clear();
        assert(self@.messages =~= Seq::<Seq<u8>>::empty());
    }

    /// Makes the next publish attempt fail with back-pressure; the attempts
    /// after it succeed again.
    pub fn simulate_back_pressure_once(&mut self)
        ensures
            final(self)@ == (MockPublisherView { back_pressure_once: true, ..old(self)@ }),
    {
        self.simulate_back_pressure = true;
    }

    /// Makes publish attempts fail with back-pressure while the number of
    /// published messages is at least `threshold` (until they are cleared).
    pub fn set_back_pressure_threshold(&mut self, threshold: usize)
        ensures
            final(self)@ == (MockPublisherView {
                back_pressure_threshold: Some(threshold),
                ..old(self)@
            }),
    {
        self.back_pressure_threshold = Some(threshold);
    }

    /// Removes the back-pressure threshold.
    pub fn clear_back_pressure_threshold(&mut self)
        ensures
            final(self)@ == (MockPublisherView { back_pressure_threshold: None, ..old(self)@ }),
    {
        self.back_pressure_threshold = None;
    }

    fn check_back_pressure(&mut self) -> (r: Result<(), TransportError>)
        ensures
            publisher_blocked(old(self)@) ==> (r matches Err(TransportError::BackPressure)
                && final(self)@ == after_refusal(old(self)@)),
            !publisher_blocked(old(self)@) ==> (r is Ok && final(self)@ == old(self)@),
    {
        if self.simulate_back_pressure {
            self.simulate_back_pressure = false;
            return Err(TransportError::BackPressure);
        }
        if let Some(threshold) = self.back_pressure_threshold {
            if self.messages.len() >= threshold {
                return Err(TransportError::BackPressure);
            }
        }
        Ok(())
    }
}

impl AeronPublisher for MockPublisher {
    /// An offer behaves as [`spec_offer`] says.
    open spec fn offer_post(
        before: &Self,
        after: &Self,
        data: Seq<u8>,
        r: Result<i64, TransportError>,
    ) -> bool {
        (after@, r) == spec_offer(before@, data)
    }

    /// Records `buffer` as published at the current stream position, unless
    /// back-pressure is being simulated.
    fn offer(&mut self, buffer: &[u8]) -> (r: Result<i64, TransportError>)
        ensures
            (final(self)@, r) == spec_offer(old(self)@, buffer@),
    {
        match self.check_back_pressure() {
            Err(e) => return Err(e),
            Ok(()) => {},
        }
        let position: i64 = self.next_position;
        self.next_position = advance(self.next_position, buffer.len());
        self.messages.push(vstd::slice::slice_to_vec(buffer));
        assert(self@.messages =~= old(self)@.messages.push(buffer@));
        Ok(position)
    }

    /// Records a zero-filled message of `length` bytes at the current stream
    /// position and hands it out to be written in place, unless
    /// back-pressure is being simulated.
    fn try_claim<'a>(&'a mut self, length: usize) -> (r: Result<ClaimBuffer<'a>, TransportError>)
        ensures
            publisher_blocked(old(self)@) ==> (r matches Err(TransportError::BackPressure)
                && final(self)@ == after_refusal(old(self)@)),
            !publisher_blocked(old(self)@) ==> (r matches Ok(claim) && claim.claim_position()
                == old(self)@.next_position && claim.data() == Seq::new(length as nat, |i: int| 0u8)
                && final(self)@.messages.len() == old(self)@.messages.len() + 1
                && final(self)@.messages.take(old(self)@.messages.len() as int) == old(self)@.messages
                && final(self)@.next_position == advance_position(old(self)@.next_position, length as nat)
                && final(self)@.back_pressure_once == old(self)@.back_pressure_once
                && final(self)@.back_pressure_threshold == old(self)@.back_pressure_threshold),
            r matches Ok(claim) ==> final(self)@.messages.last() == final(claim.buffer)@,
    {
        match self.check_back_pressure() {
            Err(e) => return Err(e),
            Ok(()) => {},
        }
        let position: i64 = self.next_position;
        self.next_position = advance(self.next_position, length);
        let zeros: Vec<u8> = vec![0u8; length];
        assert(zeros@ =~= Seq::new(length as nat, |i: int| 0u8));
        self.messages.push(zeros);
        let last: usize = self.messages.len() - 1;
        let slot = &mut self.messages[last];
        Ok(ClaimBuffer::new(slot.as_mut_slice(), position))
    }
}

/// After a one-time back-pressure is set, the next offer is refused without
/// publishing anything, and the offer after it is published at the
/// position the first one would have had (absent a threshold that blocks).
pub proof fn lemma_back_pressure_once(s: MockPublisherView, first: Seq<u8>, second: Seq<u8>)
    requires
        !(s.back_pressure_threshold matches Some(t) && s.messages.len() >= t),
    ensures
        ({
            let armed = MockPublisherView { back_pressure_once: true, ..s };
            let (after_first, r1) = spec_offer(armed, first);
            let (after_second, r2) = spec_offer(after_first, second);
            &&& r1 == Err::<i64, TransportError>(TransportError::BackPressure)
            &&& after_first.messages == s.messages
            &&& after_first.next_position == s.next_position
            &&& r2 == Ok::<i64, TransportError>(s.next_position)
            &&& after_second.messages == s.messages.push(second)
        }),
{
}

/// While the number of published messages is at the threshold or above,
/// every offer is refused and changes nothing.
pub proof fn lemma_threshold_refuses(s: MockPublisherView, data: Seq<u8>)
    requires
        s.back_pressure_threshold matches Some(t) && s.messages.len() >= t,
        !s.back_pressure_once,
    ensures
        spec_offer(s, data) == (s, Err::<i64, TransportError>(TransportError::BackPressure)),
{
}

/// Clearing the published messages lifts a positive threshold: the next
/// offer is published again.
pub proof fn lemma_clear_lifts_threshold(s: MockPublisherView, data: Seq<u8>)
    requires
        s.back_pressure_threshold matches Some(t) && t > 0,
        !s.back_pressure_once,
    ensures
        spec_offer(MockPublisherView { messages: Seq::empty(), ..s }, data).1 == Ok::<
            i64,
            TransportError,
        >(s.next_position),
{
}

/// Below the threshold, an offer is published and counts towards it: after
/// a `clear`, a threshold of `t` lets exactly `t` more messages through
/// (absent a one-time back-pressure), each offer adding one message.
pub proof fn lemma_threshold_counts_messages(s: MockPublisherView, data: Seq<u8>)
    requires
        s.back_pressure_threshold matches Some(t) && s.messages.len() < t,
        !s.back_pressure_once,
    ensures
        spec_offer(s, data).1 == Ok::<i64, TransportError>(s.next_position),
        spec_offer(s, data).0.messages.len() == s.messages.len() + 1,
        spec_offer(s, data).0.back_pressure_threshold == s.back_pressure_threshold,
        !spec_offer(s, data).0.back_pressure_once,
{
}

/// Consecutive published messages get consecutive positions: each one
/// starts where the one before it ended, and they are kept in order.
pub proof fn lemma_consecutive_offers(s: MockPublisherView, a: Seq<u8>, b: Seq<u8>)
    requires
        !s.back_pressure_once,
        s.back_pressure_threshold is None,
    ensures
        ({
            let (s1, r1) = spec_offer(s, a);
            let (s2, r2) = spec_offer(s1, b);
            &&& r1 == Ok::<i64, TransportError>(s.next_position)
            &&& r2 == Ok::<i64, TransportError>(advance_position(s.next_position, a.len()))
            &&& s2.messages == s.messages.push(a).push(b)
            &&& s2.next_position == advance_position(advance_position(s.next_position, a.len()), b.len())
        }),
{
}

/// An accepted offer is published at the publisher's position, and the
/// next one starts where it ends: the position moves on by the offer's full
/// length (wrapping as the 64-bit counter does).
pub proof fn lemma_accepted_offer_moves_position(s: MockPublisherView, data: Seq<u8>)
    requires
        data.len() <= u64::MAX,
        !publisher_blocked(s),
    ensures
        spec_offer(s, data).1 == Ok::<i64, TransportError>(s.next_position),
        s.next_position + data.len() <= i64::MAX ==> spec_offer(s, data).0.next_position
            == s.next_position + data.len(),
        s.next_position + data.len() > i64::MAX ==> spec_offer(s, data).0.next_position
            == s.next_position + data.len() - 0x1_0000_0000_0000_0000int,
        spec_offer(s, data).0.messages == s.messages.push(data),
{
    lemma_position_moves_by_length(s.next_position, data.len());
}

/// Offers each of `datas` in turn, starting in state `s`: the state after
/// the last offer, and the offers that were accepted, in call order.
pub open spec fn offer_each(s: MockPublisherView, datas: Seq<Seq<u8>>) -> (MockPublisherView, Seq<Seq<u8>>)
    decreases datas.len(),
{
    if datas.len() == 0 {
        (s, Seq::empty())
    } else {
        let (before, accepted) = offer_each(s, datas.drop_last());
        let (after, r) = spec_offer(before, datas.last());
        (after, if r is Ok { accepted.push(datas.last()) } else { accepted })
    }
}

/// The published messages are the accepted offers, in call order: after a
/// run of offers, the messages are those there before followed by each
/// offer that succeeded; those refused with back-pressure leave no trace.
/// With no back-pressure configured every offer is accepted, so the
/// messages are those there before followed by all the offers.
pub proof fn lemma_published_are_accepted(s: MockPublisherView, datas: Seq<Seq<u8>>)
    ensures
        offer_each(s, datas).0.messages == s.messages + offer_each(s, datas).1,
        !s.back_pressure_once && s.back_pressure_threshold is None ==> offer_each(s, datas).1
            == datas,
        offer_each(s, datas).0.back_pressure_threshold == s.back_pressure_threshold,
    decreases datas.len(),
{
    if datas.len() > 0 {
        lemma_published_are_accepted(s, datas.drop_last());
        let (before, accepted) = offer_each(s, datas.drop_last());
        if !s.back_pressure_once && s.back_pressure_threshold is None {
            lemma_no_once_after_offers(s, datas.drop_last());
            assert(datas.drop_last().push(datas.last()) =~= datas);
        }
        assert(s.messages + accepted.push(datas.last()) =~= (s.messages + accepted).push(
            datas.last(),
        ));
    } else {
        assert(s.messages + Seq::<Seq<u8>>::empty() =~= s.messages);
    }
}

proof fn lemma_no_once_after_offers(s: MockPublisherView, datas: Seq<Seq<u8>>)
    requires
        !s.back_pressure_once,
    ensures
        !offer_each(s, datas).0.back_pressure_once,
    decreases datas.len(),
{
    if datas.len() > 0 {
        lemma_no_once_after_offers(s, datas.drop_last());
    }
}

/// The abstract state of a [`MockSubscriber`].
pub struct MockSubscriberView {
    /// The messages waiting to be polled, oldest first.
    pub pending: Seq<Seq<u8>>,
    /// The stream position of the next fragment.
    pub next_position: i64,
    /// The session ID put in fragment headers.
    pub session_id: i32,
    /// The stream ID put in fragment headers.
    pub stream_id: i32,
}

/// The header of the fragment made of `s.pending[i]` when `s` is polled.
pub open spec fn fragment_header_at(s: MockSubscriberView, i: int) -> FragmentHeader {
    FragmentHeader {
        position: position_after(s.next_position, s.pending.take(i)),
        session_id: s.session_id,
        stream_id: s.stream_id,
    }
}

/// The handler `h` gave `out` for a fragment holding `data` under `header`.
pub open spec fn handler_gave<F: FnMut(&FragmentBuffer) -> Result<(), TransportError>>(
    h: F,
    data: Seq<u8>,
    header: FragmentHeader,
    out: Result<(), TransportError>,
) -> bool {
    exists|f: FragmentBuffer| f.data() == data && f.meta() == header && call_ensures(h, (&f,), out)
}

/// The handler `h` accepted (returned `Ok` for) a fragment holding `data`
/// under `header`.
pub open spec fn handler_accepted<F: FnMut(&FragmentBuffer) -> Result<(), TransportError>>(
    h: F,
    data: Seq<u8>,
    header: FragmentHeader,
) -> bool {
    exists|f: FragmentBuffer, out: Result<(), TransportError>|
        f.data() == data && f.meta() == header && out is Ok && call_ensures(h, (&f,), out)
}

/// The state after the first `k` pending messages of `s` were delivered.
pub open spec fn after_delivering(s: MockSubscriberView, k: int) -> MockSubscriberView {
    MockSubscriberView {
        pending: s.pending.skip(k),
        next_position: position_after(s.next_position, s.pending.take(k)),
        ..s
    }
}

/// Delivered fragments are contiguous in the stream: each one starts where
/// the one before it ended, the first at the subscriber's position, and
/// after delivering `k` messages the subscriber stands where the `k`-th
/// fragment would start.
pub proof fn lemma_fragment_positions_contiguous(s: MockSubscriberView, i: int)
    requires
        0 <= i < s.pending.len(),
    ensures
        fragment_header_at(s, 0).position == s.next_position,
        fragment_header_at(s, i + 1).position == advance_position(
            fragment_header_at(s, i).position,
            s.pending[i].len(),
        ),
        after_delivering(s, i + 1).next_position == fragment_header_at(s, i + 1).position,
{
    assert(s.pending.take(0) =~= Seq::<Seq<u8>>::empty());
    lemma_position_after_step(s.next_position, s.pending, i);
}

/// Mock subscriber for testing.
///
/// Tests inject messages, which the subscriber then delivers, oldest first,
/// through the poll interface.
#[derive(Debug, Default)]
pub struct MockSubscriber {
    messages: VecDeque<Vec<u8>>,
    next_position: i64,
    session_id: i32,
    stream_id: i32,
}

impl View for MockSubscriber {
    type V = MockSubscriberView;

    closed spec fn view(&self) -> MockSubscriberView {
        MockSubscriberView {
            pending: self.messages@.map_values(|m: Vec<u8>| m@),
            next_position: self.next_position,
            session_id: self.session_id,
            stream_id: self.stream_id,
        }
    }
}

impl MockSubscriber {
    /// Creates a mock subscriber with no pending messages, at stream
    /// position 0, with session ID 1 and stream ID 1.
    pub fn new() -> (s: Self)
        ensures
            s@.pending.len() == 0,
            s@.next_position == 0,
            s@.session_id == 1,
            s@.stream_id == 1,
    {
        Self { messages: VecDeque::new(), next_position: 0, session_id: 1, stream_id: 1 }
    }

    /// Queues a message to be delivered by a later poll (first in, first
    /// out).
    pub fn inject_message(&mut self, data: Vec<u8>)
        ensures
            final(self)@ == (MockSubscriberView { pending: old(self)@.pending.push(data@), ..old(self)@ }),
    {
        self.messages.push_back(data);
        assert(self@.pending =~= old(self)@.pending.push(data@));
    }

    /// Queues several messages, in order.
    pub fn inject_messages(&mut self, messages: Vec<Vec<u8>>)
        ensures
            final(self)@ == (MockSubscriberView {
                pending: old(self)@.pending + messages@.map_values(|m: Vec<u8>| m@),
                ..old(self)@
            }),
    {
        let ghost start = self@;
        let ghost all = messages@;
        for msg in it: messages
            invariant
                all == it.seq(),
                self@ == (MockSubscriberView {
                    pending: start.pending + all.take(it.index() as int).map_values(|m: Vec<u8>| m@),
                    ..start
                }),
        {
            proof {
                assert(all.take(it.index() + 1).map_values(|m: Vec<u8>| m@) =~= all.take(
                    it.index() as int,
                ).map_values(|m: Vec<u8>| m@).push(msg@));
            }
            self.inject_message(msg);
        }
        assert(all.take(all.len() as int) =~= all);
    }

    /// Returns the number of messages waiting to be polled.
    pub fn pending_message_count(&self) -> (n: usize)
        ensures
            n == self@.pending.len(),
    {
        self.messages.len()
    }

    /// Clears all pending messages.
    pub fn clear(&mut self)
        ensures
            final(self)@ == (MockSubscriberView { pending: Seq::empty(), ..old(self)@ }),
    {
        self.messages.clear();
        assert(self@.pending =~= Seq::<Seq<u8>>::empty());
    }

    /// Sets the session ID put in fragment headers.
    pub fn set_session_id(&mut self, session_id: i32)
        ensures
            final(self)@ == (MockSubscriberView { session_id, ..old(self)@ }),
    {
        self.session_id = session_id;
    }

    /// Sets the stream ID put in fragment headers.
    pub fn set_stream_id(&mut self, stream_id: i32)
        ensures
            final(self)@ == (MockSubscriberView { stream_id, ..old(self)@ }),
    {
        self.stream_id = stream_id;
    }
}

impl AeronSubscriber for MockSubscriber {
    /// Delivers the pending messages, oldest first, each as a fragment whose
    /// position is the stream position before it, stopping at the first
    /// error of the handler (the message it refused is consumed).
    fn poll<F>(&mut self, handler: F) -> (r: Result<usize, TransportError>) where
        F: FnMut(&FragmentBuffer) -> Result<(), TransportError>,
        ensures
            final(self)@.session_id == old(self)@.session_id,
            final(self)@.stream_id == old(self)@.stream_id,
            r matches Ok(n) ==> n == old(self)@.pending.len() && final(self)@ == after_delivering(
                old(self)@,
                n as int,
            ),
            r matches Err(e) ==> exists|k: int|
                0 <= k < old(self)@.pending.len() && final(self)@ == after_delivering(
                    old(self)@,
                    k + 1,
                ) && handler_gave(
                    handler,
                    old(self)@.pending[k],
                    fragment_header_at(old(self)@, k),
                    Err(e),
                ),
            forall|i: int|
                0 <= i < old(self)@.pending.len() - final(self)@.pending.len() - (if r is Ok {
                    0int
                } else {
                    1int
                }) ==> #[trigger] handler_accepted(
                    handler,
                    old(self)@.pending[i],
                    fragment_header_at(old(self)@, i),
                ),
    {
        let ghost start = self@;
        let ghost h0 = handler;
        let mut on_fragment = handler;
        let mut count: usize = 0;
        let total: usize = self.messages.len();
        proof {
            assert(start.pending.skip(0) =~= start.pending);
            assert(start.pending.take(0) =~= Seq::<Seq<u8>>::empty());
            assert(self@ == after_delivering(start, 0));
        }
        while self.messages.len() > 0
            invariant
                start == old(self)@,
                on_fragment == h0,
                h0 == handler,
                forall|f: &FragmentBuffer| call_requires(on_fragment, (f,)),
                count <= total,
                total == start.pending.len(),
                self@ == after_delivering(start, count as int),
                forall|i: int|
                    0 <= i < count ==> #[trigger] handler_accepted(
                        h0,
                        start.pending[i],
                        fragment_header_at(start, i),
                    ),
            decreases self@.pending.len(),
        {
            let message = self.messages.pop_front().unwrap();
            proof {
                lemma_position_after_step(start.next_position, start.pending, count as int);
                assert(start.pending.skip(count as int)[0] == start.pending[count as int]);
            }
            let position: i64 = self.next_position;
            self.next_position = advance(self.next_position, message.len());
            let header = FragmentHeader {
                position,
                session_id: self.session_id,
                stream_id: self.stream_id,
            };
            let fragment = FragmentBuffer::new(message.as_slice(), header);
            let outcome = on_fragment(&fragment);
            proof {
                assert(header == fragment_header_at(start, count as int));
                assert(handler_gave(h0, start.pending[count as int], header, outcome));
                assert(start.pending.skip(count + 1) =~= start.pending.skip(count as int).subrange(1, start.pending.skip(count as int).len() as int));
                assert(self@.pending =~= start.pending.skip(count + 1));
            }
            match outcome {
                Ok(()) => {
                    assert(handler_accepted(
                        h0,
                        start.pending[count as int],
                        fragment_header_at(start, count as int),
                    ));
                },
                Err(e) => {
                    assert(handler_gave(
                        h0,
                        start.pending[count as int],
                        fragment_header_at(start, count as int),
                        Err(e),
                    ));
                    assert(self@ == after_delivering(start, count + 1));
                    return Err(e);
                },
            }
            count = count + 1;
        }
        assert(self@.pending.len() == start.pending.len() - count);
        Ok(count)
    }
}

} // verus!
