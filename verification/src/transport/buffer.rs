//! Zero-copy buffer types for transport operations.
use vstd::prelude::*;

verus! {

/// A claimed buffer for zero-copy message publication.
///
/// It gives mutable access to a region of the publication buffer, so a
/// message can be written in place without an intermediate copy. The
/// lifetime `'a` keeps the claim from outliving the transport resource.
#[derive(Debug)]
pub struct ClaimBuffer<'a> {
    /// The claimed region; what is written here is what gets published.
    pub buffer: &'a mut [u8],
    /// The stream position of the claim.
    pub position: i64,
}

impl<'a> ClaimBuffer<'a> {
    /// The bytes of the claimed region.
    pub open spec fn data(&self) -> Seq<u8> {
        self.buffer@
    }

    /// The stream position of the claim.
    pub open spec fn claim_position(&self) -> i64 {
        self.position
    }

    /// Creates a claim buffer over the given mutable slice.
    pub fn new(buffer: &'a mut [u8], position: i64) -> (c: Self)
        ensures
            c.data() == old(buffer)@,
            c.claim_position() == position,
            final(c.buffer)@ == final(buffer)@,
    {
        ClaimBuffer { buffer, position }
    }

    /// Returns the length of the claimed region.
    pub fn len(&self) -> (n: usize)
        ensures
            n == self.data().len(),
    {
        self.buffer.len()
    }

    /// Returns true if the claimed region is empty.
    pub fn is_empty(&self) -> (b: bool)
        ensures
            b == (self.data().len() == 0),
    {
        self.buffer.len() == 0
    }

    /// Returns the stream position of this claim.
    pub fn position(&self) -> (p: i64)
        ensures
            p == self.claim_position(),
    {
        self.position
    }
}

impl<'a> core::ops::Deref for ClaimBuffer<'a> {
    type Target = [u8];

    fn deref(&self) -> (s: &[u8])
        ensures
            s@ == self.data(),
    {
        self.buffer
    }
}

impl<'a> core::ops::DerefMut for ClaimBuffer<'a> {
    fn deref_mut(&mut self) -> (s: &mut [u8])
        ensures
            s@ == old(self).data(),
            final(self).data() == final(s)@,
            final(self).claim_position() == old(self).claim_position(),
            final(final(self).buffer)@ == final(old(self).buffer)@,
    {
        &mut *self.buffer
    }
}

/// Metadata about a received message fragment.
#[derive(Debug, Clone, Copy)]
pub struct FragmentHeader {
    /// Position in the stream where this fragment starts.
    pub position: i64,
    /// Session ID of this fragment.
    pub session_id: i32,
    /// Stream ID of this fragment.
    pub stream_id: i32,
}

/// A received message fragment, read in place from the subscription.
#[derive(Debug)]
pub struct FragmentBuffer<'a> {
    buffer: &'a [u8],
    header: FragmentHeader,
}

impl<'a> FragmentBuffer<'a> {
    /// The bytes of the fragment.
    pub closed spec fn data(&self) -> Seq<u8> {
        self.buffer@
    }

    /// The metadata of the fragment.
    pub closed spec fn meta(&self) -> FragmentHeader {
        self.header
    }

    /// Creates a fragment buffer over the given slice with header metadata.
    pub fn new(buffer: &'a [u8], header: FragmentHeader) -> (f: Self)
        ensures
            f.data() == buffer@,
            f.meta() == header,
    {
        FragmentBuffer { buffer, header }
    }

    /// Returns the length of the fragment data.
    pub fn len(&self) -> (n: usize)
        ensures
            n == self.data().len(),
    {
        self.buffer.len()
    }

    /// Returns true if the fragment is empty.
    pub fn is_empty(&self) -> (b: bool)
        ensures
            b == (self.data().len() == 0),
    {
        self.buffer.len() == 0
    }

    /// Returns the fragment header metadata.
    pub fn header(&self) -> (h: &FragmentHeader)
        ensures
            *h == self.meta(),
    {
        &self.header
    }

    /// Returns the stream position of this fragment.
    pub fn position(&self) -> (p: i64)
        ensures
            p == self.meta().position,
    {
        self.header.position
    }
}

impl<'a> core::ops::Deref for FragmentBuffer<'a> {
    type Target = [u8];

    fn deref(&self) -> (s: &[u8])
        ensures
            s@ == self.data(),
    {
        self.buffer
    }
}

impl<'a> AsRef<[u8]> for FragmentBuffer<'a> {
    fn as_ref(&self) -> (s: &[u8])
        ensures
            s@ == self.data(),
    {
        self.buffer
    }
}

} // verus!
