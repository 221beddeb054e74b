//! The streaming adapter between packets and fixed-size requests.
//!
//! A decoder produces packets of whatever size the codec likes; the worker
//! that fills the ring buffer asks for the number of samples that it has
//! room for. The adapter keeps what is left of a packet for the next
//! request. It holds two buffers: when a packet arrives while samples are
//! left over, the leftovers and the packet are laid down in the idle buffer
//! and the two buffers change roles, so nothing is ever shifted in place.

use vstd::prelude::*;
use vstd::slice::slice_subrange;

verus! {

/// Upper bound on the samples of one decoded packet: 8192 frames of eight
/// channels.
pub const MAX_SAMPLES_PER_DECODE: usize = 65536;

/// Two buffers, one of them active: it holds the samples not yet handed
/// out, from `position` on.
pub struct DoubleBuffer {
    first: Vec<i32>,
    second: Vec<i32>,
    /// Whether `second` is the active buffer.
    second_active: bool,
    /// Where the samples not yet handed out begin in the active buffer.
    position: usize,
}

impl View for DoubleBuffer {
    type V = Seq<i32>;

    /// The samples not yet handed out, oldest first.
    closed spec fn view(&self) -> Seq<i32> {
        if self.second_active {
            self.second@.skip(self.position as int)
        } else {
            self.first@.skip(self.position as int)
        }
    }
}

impl DoubleBuffer {
    /// The invariant: the read position lies inside the active buffer.
    pub closed spec fn wf(&self) -> bool {
        if self.second_active {
            self.position <= self.second@.len()
        } else {
            self.position <= self.first@.len()
        }
    }

    /// An empty pair of buffers, each with room for two packets.
    pub fn new() -> (r: Self)
        ensures
            r.wf(),
            r@ == Seq::<i32>::empty(),
    {
        let r = DoubleBuffer {
            first: Vec::with_capacity(MAX_SAMPLES_PER_DECODE * 2),
            second: Vec::with_capacity(MAX_SAMPLES_PER_DECODE * 2),
            second_active: false,
            position: 0,
        };
        assert(r@ =~= Seq::<i32>::empty());
        r
    }

    /// How many samples are left to hand out.
    #[inline]
    pub fn available(&self) -> (n: usize)
        requires
            self.wf(),
        ensures
            n == self@.len(),
    {
        if self.second_active {
            self.second.len() - self.position
        } else {
            self.first.len() - self.position
        }
    }

    /// The next `count` samples, or all that are left if that is fewer,
    /// without a copy. They are not handed out again.
    #[inline]
    pub fn read(&mut self, count: usize) -> (out: &[i32])
        requires
            old(self).wf(),
        ensures
            final(self).wf(),
            out@ == old(self)@.take(if count <= old(self)@.len() {
                count as int
            } else {
                old(self)@.len() as int
            }),
            final(self)@ == old(self)@.skip(out@.len() as int),
    {
        let len: usize = if self.second_active { self.second.len() } else { self.first.len() };
        let start: usize = self.position;
        let available: usize = len - start;
        let to_read: usize = if count <= available { count } else { available };
        self.position = start + to_read;
        let out: &[i32] = if self.second_active {
            slice_subrange(self.second.as_slice(), start, start + to_read)
        } else {
            slice_subrange(self.first.as_slice(), start, start + to_read)
        };
        assert(out@ =~= old(self)@.take(to_read as int));
        assert(self@ =~= old(self)@.skip(to_read as int));
        out
    }

    /// Lays down what is left, followed by `new_data`, in the idle buffer,
    /// and makes that buffer the active one.
    pub fn swap_and_append(&mut self, new_data: &[i32])
        requires
            old(self).wf(),
        ensures
            final(self).wf(),
            final(self)@ == old(self)@ + new_data@,
    {
        let pos: usize = self.position;
        if self.second_active {
            let end: usize = self.second.len();
            self.first.clear();
            self.first.extend_from_slice(slice_subrange(self.second.as_slice(), pos, end));
            self.first.extend_from_slice(new_data);
        } else {
            let end: usize = self.first.len();
            self.second.clear();
            self.second.extend_from_slice(slice_subrange(self.first.as_slice(), pos, end));
            self.second.extend_from_slice(new_data);
        }
        self.second_active = !self.second_active;
        self.position = 0;
        assert(self@ =~= old(self)@ + new_data@);
    }

    /// Takes in a packet: behind what is left, if anything is; else in
    /// place of it. An empty packet changes nothing.
    pub fn feed(&mut self, samples: &[i32])
        requires
            old(self).wf(),
        ensures
            final(self).wf(),
            final(self)@ == old(self)@ + samples@,
    {
        if samples.len() == 0 {
            assert(self@ =~= old(self)@ + samples@);
        } else if self.available() == 0 {
            self.append(samples);
            assert(self@ =~= old(self)@ + samples@);
        } else {
            self.swap_and_append(samples);
        }
    }

    /// Replaces the content of the active buffer by `data`. Meant for the
    /// moment when nothing is left: whatever was left is dropped.
    pub fn append(&mut self, data: &[i32])
        ensures
            final(self).wf(),
            final(self)@ == data@,
    {
        if self.second_active {
            self.second.clear();
            self.second.extend_from_slice(data);
        } else {
            self.first.clear();
            self.first.extend_from_slice(data);
        }
        self.position = 0;
        assert(self@ =~= data@);
    }
}

/// Streaming adapter on top of a decoder `D`.
///
/// The adapter does not call the decoder itself. Whoever drives it asks
/// [`DecoderIterator::needs_packet`] before a request; if the answer is
/// yes, it decodes one packet and hands it to [`DecoderIterator::feed`]
/// (an empty packet stands for the end of the file); then it calls
/// [`DecoderIterator::read_i32`].
pub struct DecoderIterator<D> {
    decoder: D,
    double_buffer: DoubleBuffer,
}

impl<D> View for DecoderIterator<D> {
    type V = Seq<i32>;

    /// The samples decoded and not yet handed out, oldest first.
    closed spec fn view(&self) -> Seq<i32> {
        self.double_buffer@
    }
}

impl<D> DecoderIterator<D> {
    /// The invariant of the adapter.
    pub closed spec fn wf(&self) -> bool {
        self.double_buffer.wf()
    }

    /// The buffers, in specifications: the adapter is well-formed when
    /// they are, and its view is theirs.
    pub closed spec fn spec_buffers(&self) -> DoubleBuffer {
        self.double_buffer
    }

    /// How the adapter and its buffers hang together.
    pub proof fn lemma_buffers(&self)
        ensures
            self.wf() == self.spec_buffers().wf(),
            self@ == self.spec_buffers()@,
    {
    }

    /// The decoder, in specifications.
    pub closed spec fn spec_decoder(&self) -> D {
        self.decoder
    }

    /// An adapter with nothing buffered.
    pub fn new(decoder: D) -> (r: Self)
        ensures
            r.wf(),
            r@ == Seq::<i32>::empty(),
            r.spec_decoder() == decoder,
    {
        DecoderIterator { decoder, double_buffer: DoubleBuffer::new() }
    }

    /// The decoder.
    pub fn decoder(&self) -> (d: &D)
        ensures
            *d == self.spec_decoder(),
    {
        &self.decoder
    }

    /// The decoder, to decode the next packet with.
    pub fn decoder_mut(&mut self) -> (d: &mut D)
        ensures
            *d == old(self).spec_decoder(),
            final(self).spec_decoder() == *final(d),
            final(self)@ == old(self)@,
            old(self).wf() ==> final(self).wf(),
    {
        &mut self.decoder
    }

    /// Whether a request for `count` samples needs another packet first:
    /// whether fewer than `count` samples are buffered.
    pub fn needs_packet(&self, count: usize) -> (r: bool)
        requires
            self.wf(),
        ensures
            r == (self@.len() < count),
    {
        self.double_buffer.available() < count
    }

    /// Takes in a decoded packet. An empty packet, the end of the file,
    /// changes nothing.
    pub fn feed(&mut self, samples: &[i32])
        requires
            old(self).wf(),
        ensures
            final(self).wf(),
            final(self)@ == old(self)@ + samples@,
            final(self).spec_decoder() == old(self).spec_decoder(),
    {
        self.double_buffer.feed(samples);
    }

    /// The decoder and the buffers, side by side: for a caller that
    /// decodes a packet with the one and feeds it to the other without a
    /// copy in between.
    pub fn parts(&mut self) -> (parts: (&mut D, &mut DoubleBuffer))
        ensures
            *parts.0 == old(self).spec_decoder(),
            *parts.1 == old(self).spec_buffers(),
            final(self).spec_decoder() == *final(parts.0),
            final(self).spec_buffers() == *final(parts.1),
    {
        (&mut self.decoder, &mut self.double_buffer)
    }

    /// The next `count` samples, or all that are buffered if that is
    /// fewer. An empty result after a [`feed`](Self::feed) of the end of
    /// the file means that the stream is over.
    pub fn read_i32(&mut self, count: usize) -> (out: &[i32])
        requires
            old(self).wf(),
        ensures
            final(self).wf(),
            out@ == old(self)@.take(if count <= old(self)@.len() {
                count as int
            } else {
                old(self)@.len() as int
            }),
            final(self)@ == old(self)@.skip(out@.len() as int),
            final(self).spec_decoder() == old(self).spec_decoder(),
    {
        self.double_buffer.read(count)
    }

    /// Whether nothing is buffered.
    pub fn is_eof(&self) -> (r: bool)
        requires
            self.wf(),
        ensures
            r == (self@.len() == 0),
    {
        self.double_buffer.available() == 0
    }
}

} // verus!
