use vstd::prelude::*;

verus! {

/// The number of samples the ring between the audio decoder and the output
/// device holds; its size in bytes is this times the size of a sample.
pub const SAMPLE_RING_CAPACITY: usize = 4096;

/// How long the audio decoder waits, in milliseconds, before it looks for
/// room in the ring again.
pub const RING_WAIT_MILLIS: u64 = 16;

/// The decoder's end of a sample ring: it adds the bytes of interleaved
/// samples.
#[verifier::external_body]
pub struct SampleProducer {
    ring: ringbuf::HeapProducer<u8>,
}

/// The device's end of a sample ring: it takes sample bytes out.
#[verifier::external_body]
pub struct SampleConsumer {
    ring: ringbuf::HeapConsumer<u8>,
}

/// A ring of sample bytes between the audio decoder and the output device,
/// before it is split into its two ends.
#[verifier::external_body]
pub struct SampleRing {
    ring: ringbuf::HeapRb<u8>,
}

/// The number of bytes a ring was made with.
pub uninterp spec fn ring_slots(r: SampleRing) -> nat;

/// The number of bytes the ring behind a producer was made with.
pub uninterp spec fn ring_capacity(p: SampleProducer) -> nat;

/// The free room in the ring that the producer knows of. Only the producer
/// takes room away; the consumer only ever adds to it.
pub uninterp spec fn ring_room(p: SampleProducer) -> nat;

/// The bytes in the ring that the consumer knows of, oldest first. Only
/// the consumer takes bytes out; the producer only ever adds at the end.
pub uninterp spec fn ring_pending(c: SampleConsumer) -> Seq<u8>;

impl SampleRing {
    /// Relies on ringbuf's `HeapRb::new`: a ring of `capacity` slots. It
    /// panics on a capacity of zero.
    #[verifier::external_body]
    fn new(capacity: usize) -> (r: SampleRing)
        requires
            capacity > 0,
        ensures
            ring_slots(r) == capacity,
    {
        SampleRing { ring: ringbuf::HeapRb::<u8>::new(capacity) }
    }

    /// Relies on ringbuf's `SharedRb::split`: the producing and the
    /// consuming end of the ring. Nothing has been pushed into a ring that
    /// is still whole, so all of it is free.
    #[verifier::external_body]
    fn split(self) -> (r: (SampleProducer, SampleConsumer))
        ensures
            ring_capacity(r.0) == ring_slots(self),
            ring_room(r.0) == ring_slots(self),
            ring_pending(r.1) == Seq::<u8>::empty(),
    {
        let (producer, consumer) = self.ring.split();
        (SampleProducer { ring: producer }, SampleConsumer { ring: consumer })
    }
}

/// An empty ring for `slots` samples of `sample_size` bytes each, split
/// into its two ends.
pub fn sample_ring(slots: usize, sample_size: usize) -> (r: (SampleProducer, SampleConsumer))
    requires
        slots > 0,
        sample_size > 0,
        slots * sample_size <= usize::MAX,
    ensures
        ring_capacity(r.0) == slots * sample_size,
        ring_room(r.0) == slots * sample_size,
        ring_pending(r.1) == Seq::<u8>::empty(),
{
    proof {
        vstd::arithmetic::mul::lemma_mul_increases(sample_size as int, slots as int);
        vstd::arithmetic::mul::lemma_mul_is_commutative(sample_size as int, slots as int);
    }
    SampleRing::new(slots * sample_size).split()
}

/// Whether `wanted` bytes fit into `free` bytes of room.
pub fn has_room(free: usize, wanted: usize) -> (r: bool)
    ensures
        r == (wanted <= free),
{
    wanted <= free
}

impl SampleProducer {
    /// Relies on ringbuf's `Producer::free_len`: the free room in the ring,
    /// which never exceeds its capacity.
    #[verifier::external_body]
    fn free_len(&mut self) -> (r: usize)
        ensures
            r == ring_room(*final(self)),
            r <= ring_capacity(*final(self)),
            ring_capacity(*final(self)) == ring_capacity(*old(self)),
    {
        self.ring.free_len()
    }

    /// Relies on ringbuf's `Producer::push_slice`: appends as many of
    /// `bytes` as there is room for, from the front, and says how many.
    #[verifier::external_body]
    fn push_slice(&mut self, bytes: &[u8]) -> (r: usize)
        ensures
            r <= bytes@.len(),
            bytes@.len() <= ring_room(*old(self)) ==> r == bytes@.len(),
            ring_capacity(*final(self)) == ring_capacity(*old(self)),
    {
        self.ring.push_slice(bytes)
    }

    /// Offers `bytes` to the ring: when it has room for all of them they all
    /// go in and their number is returned; otherwise nothing is pushed,
    /// `None` comes back, and the caller waits and offers them again. What
    /// is larger than the ring never goes in.
    pub fn try_push_all(&mut self, bytes: &[u8]) -> (r: Option<usize>)
        ensures
            ring_capacity(*final(self)) == ring_capacity(*old(self)),
            r matches Some(n) ==> n == bytes@.len(),
            bytes@.len() == 0 ==> r == Some(0usize),
            bytes@.len() > ring_capacity(*old(self)) ==> r is None,
    {
        let free = self.free_len();
        if has_room(free, bytes.len()) {
            Some(self.push_slice(bytes))
        } else {
            None
        }
    }
}

impl SampleConsumer {
    /// Relies on ringbuf's `Consumer::pop_slice`: moves the oldest bytes of
    /// the ring into the front of `dst`, as many as fit or are there, and
    /// says how many; the rest of `dst` is not written.
    #[verifier::external_body]
    fn pop_slice(&mut self, dst: &mut [u8]) -> (r: usize)
        ensures
            r <= old(dst)@.len(),
            r >= old(dst)@.len() || r >= ring_pending(*old(self)).len(),
            final(dst)@.len() == old(dst)@.len(),
            forall|i: int|
                0 <= i < r && i < ring_pending(*old(self)).len() ==> final(dst)@[i]
                    == ring_pending(*old(self))[i],
            forall|i: int| r <= i < old(dst)@.len() ==> final(dst)@[i] == old(dst)@[i],
    {
        self.ring.pop_slice(dst)
    }

    /// Fills an output buffer of the device from the ring: the bytes that
    /// are there come first, oldest first and as many as fit, and the rest
    /// is silence, one sample's bytes
    /// `silence` repeated at every sample position. Silence is written
    /// exactly when the ring gave fewer bytes than the buffer holds.
    pub fn fill(&mut self, dst: &mut [u8], silence: &[u8]) -> (r: usize)
        requires
            silence@.len() > 0,
        ensures
            r <= old(dst)@.len(),
            r >= old(dst)@.len() || r >= ring_pending(*old(self)).len(),
            final(dst)@.len() == old(dst)@.len(),
            forall|i: int|
                0 <= i < r && i < ring_pending(*old(self)).len() ==> final(dst)@[i]
                    == ring_pending(*old(self))[i],
            forall|i: int|
                r <= i < old(dst)@.len() ==> final(dst)@[i] == silence@[i % (silence@.len() as int)],
    {
        let filled = self.pop_slice(dst);
        pad_with_silence(dst, filled, silence);
        filled
    }
}

/// Writes silence over `dst` from position `filled` on, each position
/// taking the byte of `silence` at its place within a sample, and leaves
/// the bytes before it as they are.
pub fn pad_with_silence(dst: &mut [u8], filled: usize, silence: &[u8])
    requires
        filled <= old(dst)@.len(),
        silence@.len() > 0,
    ensures
        final(dst)@.len() == old(dst)@.len(),
        forall|i: int| 0 <= i < filled ==> final(dst)@[i] == old(dst)@[i],
        forall|i: int|
            filled <= i < old(dst)@.len() ==> final(dst)@[i] == silence@[i % (silence@.len() as int)],
{
    let n: usize = dst.len();
    let k: usize = silence.len();
    let mut i: usize = filled;
    while i < n
        invariant
            filled <= i <= n,
            n == old(dst)@.len(),
            k == silence@.len(),
            k > 0,
            dst@.len() == n,
            forall|j: int| 0 <= j < filled ==> dst@[j] == old(dst)@[j],
            forall|j: int| filled <= j < i ==> dst@[j] == silence@[j % (k as int)],
        decreases n - i,
    {
        dst[i] = silence[i % k];
        i = i + 1;
    }
}

/// The channel layouts an output device is driven with.
#[derive(Clone, Copy, Debug, PartialEq, Eq, Structural)]
pub enum ChannelLayout {
    Mono,
    Stereo,
}

/// The layout for a device with `channels` output channels: mono for one,
/// stereo for two, and none for any other count.
pub fn output_channel_layout(channels: u16) -> (r: Option<ChannelLayout>)
    ensures
        r == if channels == 1 {
            Some(ChannelLayout::Mono)
        } else if channels == 2 {
            Some(ChannelLayout::Stereo)
        } else {
            None
        },
{
    if channels == 1 {
        Some(ChannelLayout::Mono)
    } else if channels == 2 {
        Some(ChannelLayout::Stereo)
    } else {
        None
    }
}

/// The bytes of interleaved samples in the first plane of a resampled
/// frame: samples times channels times the size of one sample. The plane's
/// own reported length is not to be trusted. `None` when the product does
/// not fit in a `usize`.
pub fn plane_byte_len(samples: usize, channels: u16, sample_size: usize) -> (r: Option<usize>)
    ensures
        samples * channels * sample_size <= usize::MAX ==> r == Some(
            (samples * channels * sample_size) as usize,
        ),
        samples * channels * sample_size > usize::MAX ==> r is None,
{
    if sample_size == 0 {
        proof {
            vstd::arithmetic::mul::lemma_mul_basics(samples * channels);
        }
        return Some(0);
    }
    match samples.checked_mul(channels as usize) {
        None => {
            proof {
                vstd::arithmetic::mul::lemma_mul_increases(sample_size as int, samples * channels);
                vstd::arithmetic::mul::lemma_mul_is_commutative(
                    sample_size as int,
                    samples * channels,
                );
            }
            None
        },
        Some(n) => n.checked_mul(sample_size),
    }
}

} // verus!
