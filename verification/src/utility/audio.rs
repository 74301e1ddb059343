use crate::utility::ring_buffer::RingBuffer;
use vstd::prelude::*;

verus! {

/// An audio source that plays back what a producer has queued in a ring
/// buffer, one stereo frame of two samples at a time.
pub struct BufferAudioSource<T> {
    pub buffer: RingBuffer<T>,
    /// The rate of the latest request for a sample, if there was one.
    pub sample_rate: Option<u32>,
}

impl<T: Copy> BufferAudioSource<T> {
    /// Samples to keep queued at `rate` frames per second: a fifteenth of
    /// a second of stereo frames.
    pub open spec fn target(rate: Option<u32>) -> nat {
        match rate {
            Some(r) => ((r / 15) * 2) as nat,
            None => 0,
        }
    }

    /// A source that plays `buffer` and has not been asked for a sample yet.
    pub fn new(buffer: RingBuffer<T>) -> (source: Self)
        ensures
            source.buffer == buffer,
            source.sample_rate.is_none(),
    {
        Self { buffer, sample_rate: None }
    }

    /// The sample rate of the latest request, if there was one.
    pub fn sample_rate(&self) -> (rate: Option<u32>)
        ensures
            rate == self.sample_rate,
    {
        self.sample_rate
    }

    /// Takes the next stereo frame from the queue and notes the rate it was
    /// asked at. A sample that the queue cannot supply is `silence`.
    pub fn sample(&mut self, sample_rate: u32, silence: T) -> (frame: (T, T))
        requires
            old(self).buffer.wf(),
        ensures
            final(self).sample_rate == Some(sample_rate),
            final(self).buffer.wf(),
            final(self).buffer@ == old(self).buffer@.consumed(2),
            frame.0 == (if old(self).buffer.len > 0 {
                old(self).buffer@.contents()[0]
            } else {
                silence
            }),
            frame.1 == (if old(self).buffer.len > 1 {
                old(self).buffer@.contents()[1]
            } else {
                silence
            }),
    {
        self.sample_rate = Some(sample_rate);
        let ghost queue = self.buffer@.contents();
        let (l, r) = self.buffer.read(2);
        assert((l@ + r@).len() == l.len() + r.len());
        assert(forall|i: int| 0 <= i < l.len() + r.len() ==> (l@ + r@)[i] == queue[i]);
        let a: T = if l.len() > 0 {
            l[0]
        } else if r.len() > 0 {
            r[0]
        } else {
            silence
        };
        let b: T = if l.len() > 1 {
            l[1]
        } else if l.len() + r.len() > 1 {
            r[1 - l.len()]
        } else {
            silence
        };
        (a, b)
    }

    /// Number of samples to queue now so that the target amount for the
    /// latest rate is buffered.
    pub fn to_fill(&self) -> (amount: usize)
        requires
            self.buffer.len <= Self::target(self.sample_rate),
        ensures
            amount == Self::target(self.sample_rate) - self.buffer.len,
    {
        let rate: u32 = match self.sample_rate {
            Some(r) => r,
            None => 0,
        };
        let target: u32 = (rate / 15) * 2;
        target as usize - self.buffer.len()
    }
}

} // verus!
