//! A bounded queue for the samples that wait for the next tick.
//!
//! The producer of samples must never be held up, and a consumer that falls
//! behind must not pile up samples without limit. So the queue has a fixed
//! capacity, and a sample that arrives at a full queue pushes the oldest one
//! out.

use vstd::prelude::*;

verus! {

/// What a queue holds: its capacity and the samples that wait, oldest first.
pub struct QueueState {
    pub capacity: usize,
    pub samples: Seq<(i32, i32, i32)>,
}

/// The samples of a queue after `sample` arrived: appended where there is
/// room, else appended in place of the oldest. A queue of capacity zero
/// keeps nothing.
pub open spec fn spec_queue_push(q: QueueState, sample: (i32, i32, i32)) -> Seq<(i32, i32, i32)> {
    if q.capacity == 0 {
        q.samples
    } else if q.samples.len() < q.capacity {
        q.samples.push(sample)
    } else {
        q.samples.drop_first().push(sample)
    }
}

/// The sample that is lost when `sample` arrives: none where there is room,
/// else the oldest. A queue of capacity zero loses the sample itself.
pub open spec fn spec_queue_dropped(q: QueueState, sample: (i32, i32, i32)) -> Option<(i32, i32, i32)> {
    if q.capacity == 0 {
        Some(sample)
    } else if q.samples.len() < q.capacity {
        None
    } else {
        Some(q.samples[0])
    }
}

/// A queue of samples with a fixed capacity that drops the oldest sample
/// when it is full.
pub struct SampleQueue {
    capacity: usize,
    samples: Vec<(i32, i32, i32)>,
}

impl View for SampleQueue {
    type V = QueueState;

    closed spec fn view(&self) -> QueueState {
        QueueState { capacity: self.capacity, samples: self.samples@ }
    }
}

impl SampleQueue {
    /// The queue never holds more than its capacity.
    #[verifier::type_invariant]
    spec fn fits(self) -> bool {
        self.samples@.len() <= self.capacity
    }

    /// An empty queue that holds up to `capacity` samples.
    pub fn new(capacity: usize) -> (queue: Self)
        ensures
            queue@ == (QueueState { capacity, samples: Seq::empty() }),
    {
        SampleQueue { capacity, samples: Vec::new() }
    }

    /// The number of samples the queue can hold.
    pub fn capacity(&self) -> (capacity: usize)
        ensures
            capacity == self@.capacity,
    {
        self.capacity
    }

    /// The number of samples that wait, which never exceeds the capacity.
    pub fn len(&self) -> (len: usize)
        ensures
            len == self@.samples.len(),
            len <= self@.capacity,
    {
        proof {
            use_type_invariant(self);
        }
        self.samples.len()
    }

    /// Takes a sample in, and gives back the sample that had to go for it,
    /// if any.
    pub fn push(&mut self, sample: (i32, i32, i32)) -> (dropped: Option<(i32, i32, i32)>)
        ensures
            final(self)@.capacity == old(self)@.capacity,
            final(self)@.samples == spec_queue_push(old(self)@, sample),
            dropped == spec_queue_dropped(old(self)@, sample),
    {
        proof {
            use_type_invariant(&*self);
        }
        if self.capacity == 0 {
            return Some(sample);
        }
        let mut samples: Vec<(i32, i32, i32)> = Vec::new();
        std::mem::swap(&mut self.samples, &mut samples);
        let dropped = if samples.len() < self.capacity {
            None
        } else {
            let oldest = samples.remove(0);
            assert(samples@ =~= old(self)@.samples.drop_first());
            Some(oldest)
        };
        samples.push(sample);
        self.samples = samples;
        dropped
    }

    /// Gives the samples that wait, oldest first, and leaves the queue empty.
    pub fn drain(&mut self) -> (samples: Vec<(i32, i32, i32)>)
        ensures
            samples@ == old(self)@.samples,
            final(self)@ == (QueueState { capacity: old(self)@.capacity, samples: Seq::empty() }),
    {
        let mut samples: Vec<(i32, i32, i32)> = Vec::new();
        std::mem::swap(&mut self.samples, &mut samples);
        samples
    }
}

} // verus!
