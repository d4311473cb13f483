//! The far-end reference ring of an echo canceller.
use vstd::prelude::*;

verus! {

/// Echo-canceller filter tail, in milliseconds at the near-end rate.
pub const AEC_TAIL_MILLIS: u32 = 64;

/// Bulk-delay search range, in milliseconds at the near-end rate.
pub const AEC_DELAY_SEARCH_MILLIS: u32 = 128;

/// The last `capacity` samples of `samples`, or all of them when there are no more.
pub open spec fn newest(samples: Seq<i16>, capacity: nat) -> Seq<i16> {
    if samples.len() <= capacity {
        samples
    } else {
        samples.subrange(samples.len() - capacity, samples.len() as int)
    }
}

/// A bounded first-in-first-out buffer of the audio sent toward a party. When it is full the oldest
/// samples make room, so the newest are always kept.
#[derive(Clone, Debug)]
pub struct EchoReference {
    buffer: Vec<i16>,
    head: usize,
    length: usize,
    sample_rate_hz: u32,
}

/// What an [`EchoReference`] holds.
pub struct EchoReferenceView {
    /// The buffered samples, oldest first.
    pub samples: Seq<i16>,
    /// The most samples it holds.
    pub capacity: nat,
    /// The rate of the samples.
    pub sample_rate_hz: u32,
}

impl View for EchoReference {
    type V = EchoReferenceView;

    closed spec fn view(&self) -> EchoReferenceView {
        EchoReferenceView {
            samples: Seq::new(
                self.length as nat,
                |i: int| self.buffer@[slot(self.head as int, i, self.buffer@.len() as int)],
            ),
            capacity: self.buffer@.len(),
            sample_rate_hz: self.sample_rate_hz,
        }
    }
}

/// The ring position `offset` places after `head`.
pub open spec fn slot(head: int, offset: int, capacity: int) -> int {
    if head + offset >= capacity {
        head + offset - capacity
    } else {
        head + offset
    }
}

/// The ring position `offset` places after `head`.
fn ring_slot(head: usize, offset: usize, capacity: usize) -> (position: usize)
    requires
        head < capacity,
        offset <= capacity,
    ensures
        position == slot(head as int, offset as int, capacity as int),
        position < capacity,
{
    if offset >= capacity - head {
        offset - (capacity - head)
    } else {
        head + offset
    }
}

/// Dropping early and dropping late keep the same newest samples.
proof fn lemma_newest_push(samples: Seq<i16>, sample: i16, capacity: nat)
    requires
        capacity > 0,
    ensures
        newest(newest(samples, capacity).push(sample), capacity) == newest(samples.push(sample), capacity),
{
    assert(newest(newest(samples, capacity).push(sample), capacity) =~= newest(
        samples.push(sample),
        capacity,
    ));
}

impl EchoReference {
    /// The ring's internal positions are in range.
    pub closed spec fn wf(&self) -> bool {
        &&& self.length <= self.buffer@.len()
        &&& self.buffer@.len() > 0 ==> self.head < self.buffer@.len()
    }

    /// The ring never holds more than its capacity.
    pub proof fn law_reference_is_bounded(&self)
        requires
            self.wf(),
        ensures
            self@.samples.len() <= self@.capacity,
    {
    }

    /// An empty ring for up to `capacity` samples at `sample_rate_hz`.
    pub fn new(capacity: usize, sample_rate_hz: u32) -> (ring: Self)
        ensures
            ring.wf(),
            ring@ == (EchoReferenceView { samples: Seq::empty(), capacity: capacity as nat, sample_rate_hz }),
    {
        let ring = EchoReference { buffer: vec![0i16; capacity], head: 0, length: 0, sample_rate_hz };
        proof {
            assert(ring@.samples =~= Seq::empty());
        }
        ring
    }

    /// Append one sample, dropping the oldest when the ring is full.
    fn push_one(&mut self, sample: i16)
        requires
            old(self).wf(),
            old(self)@.capacity > 0,
        ensures
            final(self).wf(),
            final(self)@ == (EchoReferenceView {
                samples: newest(old(self)@.samples.push(sample), old(self)@.capacity),
                ..old(self)@
            }),
    {
        let capacity: usize = self.buffer.len();
        let ghost before = self@.samples;
        if self.length == capacity {
            let head: usize = self.head;
            self.buffer[head] = sample;
            self.head = ring_slot(head, 1, capacity);
        } else {
            let tail: usize = ring_slot(self.head, self.length, capacity);
            self.buffer[tail] = sample;
            self.length = self.length + 1;
        }
        proof {
            assert(self@.samples =~= newest(before.push(sample), capacity as nat));
        }
    }

    /// Append `samples`, keeping the newest when they do not all fit.
    pub fn push(&mut self, samples: &[i16])
        requires
            old(self).wf(),
        ensures
            final(self).wf(),
            final(self)@ == (EchoReferenceView {
                samples: newest(old(self)@.samples + samples@, old(self)@.capacity),
                ..old(self)@
            }),
    {
        let ghost before = self@;
        if self.buffer.len() == 0 {
            proof {
                assert(self@.samples =~= newest(before.samples + samples@, before.capacity));
            }
            return;
        }
        let mut i: usize = 0;
        proof {
            assert(before.samples + samples@.take(0) =~= before.samples);
            assert(newest(before.samples, before.capacity) =~= before.samples);
        }
        while i < samples.len()
            invariant
                i <= samples@.len(),
                self.wf(),
                before.capacity > 0,
                self@ == (EchoReferenceView {
                    samples: newest(before.samples + samples@.take(i as int), before.capacity),
                    ..before
                }),
            decreases samples@.len() - i,
        {
            let sample: i16 = samples[i];
            proof {
                let sofar = before.samples + samples@.take(i as int);
                lemma_newest_push(sofar, sample, before.capacity);
                assert(sofar.push(sample) =~= before.samples + samples@.take(i + 1));
            }
            self.push_one(sample);
            i = i + 1;
        }
        proof {
            assert(samples@.take(i as int) =~= samples@);
        }
    }

    /// Remove and return the oldest sample.
    fn pop_one(&mut self) -> (sample: i16)
        requires
            old(self).wf(),
            old(self)@.samples.len() > 0,
        ensures
            final(self).wf(),
            sample == old(self)@.samples[0],
            final(self)@ == (EchoReferenceView { samples: old(self)@.samples.skip(1), ..old(self)@ }),
    {
        let ghost before = self@.samples;
        let sample: i16 = self.buffer[self.head];
        self.head = ring_slot(self.head, 1, self.buffer.len());
        self.length = self.length - 1;
        proof {
            assert(self@.samples =~= before.skip(1));
        }
        sample
    }

    /// Fill `out` with the oldest samples, in order, and with zeros where the ring runs short.
    /// Returns how many real samples were delivered.
    pub fn read_into(&mut self, out: &mut Vec<i16>) -> (taken: usize)
        requires
            old(self).wf(),
        ensures
            final(self).wf(),
            taken == vstd::math::min(old(out)@.len() as int, old(self)@.samples.len() as int),
            final(out)@.len() == old(out)@.len(),
            final(out)@.take(taken as int) == old(self)@.samples.take(taken as int),
            forall|i: int| taken <= i < final(out)@.len() ==> final(out)@[i] == 0,
            final(self)@ == (EchoReferenceView { samples: old(self)@.samples.skip(taken as int), ..old(self)@ }),
    {
        let ghost before = self@;
        let total: usize = out.len();
        let mut i: usize = 0;
        proof {
            assert(before.samples.skip(0) =~= before.samples);
        }
        while i < total && self.length > 0
            invariant
                i <= total == out@.len(),
                i <= before.samples.len(),
                self.wf(),
                self.length == self@.samples.len(),
                self@ == (EchoReferenceView { samples: before.samples.skip(i as int), ..before }),
                forall|j: int| 0 <= j < i ==> out@[j] == before.samples[j],
            decreases total - i,
        {
            let sample: i16 = self.pop_one();
            out[i] = sample;
            proof {
                assert(before.samples.skip(i as int).skip(1) =~= before.samples.skip(i + 1));
            }
            i = i + 1;
        }
        let taken: usize = i;
        while i < total
            invariant
                taken <= i <= total == out@.len(),
                taken <= before.samples.len(),
                forall|j: int| 0 <= j < taken ==> out@[j] == before.samples[j],
                forall|j: int| taken <= j < i ==> out@[j] == 0,
            decreases total - i,
        {
            out[i] = 0;
            i = i + 1;
        }
        proof {
            assert(out@.take(taken as int) =~= before.samples.take(taken as int));
        }
        taken
    }

    /// The rate of the buffered samples.
    pub fn sample_rate_hz(&self) -> (rate: u32)
        ensures
            rate == self@.sample_rate_hz,
    {
        self.sample_rate_hz
    }
}

/// The filter tail and delay search range, in samples, of an echo canceller at a rate.
pub struct EchoCancellerPlan {
    pub tail_samples: u32,
    pub search_range: u32,
}

/// The sizes an echo canceller is built with.
pub open spec fn canceller_plan(sample_rate_hz: u32) -> EchoCancellerPlan {
    EchoCancellerPlan {
        tail_samples: vstd::math::max(sample_rate_hz * AEC_TAIL_MILLIS / 1000, 1) as u32,
        search_range: vstd::math::max(sample_rate_hz * AEC_DELAY_SEARCH_MILLIS / 1000, 1) as u32,
    }
}

/// The sizes an echo canceller at `sample_rate_hz` is built with: the tail and the search range as
/// whole samples, at least one each.
pub fn build_echo_canceller(sample_rate_hz: u32) -> (plan: EchoCancellerPlan)
    requires
        sample_rate_hz * AEC_DELAY_SEARCH_MILLIS <= u32::MAX,
    ensures
        plan == canceller_plan(sample_rate_hz),
{
    let tail: u32 = sample_rate_hz * AEC_TAIL_MILLIS / 1000;
    let search: u32 = sample_rate_hz * AEC_DELAY_SEARCH_MILLIS / 1000;
    EchoCancellerPlan {
        tail_samples: if tail > 1 { tail } else { 1 },
        search_range: if search > 1 { search } else { 1 },
    }
}

/// Whatever is written, the ring holds exactly the newest `capacity` samples of the whole stream:
/// writing in two parts is writing once.
pub proof fn law_split_writes(held: Seq<i16>, first: Seq<i16>, second: Seq<i16>, capacity: nat)
    ensures
        newest(newest(held + first, capacity) + second, capacity) == newest(held + (first + second), capacity),
{
    assert(newest(newest(held + first, capacity) + second, capacity) =~= newest(
        held + (first + second),
        capacity,
    ));
}

/// The newest samples of a stream are its end: as many as fit, in order, and all of it where it fits.
pub proof fn law_newest_are_the_end(samples: Seq<i16>, capacity: nat)
    ensures
        newest(samples, capacity).len() == vstd::math::min(samples.len() as int, capacity as int),
        forall|i: int|
            0 <= i < newest(samples, capacity).len() ==> #[trigger] newest(samples, capacity)[i] == samples[samples.len()
                - newest(samples, capacity).len() + i],
{
}

/// A canceller remembers 64 milliseconds and looks for the echo over twice that, in whole samples at the rate
/// of the audio, and of one at least.
pub proof fn law_canceller_is_sized_by_the_rate(sample_rate_hz: u32)
    requires
        sample_rate_hz * 128 <= u32::MAX,
    ensures
        ({
            let plan = canceller_plan(sample_rate_hz);
            &&& plan.tail_samples >= 1 && plan.search_range >= 1
            &&& sample_rate_hz >= 16 ==> plan.tail_samples * 1000 <= sample_rate_hz * 64 < (plan.tail_samples + 1) * 1000
            &&& sample_rate_hz >= 16 ==> plan.search_range * 1000 <= sample_rate_hz * 128 < (plan.search_range + 1)
                * 1000
            &&& sample_rate_hz < 16 ==> plan.tail_samples == 1
        }),
{
}

} // verus!
