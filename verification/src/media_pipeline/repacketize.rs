//! Re-framing audio to the egress packet time.
use vstd::prelude::*;

verus! {

/// A sample-exact first-in-first-out buffer that hands audio back in frames of one fixed size.
#[derive(Clone, Debug)]
pub struct Repacketizer {
    frame_samples: usize,
    pending: Vec<i16>,
}

/// What a [`Repacketizer`] holds.
pub struct RepacketizerView {
    /// The frame size. Zero means no framing.
    pub frame_samples: nat,
    /// The samples not handed back yet.
    pub pending: Seq<i16>,
}

impl View for Repacketizer {
    type V = RepacketizerView;

    closed spec fn view(&self) -> RepacketizerView {
        RepacketizerView { frame_samples: self.frame_samples as nat, pending: self.pending@ }
    }
}

impl RepacketizerView {
    /// Whether a whole frame is waiting.
    pub open spec fn has_frame(self) -> bool {
        self.frame_samples > 0 && self.pending.len() >= self.frame_samples
    }

    /// The buffer without its first frame.
    pub open spec fn rest(self) -> RepacketizerView {
        RepacketizerView { pending: self.pending.skip(self.frame_samples as int), ..self }
    }

    /// The oldest frame.
    pub open spec fn frame(self) -> Seq<i16> {
        self.pending.take(self.frame_samples as int)
    }
}

impl Repacketizer {
    /// An empty buffer for frames of `frame_samples`.
    pub fn new(frame_samples: usize) -> (buffer: Self)
        ensures
            buffer@ == (RepacketizerView { frame_samples: frame_samples as nat, pending: Seq::empty() }),
    {
        Repacketizer { frame_samples, pending: Vec::new() }
    }

    /// The frame size.
    pub fn frame_samples(&self) -> (size: usize)
        ensures
            size == self@.frame_samples,
    {
        self.frame_samples
    }

    /// Append samples.
    pub fn push(&mut self, samples: &[i16])
        ensures
            final(self)@ == (RepacketizerView { pending: old(self)@.pending + samples@, ..old(self)@ }),
    {
        let mut i: usize = 0;
        let ghost before = self@;
        proof {
            assert(before.pending + samples@.take(0) =~= before.pending);
        }
        while i < samples.len()
            invariant
                i <= samples@.len(),
                self@ == (RepacketizerView { pending: before.pending + samples@.take(i as int), ..before }),
            decreases samples@.len() - i,
        {
            self.pending.push(samples[i]);
            proof {
                assert((before.pending + samples@.take(i as int)).push(samples@[i as int]) =~= before.pending
                    + samples@.take(i + 1));
            }
            i = i + 1;
        }
        proof {
            assert(samples@.take(i as int) =~= samples@);
        }
    }

    /// Take the oldest frame when a whole one is waiting.
    pub fn next_frame(&mut self) -> (frame: Option<Vec<i16>>)
        ensures
            frame is Some == old(self)@.has_frame(),
            frame matches Some(samples) ==> samples@ == old(self)@.frame() && final(self)@
                == old(self)@.rest(),
            frame is None ==> final(self)@ == old(self)@,
    {
        if self.frame_samples == 0 || self.pending.len() < self.frame_samples {
            return None;
        }
        let ghost before = self@;
        let rest = self.pending.split_off(self.frame_samples);
        let mut frame = rest;
        std::mem::swap(&mut frame, &mut self.pending);
        proof {
            assert(frame@ =~= before.frame());
            assert(self@.pending =~= before.rest().pending);
        }
        Some(frame)
    }
}

/// Re-framing neither loses nor repeats a sample: a taken frame and what stays behind are together
/// what was held.
pub proof fn law_no_sample_lost(held: RepacketizerView)
    requires
        held.has_frame(),
    ensures
        held.frame() + held.rest().pending == held.pending,
        held.frame().len() == held.frame_samples,
{
    assert(held.frame() + held.rest().pending =~= held.pending);
}

impl RepacketizerView {
    /// The frames that can be taken out one after the other.
    pub open spec fn frames(self) -> Seq<Seq<i16>>
        decreases self.pending.len(),
    {
        if self.has_frame() {
            seq![self.frame()] + self.rest().frames()
        } else {
            Seq::empty()
        }
    }

    /// What is held once no whole frame is left.
    pub open spec fn leftover(self) -> Seq<i16>
        decreases self.pending.len(),
    {
        if self.has_frame() {
            self.rest().leftover()
        } else {
            self.pending
        }
    }

    /// The samples of all the frames that can be taken out.
    pub open spec fn framed_samples(self) -> Seq<i16>
        decreases self.pending.len(),
    {
        if self.has_frame() {
            self.frame() + self.rest().framed_samples()
        } else {
            Seq::empty()
        }
    }
}

/// Taking out every whole frame gives the samples in order, and leaves less than a frame: as many
/// frames come out as fit into what was held.
pub proof fn law_frames_carry_every_sample(held: RepacketizerView)
    requires
        held.frame_samples > 0,
    ensures
        held.framed_samples() + held.leftover() == held.pending,
        held.leftover().len() < held.frame_samples,
        held.frames().len() * held.frame_samples + held.leftover().len() == held.pending.len(),
        forall|i: int| 0 <= i < held.frames().len() ==> (#[trigger] held.frames()[i]).len() == held.frame_samples,
    decreases held.pending.len(),
{
    if held.has_frame() {
        let rest = held.rest();
        law_frames_carry_every_sample(rest);
        law_no_sample_lost(held);
        assert(held.framed_samples() + held.leftover() =~= held.frame() + (rest.framed_samples() + rest.leftover()));
        assert(held.frames().len() == 1 + rest.frames().len());
        assert(held.frames().len() * held.frame_samples == held.frame_samples + rest.frames().len() * held.frame_samples)
            by (nonlinear_arith)
            requires
                held.frames().len() == 1 + rest.frames().len(),
        ;
        assert forall|i: int| 0 <= i < held.frames().len() implies (#[trigger] held.frames()[i]).len()
            == held.frame_samples by {
            if i > 0 {
                assert(held.frames()[i] == rest.frames()[i - 1]);
            }
        }
    } else {
        assert(held.framed_samples() + held.leftover() =~= held.pending);
    }
}

} // verus!
