//! The frame presenter: which image slot may be submitted to, and when.
//!
//! The presenter does no device work itself. The backend acquires an image,
//! waits on a fence, submits and presents; after each of these it reports
//! what happened, and the presenter answers with the next step.

use vstd::prelude::*;

verus! {

/// The two surface validity flags.
#[derive(Clone, Copy, Debug, PartialEq, Eq, Structural)]
pub struct SurfaceFlags {
    /// The window was resized and the view has not yet followed.
    pub resized: bool,
    /// The surface was reported out of date or suboptimal.
    pub recreate_needed: bool,
}

/// What acquiring the next surface image gave.
#[derive(Clone, Copy, Debug, PartialEq, Eq, Structural)]
pub enum AcquireOutcome {
    /// An image is available. A suboptimal one is still usable.
    Acquired { image_i: u32, suboptimal: bool },
    /// The surface is invalid: nothing can be drawn on it this tick.
    OutOfDate,
}

/// What submitting and presenting a frame gave.
#[derive(Clone, Copy, Debug, PartialEq, Eq, Structural)]
pub enum SubmitOutcome {
    /// The frame is on its way; `fence` names its completion signal.
    Flushed { fence: u64 },
    /// The surface went out of date under the frame.
    OutOfDate,
    /// The device refused the frame for any other reason.
    Failed,
}

/// A frame to submit: the image slot whose command sequence is executed and
/// presented, and the completion signal of the previous frame to wait for
/// together with the image's availability. Without a previous frame `join`
/// is `None`, and the backend joins with a signal that is already satisfied.
#[derive(Clone, Copy, Debug, PartialEq, Eq, Structural)]
pub struct SubmitPlan {
    pub image_i: u32,
    pub join: Option<u64>,
}

/// What the backend does next.
#[derive(Clone, Copy, Debug, PartialEq, Eq, Structural)]
pub enum PresentStep {
    /// Draw nothing this tick.
    Skip,
    /// Wait, without a timeout, until `fence` is signaled, then report it.
    WaitFence { image_i: u32, fence: u64 },
    /// Submit the frame.
    Submit(SubmitPlan),
}

/// Why the presenter refuses a report.
#[derive(Clone, Copy, Debug, PartialEq, Eq, Structural)]
pub enum PresentError {
    /// The acquired image index names no slot of the presenter.
    UnknownImage,
    /// The report does not answer the step that the presenter asked for.
    OutOfTurn,
    /// The device refused the frame: rendering cannot go on.
    SubmitFailed,
}

/// Where the presenter stands within one frame.
#[derive(Clone, Copy, Debug, PartialEq, Eq, Structural)]
pub enum PresentPhase {
    /// Between frames.
    Idle,
    /// The slot's last frame must be seen complete before the slot is reused.
    AwaitingFence(u32),
    /// The slot is free and a frame for it is with the backend.
    Submitting(u32),
}

/// The presenter as contracts see it.
pub struct PresenterState {
    /// Per image slot, the completion signal of the last frame that used it.
    pub fences: Seq<Option<u64>>,
    /// The slot of the frame submitted last.
    pub previous: u32,
    pub phase: PresentPhase,
}

impl SurfaceFlags {
    /// Both flags clear.
    pub fn new() -> (flags: Self)
        ensures
            flags == (SurfaceFlags { resized: false, recreate_needed: false }),
    {
        SurfaceFlags { resized: false, recreate_needed: false }
    }

    /// The window was resized.
    pub fn on_resize(&mut self)
        ensures
            *final(self) == (SurfaceFlags { resized: true, ..*old(self) }),
    {
        self.resized = true;
    }

    /// The surface was reported out of date or suboptimal.
    pub fn on_surface_degraded(&mut self)
        ensures
            *final(self) == (SurfaceFlags { recreate_needed: true, ..*old(self) }),
    {
        self.recreate_needed = true;
    }

    /// The flags with `recreate_needed` set if `degraded` holds.
    pub open spec fn degraded_if(self, degraded: bool) -> SurfaceFlags {
        SurfaceFlags { recreate_needed: self.recreate_needed || degraded, ..self }
    }
}

impl PresenterState {
    /// The frame to submit for slot `image_i`, joined with the last frame.
    pub open spec fn plan(self, image_i: u32) -> SubmitPlan {
        SubmitPlan {
            image_i,
            join: if self.previous < self.fences.len() {
                self.fences[self.previous as int]
            } else {
                None
            },
        }
    }

    /// Whether an acquire report is taken: the presenter is between frames
    /// and an acquired image names one of its slots.
    pub open spec fn acquire_error(self, outcome: AcquireOutcome) -> Option<PresentError> {
        if self.phase != PresentPhase::Idle {
            Some(PresentError::OutOfTurn)
        } else {
            match outcome {
                AcquireOutcome::Acquired { image_i, suboptimal } => if image_i
                    >= self.fences.len() {
                    Some(PresentError::UnknownImage)
                } else {
                    None
                },
                AcquireOutcome::OutOfDate => None,
            }
        }
    }

    /// The step that answers an acquire report which is taken. A slot whose
    /// last frame left a fence is waited for; only a slot without one is
    /// submitted to at once.
    pub open spec fn acquire_step(self, outcome: AcquireOutcome) -> PresentStep {
        match outcome {
            AcquireOutcome::OutOfDate => PresentStep::Skip,
            AcquireOutcome::Acquired { image_i, suboptimal } => match self.fences[image_i as int] {
                Some(fence) => PresentStep::WaitFence { image_i, fence },
                None => PresentStep::Submit(self.plan(image_i)),
            },
        }
    }

    /// The phase that a step leaves the presenter in.
    pub open spec fn phase_after(step: PresentStep) -> PresentPhase {
        match step {
            PresentStep::Skip => PresentPhase::Idle,
            PresentStep::WaitFence { image_i, fence } => PresentPhase::AwaitingFence(image_i),
            PresentStep::Submit(plan) => PresentPhase::Submitting(plan.image_i),
        }
    }

    /// The presenter after an acquire report: only the phase moves, and only
    /// if the report is taken.
    pub open spec fn after_acquire(self, outcome: AcquireOutcome) -> PresenterState {
        if self.acquire_error(outcome) is Some {
            self
        } else {
            PresenterState { phase: Self::phase_after(self.acquire_step(outcome)), ..self }
        }
    }

    /// The flags after an acquire report that is taken: an invalid or a
    /// suboptimal surface asks for a rebuild.
    pub open spec fn flags_after_acquire(
        self,
        flags: SurfaceFlags,
        outcome: AcquireOutcome,
    ) -> SurfaceFlags {
        if self.acquire_error(outcome) is Some {
            flags
        } else {
            match outcome {
                AcquireOutcome::OutOfDate => flags.degraded_if(true),
                AcquireOutcome::Acquired { image_i, suboptimal } => flags.degraded_if(suboptimal),
            }
        }
    }

    /// The presenter after the awaited fence was seen signaled.
    pub open spec fn after_fence(self) -> PresenterState {
        match self.phase {
            PresentPhase::AwaitingFence(image_i) => PresenterState {
                phase: PresentPhase::Submitting(image_i),
                ..self
            },
            _ => self,
        }
    }

    /// The fence that a submit report leaves in the frame's slot.
    pub open spec fn fence_of(outcome: SubmitOutcome) -> Option<u64> {
        match outcome {
            SubmitOutcome::Flushed { fence } => Some(fence),
            _ => None,
        }
    }

    /// The presenter after a submit report: the frame's slot takes the new
    /// fence, or none, and becomes the previous slot; no other slot changes.
    pub open spec fn after_submit(self, outcome: SubmitOutcome) -> PresenterState {
        match self.phase {
            PresentPhase::Submitting(image_i) => PresenterState {
                fences: self.fences.update(image_i as int, Self::fence_of(outcome)),
                previous: image_i,
                phase: PresentPhase::Idle,
            },
            _ => self,
        }
    }

    /// The result of a submit report.
    pub open spec fn submit_result(self, outcome: SubmitOutcome) -> Result<(), PresentError> {
        match self.phase {
            PresentPhase::Submitting(image_i) => if outcome == SubmitOutcome::Failed {
                Err(PresentError::SubmitFailed)
            } else {
                Ok(())
            },
            _ => Err(PresentError::OutOfTurn),
        }
    }

    /// What holds of every presenter: each phase names a slot, and so does
    /// the previous index unless there are no slots at all.
    pub open spec fn well_formed(self) -> bool {
        &&& self.fences.len() == 0 || self.previous < self.fences.len()
        &&& match self.phase {
            PresentPhase::Idle => true,
            PresentPhase::AwaitingFence(i) => i < self.fences.len() && self.fences[i as int]
                is Some,
            PresentPhase::Submitting(i) => i < self.fences.len(),
        }
    }
}

/// Tracks, per image slot of the surface, the fence of the last frame that
/// used the slot, and leads the backend through each frame.
pub struct VkPresenter {
    frames_in_flight: usize,
    previous_fence_i: u32,
    fences: Vec<Option<u64>>,
    phase: PresentPhase,
}

impl View for VkPresenter {
    type V = PresenterState;

    closed spec fn view(&self) -> PresenterState {
        PresenterState { fences: self.fences@, previous: self.previous_fence_i, phase: self.phase }
    }
}

impl VkPresenter {
    #[verifier::type_invariant]
    spec fn inv(self) -> bool {
        self.fences.len() == self.frames_in_flight && self@.well_formed()
    }

    /// A presenter for a surface of `image_count` images, with no frame in
    /// flight.
    pub fn new(image_count: usize) -> (p: Self)
        ensures
            p@.fences == Seq::new(image_count as nat, |i: int| None::<u64>),
            p@.previous == 0,
            p@.phase == PresentPhase::Idle,
            p@.well_formed(),
    {
        let mut fences: Vec<Option<u64>> = Vec::new();
        let mut i: usize = 0;
        while i < image_count
            invariant
                i <= image_count,
                fences.len() == i,
                forall|j: int| 0 <= j < i ==> fences[j] is None,
            decreases image_count - i,
        {
            fences.push(None);
            i += 1;
        }
        assert(fences@ =~= Seq::new(image_count as nat, |i: int| None::<u64>));
        VkPresenter {
            frames_in_flight: image_count,
            previous_fence_i: 0,
            fences,
            phase: PresentPhase::Idle,
        }
    }

    /// Begins presenting a frame, given what acquiring the next surface image
    /// gave. An invalid surface asks for a rebuild
    /// and skips the tick; a suboptimal one asks for a rebuild and goes on.
    /// If the acquired slot still holds the fence of its last frame, the
    /// answer is to wait for that fence; a frame is planned at once only for
    /// a slot that holds none.
    pub fn present(&mut self, flags: &mut SurfaceFlags, outcome: AcquireOutcome) -> (r: Result<
        PresentStep,
        PresentError,
    >)
        ensures
            old(self)@.well_formed(),
            final(self)@.well_formed(),
            final(self)@ == old(self)@.after_acquire(outcome),
            *final(flags) == old(self)@.flags_after_acquire(*old(flags), outcome),
            match old(self)@.acquire_error(outcome) {
                Some(e) => r == Err::<PresentStep, PresentError>(e),
                None => r == Ok::<PresentStep, PresentError>(old(self)@.acquire_step(outcome)),
            },
    {
        proof {
            use_type_invariant(&*self);
        }
        match self.phase {
            PresentPhase::Idle => {},
            _ => {
                return Err(PresentError::OutOfTurn);
            },
        }
        match outcome {
            AcquireOutcome::OutOfDate => {
                flags.recreate_needed = true;
                Ok(PresentStep::Skip)
            },
            AcquireOutcome::Acquired { image_i, suboptimal } => {
                if image_i as usize >= self.fences.len() {
                    return Err(PresentError::UnknownImage);
                }
                if suboptimal {
                    flags.recreate_needed = true;
                }
                match self.fences[image_i as usize] {
                    Some(fence) => {
                        self.phase = PresentPhase::AwaitingFence(image_i);
                        Ok(PresentStep::WaitFence { image_i, fence })
                    },
                    None => {
                        let plan = self.plan_for(image_i);
                        self.phase = PresentPhase::Submitting(image_i);
                        Ok(PresentStep::Submit(plan))
                    },
                }
            },
        }
    }

    /// Takes the report that the awaited fence was seen signaled, and plans
    /// the frame for its slot.
    pub fn fence_signaled(&mut self) -> (r: Result<SubmitPlan, PresentError>)
        ensures
            old(self)@.well_formed(),
            final(self)@.well_formed(),
            final(self)@ == old(self)@.after_fence(),
            match old(self)@.phase {
                PresentPhase::AwaitingFence(image_i) => r == Ok::<SubmitPlan, PresentError>(
                    old(self)@.plan(image_i),
                ),
                _ => r == Err::<SubmitPlan, PresentError>(PresentError::OutOfTurn),
            },
    {
        proof {
            use_type_invariant(&*self);
        }
        match self.phase {
            PresentPhase::AwaitingFence(image_i) => {
                let plan = self.plan_for(image_i);
                self.phase = PresentPhase::Submitting(image_i);
                Ok(plan)
            },
            _ => Err(PresentError::OutOfTurn),
        }
    }

    /// Takes the report of a submit. The frame's slot takes the new fence and
    /// becomes the previous slot. An out-of-date surface asks for a rebuild
    /// and leaves the slot without a fence; so does any other failure, which
    /// is also handed to the caller.
    pub fn submitted(&mut self, flags: &mut SurfaceFlags, outcome: SubmitOutcome) -> (r: Result<
        (),
        PresentError,
    >)
        ensures
            old(self)@.well_formed(),
            final(self)@.well_formed(),
            final(self)@ == old(self)@.after_submit(outcome),
            r == old(self)@.submit_result(outcome),
            *final(flags) == if old(self)@.phase is Submitting {
                old(flags).degraded_if(outcome == SubmitOutcome::OutOfDate)
            } else {
                *old(flags)
            },
    {
        proof {
            use_type_invariant(&*self);
        }
        match self.phase {
            PresentPhase::Submitting(image_i) => {
                let (fence, r): (Option<u64>, Result<(), PresentError>) = match outcome {
                    SubmitOutcome::Flushed { fence } => (Some(fence), Ok(())),
                    SubmitOutcome::OutOfDate => {
                        flags.recreate_needed = true;
                        (None, Ok(()))
                    },
                    SubmitOutcome::Failed => (None, Err(PresentError::SubmitFailed)),
                };
                self.fences[image_i as usize] = fence;
                self.previous_fence_i = image_i;
                self.phase = PresentPhase::Idle;
                assert(self@.fences =~= old(self)@.fences.update(image_i as int, fence));
                r
            },
            _ => Err(PresentError::OutOfTurn),
        }
    }

    /// The number of image slots.
    pub fn frames_in_flight(&self) -> (n: usize)
        ensures
            n == self@.fences.len(),
    {
        proof {
            use_type_invariant(self);
        }
        self.frames_in_flight
    }

    /// The slot of the frame submitted last.
    pub fn previous_fence_i(&self) -> (i: u32)
        ensures
            i == self@.previous,
    {
        self.previous_fence_i
    }

    /// Where the presenter stands within the frame.
    pub fn phase(&self) -> (phase: PresentPhase)
        ensures
            phase == self@.phase,
    {
        self.phase
    }

    /// The fence that slot `slot` holds; none for a slot that does not exist.
    pub fn fence(&self, slot: usize) -> (fence: Option<u64>)
        ensures
            fence == if slot < self@.fences.len() {
                self@.fences[slot as int]
            } else {
                None
            },
    {
        if slot < self.fences.len() {
            self.fences[slot]
        } else {
            None
        }
    }

    fn plan_for(&self, image_i: u32) -> (plan: SubmitPlan)
        ensures
            plan == self@.plan(image_i),
    {
        let join: Option<u64> = if (self.previous_fence_i as usize) < self.fences.len() {
            self.fences[self.previous_fence_i as usize]
        } else {
            None
        };
        SubmitPlan { image_i, join }
    }
}

/// A report from the backend.
#[derive(Clone, Copy, Debug, PartialEq, Eq, Structural)]
pub enum PresentEvent {
    Acquired(AcquireOutcome),
    FenceSignaled,
    Submitted(SubmitOutcome),
}

impl PresenterState {
    /// The presenter after any one report.
    pub open spec fn on(self, event: PresentEvent) -> PresenterState {
        match event {
            PresentEvent::Acquired(outcome) => self.after_acquire(outcome),
            PresentEvent::FenceSignaled => self.after_fence(),
            PresentEvent::Submitted(outcome) => self.after_submit(outcome),
        }
    }
}

/// A slot is reused only after its fence was seen signaled. Whatever is
/// reported, the presenter comes to submit to a slot in one of two ways
/// only: the report is an acquire of a slot that holds no fence, or it is
/// the report that the fence which the presenter was waiting for on that
/// slot is signaled.
pub proof fn lemma_wait_before_reuse(s: PresenterState, event: PresentEvent, slot: u32)
    requires
        s.well_formed(),
        s.on(event).phase == PresentPhase::Submitting(slot),
        s.phase != PresentPhase::Submitting(slot),
    ensures
        slot < s.fences.len(),
        (s.phase == PresentPhase::Idle && s.fences[slot as int] is None && event is Acquired
            && event->Acquired_0 is Acquired && event->Acquired_0->image_i == slot) || (s.phase
            == PresentPhase::AwaitingFence(slot) && s.fences[slot as int] is Some && event
            == PresentEvent::FenceSignaled),
{
}

/// A slot that holds a fence is never planned for at once: acquiring it while
/// between frames is answered by a wait for exactly that fence.
pub proof fn lemma_held_slot_is_awaited(s: PresenterState, slot: u32, suboptimal: bool)
    requires
        s.well_formed(),
        s.phase == PresentPhase::Idle,
        slot < s.fences.len(),
        s.fences[slot as int] is Some,
    ensures
        s.acquire_error(AcquireOutcome::Acquired { image_i: slot, suboptimal }) is None,
        s.acquire_step(AcquireOutcome::Acquired { image_i: slot, suboptimal })
            == (PresentStep::WaitFence { image_i: slot, fence: s.fences[slot as int]->0 }),
        s.after_acquire(AcquireOutcome::Acquired { image_i: slot, suboptimal }).phase
            == PresentPhase::AwaitingFence(slot),
{
}

/// Every report keeps the presenter well formed and the number of slots as
/// it is, so that no more frames are in flight than the surface has images.
pub proof fn lemma_report_keeps_well_formed(s: PresenterState, event: PresentEvent)
    requires
        s.well_formed(),
    ensures
        s.on(event).well_formed(),
        s.on(event).fences.len() == s.fences.len(),
{
}

/// A report changes the fence of at most one slot, the one being submitted
/// to, and only when it is the report of that submit.
pub proof fn lemma_report_touches_one_slot(s: PresenterState, event: PresentEvent, slot: int)
    requires
        s.well_formed(),
        0 <= slot < s.fences.len(),
    ensures
        s.on(event).fences[slot] != s.fences[slot] ==> s.phase == PresentPhase::Submitting(
            slot as u32,
        ) && event is Submitted,
{
}

/// The presenter after a run of reports, taken in order.
pub open spec fn run(s: PresenterState, events: Seq<PresentEvent>) -> PresenterState
    decreases events.len(),
{
    if events.len() == 0 {
        s
    } else {
        run(s, events.drop_last()).on(events.last())
    }
}

/// Whether report `k` of the run tells that a frame submitted to `slot` is on
/// its way, which leaves the frame's fence in the slot.
pub open spec fn leaves_fence(
    s: PresenterState,
    events: Seq<PresentEvent>,
    k: int,
    slot: u32,
) -> bool {
    &&& run(s, events.take(k)).phase == PresentPhase::Submitting(slot)
    &&& events[k] is Submitted
    &&& events[k]->Submitted_0 is Flushed
}

/// Whether report `k` of the run tells that the fence which the presenter
/// was waiting for on `slot` is signaled.
pub open spec fn observes_fence(
    s: PresenterState,
    events: Seq<PresentEvent>,
    k: int,
    slot: u32,
) -> bool {
    &&& run(s, events.take(k)).phase == PresentPhase::AwaitingFence(slot)
    &&& events[k] == PresentEvent::FenceSignaled
}

/// Whether report `k` of the run makes the presenter plan a frame for `slot`.
pub open spec fn begins_submit(
    s: PresenterState,
    events: Seq<PresentEvent>,
    k: int,
    slot: u32,
) -> bool {
    &&& run(s, events.take(k)).phase != PresentPhase::Submitting(slot)
    &&& run(s, events.take(k + 1)).phase == PresentPhase::Submitting(slot)
}

/// One more report of a run is one step of the presenter.
pub proof fn lemma_run_step(s: PresenterState, events: Seq<PresentEvent>, k: int)
    requires
        0 <= k < events.len(),
    ensures
        run(s, events.take(k + 1)) == run(s, events.take(k)).on(events[k]),
{
    assert(events.take(k + 1).drop_last() =~= events.take(k));
    assert(events.take(k + 1).last() == events[k]);
}

/// A run of reports keeps the presenter well formed and its slots as many.
pub proof fn lemma_run_keeps_well_formed(s: PresenterState, events: Seq<PresentEvent>)
    requires
        s.well_formed(),
    ensures
        run(s, events).well_formed(),
        run(s, events).fences.len() == s.fences.len(),
    decreases events.len(),
{
    if events.len() > 0 {
        lemma_run_keeps_well_formed(s, events.drop_last());
        lemma_report_keeps_well_formed(run(s, events.drop_last()), events.last());
    }
}

proof fn lemma_fence_held_until_observed(
    s: PresenterState,
    events: Seq<PresentEvent>,
    a: int,
    k: int,
    slot: u32,
)
    requires
        s.well_formed(),
        0 <= a < k <= events.len(),
        leaves_fence(s, events, a, slot),
        forall|c: int| a < c < k ==> !observes_fence(s, events, c, slot),
    ensures
        slot < run(s, events.take(k)).fences.len(),
        run(s, events.take(k)).fences[slot as int] is Some,
        run(s, events.take(k)).phase != PresentPhase::Submitting(slot),
    decreases k,
{
    lemma_run_keeps_well_formed(s, events.take(k - 1));
    lemma_run_step(s, events, k - 1);
    if k > a + 1 {
        lemma_fence_held_until_observed(s, events, a, k - 1, slot);
        assert(!observes_fence(s, events, k - 1, slot));
    }
}

/// No slot is submitted to twice without its fence being seen in between.
/// In every run of reports from a well-formed presenter: if one report
/// leaves the fence of a frame in a slot, and a later report makes the
/// presenter plan a frame for that slot again, then between the two, or as
/// that later report itself, stands the report that the presenter waited for
/// the slot's fence and saw it signaled.
pub proof fn lemma_fence_observed_between_submits(
    s: PresenterState,
    events: Seq<PresentEvent>,
    a: int,
    b: int,
    slot: u32,
)
    requires
        s.well_formed(),
        0 <= a < b < events.len(),
        leaves_fence(s, events, a, slot),
        begins_submit(s, events, b, slot),
    ensures
        exists|c: int| a < c <= b && observes_fence(s, events, c, slot),
{
    if forall|c: int| a < c <= b ==> !observes_fence(s, events, c, slot) {
        lemma_fence_held_until_observed(s, events, a, b + 1, slot);
        assert(false);
    }
}

} // verus!
