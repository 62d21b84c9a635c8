//! The frame driver: what one tick does to the view, and when a generation
//! job is due.

use crate::mesh_gen::{
    chunk_index, in_world, VoxelMeshGenJob, WorldGrid, CHUNK_VOLUME, WORLD_VOLUME,
};
use crate::rvkp::presenter::SurfaceFlags;
use crate::rvkp::view::{
    all_drawable, flags_after_recreate, must_recreate, records_all, viewport_after_recreate,
    Extent, VkView,
};
use vstd::arithmetic::div_mod::{lemma_fundamental_div_mod, lemma_fundamental_div_mod_converse_mod};
use vstd::prelude::*;

verus! {

/// Number of ticks from one generation job to the next.
pub const JOB_CADENCE: u64 = 500;

/// Number of jobs that the job channel buffers before a sender has to wait.
pub const JOB_CHANNEL_CAPACITY: usize = 100;

/// What the window system tells the driver.
#[derive(Clone, Copy, Debug, PartialEq, Eq, Structural)]
pub enum LoopEvent {
    /// The user asked to close the window.
    CloseRequested,
    /// The window has a new size.
    Resized,
    /// All pending events are handled: time for a tick.
    MainEventsCleared,
    /// Anything else.
    Other,
}

/// What the event loop does on an event.
#[derive(Clone, Copy, Debug, PartialEq, Eq, Structural)]
pub enum LoopAction {
    /// Leave the loop.
    Exit,
    /// Run one tick.
    Tick,
    /// Go on waiting for events.
    Wait,
}

/// The action that answers an event.
pub open spec fn action_on(event: LoopEvent) -> LoopAction {
    match event {
        LoopEvent::CloseRequested => LoopAction::Exit,
        LoopEvent::MainEventsCleared => LoopAction::Tick,
        _ => LoopAction::Wait,
    }
}

/// One turn of the event loop: a close request ends the loop, a new window
/// size raises the resized flag, and a tick runs once the events are
/// handled. Nothing else touches the flags.
pub fn run(event: LoopEvent, flags: &mut SurfaceFlags) -> (action: LoopAction)
    ensures
        action == action_on(event),
        *final(flags) == if event == LoopEvent::Resized {
            SurfaceFlags { resized: true, ..*old(flags) }
        } else {
            *old(flags)
        },
{
    match event {
        LoopEvent::CloseRequested => LoopAction::Exit,
        LoopEvent::Resized => {
            flags.on_resize();
            LoopAction::Wait
        },
        LoopEvent::MainEventsCleared => LoopAction::Tick,
        LoopEvent::Other => LoopAction::Wait,
    }
}

/// The tick count after one more tick: it starts over when a job is due.
pub open spec fn ticks_step(ticks: int, cadence: int) -> int {
    if ticks + 1 >= cadence {
        0
    } else {
        ticks + 1
    }
}

/// The tick count of a fresh driver after `k` ticks.
pub open spec fn ticks_after(cadence: int, k: int) -> int
    decreases k,
{
    if k <= 0 {
        0
    } else {
        ticks_step(ticks_after(cadence, k - 1), cadence)
    }
}

/// Counts ticks and asks for a generation job on every `cadence`-th one.
pub struct FrameDriver {
    /// Ticks from one job to the next.
    pub cadence: u64,
    /// Ticks since a job was last due.
    pub ticks: u64,
}

impl FrameDriver {
    /// Whether the next tick is one on which a job is due.
    pub open spec fn job_due(&self) -> bool {
        self.ticks + 1 >= self.cadence
    }

    /// A driver that asks for a job on every `cadence`-th tick; with a
    /// cadence of zero or one, on every tick.
    pub fn new(cadence: u64) -> (driver: Self)
        ensures
            driver.cadence == cadence,
            driver.ticks == 0,
    {
        FrameDriver { cadence, ticks: 0 }
    }

    /// The first half of a tick, before the frame is presented: the view
    /// follows the surface where a flag asks for it, and then records its
    /// command sequences anew. `image_count` is the number of images of the
    /// chain as it is after any rebuild at `size`.
    pub fn begin_tick(
        view: &mut VkView,
        flags: &mut SurfaceFlags,
        size: Extent,
        image_count: usize,
    ) -> (rebuilt: bool)
        requires
            all_drawable(old(view).meshes@),
        ensures
            rebuilt == must_recreate(*old(flags), size),
            *final(flags) == flags_after_recreate(*old(flags), size),
            final(view).viewport == viewport_after_recreate(
                old(view).viewport,
                *old(flags),
                size,
            ),
            final(view).meshes == old(view).meshes,
            final(view).surface_extent == if rebuilt {
                size
            } else {
                old(view).surface_extent
            },
            final(view).framebuffers == if rebuilt {
                image_count
            } else {
                old(view).framebuffers
            },
            records_all(
                final(view).command_buffers@,
                final(view).framebuffers,
                Some(final(view).meshes@),
            ),
    {
        let rebuilt: bool = view.if_recreate_swapchain(flags, size, image_count);
        view.update();
        rebuilt
    }

    /// The second half of a tick, after the frame was presented. On a tick
    /// on which a job is due, the unclaimed chunk with the lowest grid index
    /// is claimed and a job for it returned; if every chunk is claimed there
    /// is none. On other ticks nothing is claimed.
    pub fn end_tick(&mut self, grid: &mut WorldGrid) -> (job: Option<VoxelMeshGenJob>)
        ensures
            final(self).cadence == old(self).cadence,
            final(self).ticks == ticks_step(old(self).ticks as int, old(self).cadence as int),
            match job {
                Some(j) => {
                    let c = j.pos;
                    let index = chunk_index(c.x as int, c.y as int, c.z as int);
                    &&& old(self).job_due()
                    &&& in_world(c.x as int, c.y as int, c.z as int)
                    &&& !old(grid)@[index]
                    &&& forall|i: int| 0 <= i < index ==> old(grid)@[i]
                    &&& final(grid)@ == old(grid)@.update(index, true)
                    &&& j.voxels@.len() == CHUNK_VOLUME
                },
                None => {
                    &&& final(grid)@ == old(grid)@
                    &&& old(self).job_due() ==> forall|i: int|
                        0 <= i < WORLD_VOLUME ==> old(grid)@[i]
                },
            },
    {
        if self.cadence <= 1 || self.ticks >= self.cadence - 1 {
            self.ticks = 0;
            match grid.next_unclaimed() {
                Some(c) => match VoxelMeshGenJob::chunk(grid, c.x, c.y, c.z) {
                    Ok(job) => job,
                    Err(_) => None,
                },
                None => None,
            }
        } else {
            self.ticks = self.ticks + 1;
            None
        }
    }
}

/// A fresh driver with a cadence of `cadence` ticks has counted `k` modulo
/// `cadence` after `k` ticks, so that a job is due on exactly the ticks whose
/// number is a multiple of the cadence.
pub proof fn lemma_job_every_cadence_ticks(cadence: int, k: int)
    requires
        cadence >= 1,
        k >= 0,
    ensures
        ticks_after(cadence, k) == k % cadence,
        k >= 1 ==> ((ticks_after(cadence, k - 1) + 1 >= cadence) <==> k % cadence == 0),
    decreases k,
{
    if k > 0 {
        lemma_job_every_cadence_ticks(cadence, k - 1);
        let before = (k - 1) % cadence;
        let q = (k - 1) / cadence;
        lemma_fundamental_div_mod(k - 1, cadence);
        if before + 1 >= cadence {
            assert(k == (q + 1) * cadence + 0) by (nonlinear_arith)
                requires
                    k - 1 == cadence * q + before,
                    before + 1 == cadence,
            ;
            lemma_fundamental_div_mod_converse_mod(k, cadence, q + 1, 0);
        } else {
            assert(k == q * cadence + (before + 1)) by (nonlinear_arith)
                requires
                    k - 1 == cadence * q + before,
            ;
            lemma_fundamental_div_mod_converse_mod(k, cadence, q, before + 1);
        }
    } else {
        lemma_fundamental_div_mod_converse_mod(0, cadence, 0, 0);
    }
}

} // verus!
