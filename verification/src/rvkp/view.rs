//! The surface view: everything whose size or number follows the surface,
//! the mesh store, and the command sequences recorded from them.

use crate::rvkp::mesh::{DrawCall, Mesh};
use crate::rvkp::presenter::SurfaceFlags;
use vstd::prelude::*;

verus! {

/// A size in pixels.
#[derive(Clone, Copy, Debug, PartialEq, Eq, Structural)]
pub struct Extent {
    pub width: u32,
    pub height: u32,
}

/// One recorded command of a frame.
#[derive(Clone, Copy, Debug, PartialEq, Eq, Structural)]
pub enum Command {
    /// Begin the render pass on the render-target binding of this image.
    BeginRenderPass { framebuffer: usize },
    /// Bind the graphics pipeline.
    BindPipeline,
    /// Push the camera transform as the per-draw constant.
    PushCamera,
    /// Bind the buffers of the mesh at this place of the store, and draw it.
    Draw { mesh: usize, call: DrawCall },
    /// End the render pass.
    EndRenderPass,
}

/// One draw per mesh, in store order.
pub open spec fn draws(meshes: Seq<Mesh>) -> Seq<Command> {
    Seq::new(meshes.len(), |i: int| Command::Draw { mesh: i as usize, call: meshes[i].draw_call() })
}

/// The command sequence of one image: the pass is begun on the image's
/// binding, the pipeline bound, the camera pushed, every mesh drawn, and the
/// pass ended. Without a store nothing is drawn.
pub open spec fn recorded(framebuffer: usize, meshes: Option<Seq<Mesh>>) -> Seq<Command> {
    seq![Command::BeginRenderPass { framebuffer }, Command::BindPipeline, Command::PushCamera]
        + match meshes {
        Some(m) => draws(m),
        None => Seq::empty(),
    } + seq![Command::EndRenderPass]
}

/// Whether `buffers` holds the command sequence of each of `framebuffers`
/// images, recorded over `meshes`.
pub open spec fn records_all(
    buffers: Seq<Vec<Command>>,
    framebuffers: usize,
    meshes: Option<Seq<Mesh>>,
) -> bool {
    &&& buffers.len() == framebuffers
    &&& forall|i: int|
        0 <= i < buffers.len() ==> (#[trigger] buffers[i])@ == recorded(i as usize, meshes)
}

/// Whether every mesh of the store can be drawn.
pub open spec fn all_drawable(meshes: Seq<Mesh>) -> bool {
    forall|i: int| 0 <= i < meshes.len() ==> (#[trigger] meshes[i]).drawable()
}

/// Whether the surface resources must be rebuilt: a flag is set, and the
/// surface has a size that something can be built for.
pub open spec fn must_recreate(flags: SurfaceFlags, size: Extent) -> bool {
    (flags.resized || flags.recreate_needed) && size.width > 0 && size.height > 0
}

/// The viewport after a rebuild at `size`: it follows only a resize.
pub open spec fn viewport_after_recreate(
    viewport: Extent,
    flags: SurfaceFlags,
    size: Extent,
) -> Extent {
    if must_recreate(flags, size) && flags.resized {
        size
    } else {
        viewport
    }
}

/// The flags after the view has looked at them: a rebuild clears both.
pub open spec fn flags_after_recreate(flags: SurfaceFlags, size: Extent) -> SurfaceFlags {
    if must_recreate(flags, size) {
        SurfaceFlags { resized: false, recreate_needed: false }
    } else {
        flags
    }
}

/// Whether the surface resources must be rebuilt now.
pub fn recreate_due(flags: &SurfaceFlags, size: Extent) -> (due: bool)
    ensures
        due == must_recreate(*flags, size),
{
    (flags.resized || flags.recreate_needed) && size.width > 0 && size.height > 0
}

/// Records the command sequence of each of `framebuffers` images.
pub fn get_command_buffers(framebuffers: usize, meshes: Option<&Vec<Mesh>>) -> (buffers: Vec<
    Vec<Command>,
>)
    requires
        meshes is Some ==> all_drawable(meshes->0@),
    ensures
        records_all(
            buffers@,
            framebuffers,
            match meshes {
                Some(m) => Some(m@),
                None => None,
            },
        ),
{
    let ghost store: Option<Seq<Mesh>> = match meshes {
        Some(m) => Some(m@),
        None => None,
    };
    let mut buffers: Vec<Vec<Command>> = Vec::new();
    let mut f: usize = 0;
    while f < framebuffers
        invariant
            f <= framebuffers,
            records_all(buffers@, f, store),
            meshes is Some ==> all_drawable(meshes->0@),
            store == match meshes {
                Some(m) => Some(m@),
                None => None::<Seq<Mesh>>,
            },
        decreases framebuffers - f,
    {
        let mut commands: Vec<Command> = Vec::new();
        commands.push(Command::BeginRenderPass { framebuffer: f });
        commands.push(Command::BindPipeline);
        commands.push(Command::PushCamera);
        let ghost head = commands@;
        match meshes {
            Some(store_meshes) => {
                let mut i: usize = 0;
                while i < store_meshes.len()
                    invariant
                        i <= store_meshes.len(),
                        all_drawable(store_meshes@),
                        commands@ == head + draws(store_meshes@).subrange(0, i as int),
                    decreases store_meshes.len() - i,
                {
                    let call = store_meshes[i].draw();
                    commands.push(Command::Draw { mesh: i, call });
                    assert(commands@ =~= head + draws(store_meshes@).subrange(0, i as int + 1));
                    i += 1;
                }
                assert(draws(store_meshes@).subrange(0, i as int) =~= draws(store_meshes@));
            },
            None => {
                assert(commands@ =~= head + Seq::<Command>::empty());
            },
        }
        commands.push(Command::EndRenderPass);
        assert(commands@ =~= recorded(f, store));
        buffers.push(commands);
        f += 1;
    }
    buffers
}

/// The surface view.
pub struct VkView {
    /// The logical viewport rectangle.
    pub viewport: Extent,
    /// The mesh store, in draw order.
    pub meshes: Vec<Mesh>,
    /// The size that the image chain, the depth target and the pipeline were
    /// last built for.
    pub surface_extent: Extent,
    /// The number of render-target bindings, one per surface image.
    pub framebuffers: usize,
    /// The recorded command sequence of each surface image.
    pub command_buffers: Vec<Vec<Command>>,
}

impl VkView {
    /// A view of a surface of `image_count` images of the given size. The
    /// store holds the default quad, the first command sequences draw
    /// nothing yet, and both flags are cleared.
    pub fn new(size: Extent, image_count: usize, flags: &mut SurfaceFlags) -> (view: Self)
        ensures
            view.viewport == size,
            view.surface_extent == size,
            view.meshes@ == seq![Mesh { vert_buf: Some(4), ind_buf: Some(6), inst_buf: None }],
            view.framebuffers == image_count,
            records_all(view.command_buffers@, image_count, None),
            *final(flags) == (SurfaceFlags { resized: false, recreate_needed: false }),
    {
        let mut meshes: Vec<Mesh> = Vec::new();
        meshes.push(Mesh::quad());
        assert(meshes@ =~= seq![Mesh { vert_buf: Some(4), ind_buf: Some(6), inst_buf: None }]);
        let command_buffers = get_command_buffers(image_count, None);
        flags.resized = false;
        flags.recreate_needed = false;
        VkView {
            viewport: size,
            meshes,
            surface_extent: size,
            framebuffers: image_count,
            command_buffers,
        }
    }

    /// Follows the surface where a flag asks for it. Nothing happens while
    /// no flag is set or while `size` has no width or no height. Otherwise
    /// the size-dependent resources are those of the chain rebuilt at `size`,
    /// which has `image_count` images: one binding and one command sequence
    /// per image. The viewport follows only if the window was resized. Both
    /// flags are cleared.
    pub fn if_recreate_swapchain(
        &mut self,
        flags: &mut SurfaceFlags,
        size: Extent,
        image_count: usize,
    ) -> (rebuilt: bool)
        requires
            all_drawable(old(self).meshes@),
        ensures
            rebuilt == must_recreate(*old(flags), size),
            *final(flags) == flags_after_recreate(*old(flags), size),
            final(self).viewport == viewport_after_recreate(
                old(self).viewport,
                *old(flags),
                size,
            ),
            final(self).meshes == old(self).meshes,
            !rebuilt ==> *final(self) == *old(self),
            rebuilt ==> final(self).surface_extent == size && final(self).framebuffers
                == image_count && records_all(
                final(self).command_buffers@,
                image_count,
                Some(final(self).meshes@),
            ),
    {
        if recreate_due(flags, size) {
            flags.recreate_needed = false;
            self.surface_extent = size;
            self.framebuffers = image_count;
            self.command_buffers = get_command_buffers(image_count, Some(&self.meshes));
            if flags.resized {
                flags.resized = false;
                self.viewport = size;
            }
            true
        } else {
            false
        }
    }

    /// Records the command sequence of every surface image anew, with one
    /// draw per mesh of the store, in store order.
    pub fn update(&mut self)
        requires
            all_drawable(old(self).meshes@),
        ensures
            records_all(
                final(self).command_buffers@,
                old(self).framebuffers,
                Some(old(self).meshes@),
            ),
            final(self).viewport == old(self).viewport,
            final(self).meshes == old(self).meshes,
            final(self).surface_extent == old(self).surface_extent,
            final(self).framebuffers == old(self).framebuffers,
    {
        self.command_buffers = get_command_buffers(self.framebuffers, Some(&self.meshes));
    }

    /// Appends a mesh to the store.
    pub fn push_mesh(&mut self, mesh: Mesh)
        ensures
            final(self).meshes@ == old(self).meshes@.push(mesh),
            final(self).viewport == old(self).viewport,
            final(self).surface_extent == old(self).surface_extent,
            final(self).framebuffers == old(self).framebuffers,
            final(self).command_buffers == old(self).command_buffers,
            all_drawable(old(self).meshes@) && mesh.drawable() ==> all_drawable(
                final(self).meshes@,
            ),
    {
        self.meshes.push(mesh);
    }
}

/// A resize is followed once. With the resized flag set and a size that has
/// width and height, the view rebuilds, its viewport becomes that size and
/// both flags come out clear; and while both flags are clear, no size makes
/// the view rebuild or move its viewport.
pub proof fn lemma_resize_followed_once(
    flags: SurfaceFlags,
    viewport: Extent,
    size: Extent,
    later: Extent,
)
    requires
        size.width > 0,
        size.height > 0,
    ensures
        ({
            let raised = SurfaceFlags { resized: true, ..flags };
            let settled = flags_after_recreate(raised, size);
            let followed = viewport_after_recreate(viewport, raised, size);
            &&& must_recreate(raised, size)
            &&& followed == size
            &&& settled == (SurfaceFlags { resized: false, recreate_needed: false })
            &&& !must_recreate(settled, later)
            &&& flags_after_recreate(settled, later) == settled
            &&& viewport_after_recreate(followed, settled, later) == size
        }),
{
}

/// While the surface has no width or no height, nothing is rebuilt and the
/// flags stay as they are, so that the rebuild is still due later.
pub proof fn lemma_degenerate_size_defers(flags: SurfaceFlags, viewport: Extent, size: Extent)
    requires
        size.width == 0 || size.height == 0,
    ensures
        !must_recreate(flags, size),
        flags_after_recreate(flags, size) == flags,
        viewport_after_recreate(viewport, flags, size) == viewport,
{
}

} // verus!
