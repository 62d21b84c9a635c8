use voxel_render::event_loop::{
    run, FrameDriver, LoopAction, LoopEvent, JOB_CADENCE, JOB_CHANNEL_CAPACITY,
};
use voxel_render::mesh_gen::WorldGrid;
use voxel_render::rvkp::mesh::{DrawCall, Mesh, RVertex3d};
use voxel_render::rvkp::presenter::SurfaceFlags;
use voxel_render::rvkp::view::{get_command_buffers, recreate_due, Command, Extent, VkView};
use voxel_render::utils::Coord3;

fn size(width: u32, height: u32) -> Extent {
    Extent { width, height }
}

fn clear() -> SurfaceFlags {
    SurfaceFlags { resized: false, recreate_needed: false }
}

fn quad_draw() -> Command {
    Command::Draw {
        mesh: 0,
        call: DrawCall { index_count: 6, instance_count: 0, instanced: false },
    }
}

fn frame(framebuffer: usize, draws: Vec<Command>) -> Vec<Command> {
    let mut commands =
        vec![Command::BeginRenderPass { framebuffer }, Command::BindPipeline, Command::PushCamera];
    commands.extend(draws);
    commands.push(Command::EndRenderPass);
    commands
}

#[test]
fn vertex_holds_its_position() {
    assert_eq!(RVertex3d::new(1, 2, 3), RVertex3d { x: 1, y: 2, z: 3 });
}

#[test]
fn mesh_builders_set_one_buffer_each() {
    let m = Mesh::new(8, 36);
    assert_eq!(m, Mesh { vert_buf: Some(8), ind_buf: Some(36), inst_buf: None });
    assert_eq!(Mesh::quad(), Mesh { vert_buf: Some(4), ind_buf: Some(6), inst_buf: None });
    let m = m.vertices(16);
    assert_eq!(m, Mesh { vert_buf: Some(16), ind_buf: Some(36), inst_buf: None });
    let m = m.indices(72);
    assert_eq!(m, Mesh { vert_buf: Some(16), ind_buf: Some(72), inst_buf: None });
    let m = m.instances(5);
    assert_eq!(m, Mesh { vert_buf: Some(16), ind_buf: Some(72), inst_buf: Some(5) });
}

#[test]
fn draw_reads_all_indices() {
    assert_eq!(
        Mesh::new(8, 36).draw(),
        DrawCall { index_count: 36, instance_count: 0, instanced: false }
    );
    assert_eq!(
        Mesh::new(8, 36).instances(4).draw(),
        DrawCall { index_count: 36, instance_count: 4, instanced: true }
    );
    assert_eq!(
        Mesh::new(0, 0).instances(0).draw(),
        DrawCall { index_count: 0, instance_count: 0, instanced: true }
    );
}

#[test]
fn new_view_holds_the_quad_and_draws_nothing_yet() {
    let mut flags = SurfaceFlags { resized: true, recreate_needed: true };
    let view = VkView::new(size(800, 600), 3, &mut flags);
    assert_eq!(flags, clear());
    assert_eq!(view.viewport, size(800, 600));
    assert_eq!(view.surface_extent, size(800, 600));
    assert_eq!(view.framebuffers, 3);
    assert_eq!(view.meshes, vec![Mesh::quad()]);
    assert_eq!(view.command_buffers, vec![frame(0, vec![]), frame(1, vec![]), frame(2, vec![])]);
}

#[test]
fn update_draws_every_mesh_in_store_order() {
    let mut flags = clear();
    let mut view = VkView::new(size(640, 480), 2, &mut flags);
    view.push_mesh(Mesh::new(8, 36));
    view.push_mesh(Mesh::new(16, 72).instances(3));
    assert_eq!(view.meshes, vec![Mesh::quad(), Mesh::new(8, 36), Mesh::new(16, 72).instances(3)]);
    assert_eq!(view.command_buffers, vec![frame(0, vec![]), frame(1, vec![])]);
    view.update();
    let draws = vec![
        quad_draw(),
        Command::Draw {
            mesh: 1,
            call: DrawCall { index_count: 36, instance_count: 0, instanced: false },
        },
        Command::Draw {
            mesh: 2,
            call: DrawCall { index_count: 72, instance_count: 3, instanced: true },
        },
    ];
    assert_eq!(view.command_buffers, vec![frame(0, draws.clone()), frame(1, draws)]);
    assert_eq!(view.viewport, size(640, 480));
    assert_eq!(view.framebuffers, 2);
}

#[test]
fn command_buffers_without_a_store_or_images() {
    assert_eq!(get_command_buffers(0, None), Vec::<Vec<Command>>::new());
    assert_eq!(get_command_buffers(0, Some(&vec![Mesh::quad()])), Vec::<Vec<Command>>::new());
    assert_eq!(get_command_buffers(1, Some(&vec![])), vec![frame(0, vec![])]);
    assert_eq!(get_command_buffers(1, Some(&vec![Mesh::quad()])), vec![frame(0, vec![quad_draw()])]);
}

#[test]
fn no_flag_no_rebuild() {
    let mut flags = clear();
    let mut view = VkView::new(size(800, 600), 3, &mut flags);
    assert!(!view.if_recreate_swapchain(&mut flags, size(1024, 768), 5));
    assert_eq!(flags, clear());
    assert_eq!(view.viewport, size(800, 600));
    assert_eq!(view.surface_extent, size(800, 600));
    assert_eq!(view.framebuffers, 3);
    assert_eq!(view.command_buffers.len(), 3);
}

#[test]
fn resize_is_followed_exactly_once() {
    let mut flags = clear();
    let mut view = VkView::new(size(800, 600), 3, &mut flags);
    flags.on_resize();
    assert!(FrameDriver::begin_tick(&mut view, &mut flags, size(1024, 768), 4));
    assert_eq!(flags, clear());
    assert_eq!(view.viewport, size(1024, 768));
    assert_eq!(view.surface_extent, size(1024, 768));
    assert_eq!(view.framebuffers, 4);
    assert_eq!(view.command_buffers.len(), 4);
    for (i, commands) in view.command_buffers.iter().enumerate() {
        assert_eq!(*commands, frame(i, vec![quad_draw()]));
    }
    for _ in 0..10 {
        assert!(!FrameDriver::begin_tick(&mut view, &mut flags, size(1024, 768), 4));
        assert!(!FrameDriver::begin_tick(&mut view, &mut flags, size(300, 200), 7));
        assert_eq!(flags, clear());
        assert_eq!(view.viewport, size(1024, 768));
        assert_eq!(view.surface_extent, size(1024, 768));
        assert_eq!(view.framebuffers, 4);
        assert_eq!(view.command_buffers.len(), 4);
    }
}

#[test]
fn degraded_surface_rebuilds_without_moving_the_viewport() {
    let mut flags = clear();
    let mut view = VkView::new(size(800, 600), 3, &mut flags);
    flags.on_surface_degraded();
    assert!(view.if_recreate_swapchain(&mut flags, size(1024, 768), 2));
    assert_eq!(flags, clear());
    assert_eq!(view.viewport, size(800, 600));
    assert_eq!(view.surface_extent, size(1024, 768));
    assert_eq!(view.framebuffers, 2);
    assert_eq!(view.command_buffers, vec![frame(0, vec![quad_draw()]), frame(1, vec![quad_draw()])]);
    assert!(!view.if_recreate_swapchain(&mut flags, size(1024, 768), 2));
}

#[test]
fn both_flags_are_handled_by_one_rebuild() {
    let mut flags = clear();
    let mut view = VkView::new(size(800, 600), 3, &mut flags);
    flags.on_resize();
    flags.on_surface_degraded();
    assert!(view.if_recreate_swapchain(&mut flags, size(10, 20), 3));
    assert_eq!(flags, clear());
    assert_eq!(view.viewport, size(10, 20));
    assert!(!view.if_recreate_swapchain(&mut flags, size(10, 20), 3));
}

#[test]
fn degenerate_size_defers_the_rebuild() {
    let mut flags = clear();
    let mut view = VkView::new(size(800, 600), 3, &mut flags);
    flags.on_resize();
    for s in [size(0, 600), size(800, 0), size(0, 0)] {
        assert!(!view.if_recreate_swapchain(&mut flags, s, 9));
        assert_eq!(flags, SurfaceFlags { resized: true, recreate_needed: false });
        assert_eq!(view.viewport, size(800, 600));
        assert_eq!(view.surface_extent, size(800, 600));
        assert_eq!(view.framebuffers, 3);
    }
    assert!(view.if_recreate_swapchain(&mut flags, size(1, 1), 3));
    assert_eq!(view.viewport, size(1, 1));
    assert_eq!(flags, clear());
}

#[test]
fn begin_tick_records_even_without_a_rebuild() {
    let mut flags = clear();
    let mut view = VkView::new(size(800, 600), 2, &mut flags);
    view.push_mesh(Mesh::new(8, 36));
    assert!(!FrameDriver::begin_tick(&mut view, &mut flags, size(800, 600), 2));
    assert_eq!(view.command_buffers.len(), 2);
    assert_eq!(view.command_buffers[1].len(), 6);
    assert_eq!(view.command_buffers[1][3], quad_draw());
}

#[test]
fn cadence_and_capacity_defaults() {
    assert_eq!(JOB_CADENCE, 500);
    assert_eq!(JOB_CHANNEL_CAPACITY, 100);
}

#[test]
fn job_is_due_every_five_hundredth_tick() {
    let mut driver = FrameDriver::new(JOB_CADENCE);
    assert_eq!(driver.cadence, 500);
    assert_eq!(driver.ticks, 0);
    let mut grid = WorldGrid::new();
    let mut jobs = Vec::new();
    for tick in 1..=1600u64 {
        match driver.end_tick(&mut grid) {
            Some(job) => {
                assert_eq!(tick % 500, 0);
                jobs.push(job.pos);
            }
            None => assert_ne!(tick % 500, 0),
        }
        assert_eq!(driver.ticks, tick % 500);
    }
    assert_eq!(
        jobs,
        vec![Coord3 { x: 0, y: 0, z: 0 }, Coord3 { x: 1, y: 0, z: 0 }, Coord3 { x: 2, y: 0, z: 0 }]
    );
    assert_eq!(grid.is_claimed(2, 0, 0), Ok(true));
    assert_eq!(grid.is_claimed(3, 0, 0), Ok(false));
}

#[test]
fn short_cadences_ask_on_every_tick() {
    for cadence in [0u64, 1] {
        let mut driver = FrameDriver::new(cadence);
        let mut grid = WorldGrid::new();
        for k in 0..5usize {
            let job = driver.end_tick(&mut grid).unwrap();
            assert_eq!(job.pos, Coord3 { x: k, y: 0, z: 0 });
            assert_eq!(driver.ticks, 0);
        }
    }
    let mut driver = FrameDriver::new(2);
    let mut grid = WorldGrid::new();
    assert!(driver.end_tick(&mut grid).is_none());
    assert!(driver.end_tick(&mut grid).is_some());
    assert!(driver.end_tick(&mut grid).is_none());
    assert!(driver.end_tick(&mut grid).is_some());
}

#[test]
fn driver_skips_claimed_chunks_and_stops_on_a_full_grid() {
    let mut grid = WorldGrid::new();
    grid.claim(0, 0, 0).unwrap();
    grid.claim(1, 0, 0).unwrap();
    let mut driver = FrameDriver::new(1);
    assert_eq!(driver.end_tick(&mut grid).unwrap().pos, Coord3 { x: 2, y: 0, z: 0 });
    for z in 0..32 {
        for y in 0..32 {
            for x in 0..32 {
                let _ = grid.claim(x, y, z);
            }
        }
    }
    assert!(driver.end_tick(&mut grid).is_none());
}

#[test]
fn rebuild_is_due_on_a_flag_and_a_real_size() {
    let resized = SurfaceFlags { resized: true, recreate_needed: false };
    let degraded = SurfaceFlags { resized: false, recreate_needed: true };
    assert!(recreate_due(&resized, size(1, 1)));
    assert!(recreate_due(&degraded, size(800, 600)));
    assert!(!recreate_due(&clear(), size(800, 600)));
    assert!(!recreate_due(&resized, size(0, 600)));
    assert!(!recreate_due(&degraded, size(800, 0)));
}

#[test]
fn event_loop_answers_each_event() {
    let mut flags = clear();
    assert_eq!(run(LoopEvent::Other, &mut flags), LoopAction::Wait);
    assert_eq!(flags, clear());
    assert_eq!(run(LoopEvent::MainEventsCleared, &mut flags), LoopAction::Tick);
    assert_eq!(flags, clear());
    assert_eq!(run(LoopEvent::Resized, &mut flags), LoopAction::Wait);
    assert_eq!(flags, SurfaceFlags { resized: true, recreate_needed: false });
    assert_eq!(run(LoopEvent::CloseRequested, &mut flags), LoopAction::Exit);
    assert_eq!(flags, SurfaceFlags { resized: true, recreate_needed: false });
    let mut degraded = SurfaceFlags { resized: false, recreate_needed: true };
    assert_eq!(run(LoopEvent::Resized, &mut degraded), LoopAction::Wait);
    assert_eq!(degraded, SurfaceFlags { resized: true, recreate_needed: true });
}

#[test]
fn resize_event_then_one_tick() {
    let mut flags = clear();
    let mut view = VkView::new(size(800, 600), 3, &mut flags);
    assert_eq!(run(LoopEvent::Resized, &mut flags), LoopAction::Wait);
    assert_eq!(run(LoopEvent::MainEventsCleared, &mut flags), LoopAction::Tick);
    assert!(FrameDriver::begin_tick(&mut view, &mut flags, size(320, 240), 3));
    assert_eq!(view.viewport, size(320, 240));
    assert_eq!(view.surface_extent, size(320, 240));
    assert_eq!(run(LoopEvent::MainEventsCleared, &mut flags), LoopAction::Tick);
    assert!(!FrameDriver::begin_tick(&mut view, &mut flags, size(320, 240), 3));
    assert_eq!(view.viewport, size(320, 240));
}
