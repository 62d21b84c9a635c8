use voxel_render::rvkp::presenter::{
    AcquireOutcome, PresentError, PresentPhase, PresentStep, SubmitOutcome, SubmitPlan,
    SurfaceFlags, VkPresenter,
};

fn clear() -> SurfaceFlags {
    SurfaceFlags { resized: false, recreate_needed: false }
}

fn acquire(image_i: u32) -> AcquireOutcome {
    AcquireOutcome::Acquired { image_i, suboptimal: false }
}

#[test]
fn new_presenter_has_no_frame_in_flight() {
    let p = VkPresenter::new(3);
    assert_eq!(p.frames_in_flight(), 3);
    assert_eq!(p.previous_fence_i(), 0);
    assert_eq!(p.phase(), PresentPhase::Idle);
    for slot in 0..5 {
        assert_eq!(p.fence(slot), None);
    }
}

#[test]
fn flags_are_set_by_their_signals() {
    let mut flags = SurfaceFlags::new();
    assert_eq!(flags, clear());
    flags.on_resize();
    assert_eq!(flags, SurfaceFlags { resized: true, recreate_needed: false });
    flags.on_surface_degraded();
    assert_eq!(flags, SurfaceFlags { resized: true, recreate_needed: true });
    let mut flags = SurfaceFlags::new();
    flags.on_surface_degraded();
    assert_eq!(flags, SurfaceFlags { resized: false, recreate_needed: true });
}

#[test]
fn invalid_surface_skips_the_tick() {
    let mut p = VkPresenter::new(2);
    let mut flags = clear();
    assert_eq!(p.present(&mut flags, AcquireOutcome::OutOfDate), Ok(PresentStep::Skip));
    assert!(flags.recreate_needed);
    assert!(!flags.resized);
    assert_eq!(p.phase(), PresentPhase::Idle);
    assert_eq!(p.fence(0), None);
    assert_eq!(p.fence(1), None);
}

#[test]
fn suboptimal_surface_still_draws() {
    let mut p = VkPresenter::new(2);
    let mut flags = clear();
    let step = p.present(&mut flags, AcquireOutcome::Acquired { image_i: 1, suboptimal: true });
    assert_eq!(step, Ok(PresentStep::Submit(SubmitPlan { image_i: 1, join: None })));
    assert!(flags.recreate_needed);
    assert_eq!(p.phase(), PresentPhase::Submitting(1));
}

#[test]
fn first_frame_joins_with_nothing() {
    let mut p = VkPresenter::new(3);
    let mut flags = clear();
    let step = p.present(&mut flags, acquire(0));
    assert_eq!(step, Ok(PresentStep::Submit(SubmitPlan { image_i: 0, join: None })));
    assert_eq!(flags, clear());
    assert_eq!(p.submitted(&mut flags, SubmitOutcome::Flushed { fence: 77 }), Ok(()));
    assert_eq!(p.fence(0), Some(77));
    assert_eq!(p.fence(1), None);
    assert_eq!(p.fence(2), None);
    assert_eq!(p.previous_fence_i(), 0);
    assert_eq!(p.phase(), PresentPhase::Idle);
    assert_eq!(flags, clear());
}

#[test]
fn next_frame_joins_with_the_previous_one() {
    let mut p = VkPresenter::new(3);
    let mut flags = clear();
    p.present(&mut flags, acquire(2)).unwrap();
    p.submitted(&mut flags, SubmitOutcome::Flushed { fence: 10 }).unwrap();
    assert_eq!(p.previous_fence_i(), 2);
    let step = p.present(&mut flags, acquire(0));
    assert_eq!(step, Ok(PresentStep::Submit(SubmitPlan { image_i: 0, join: Some(10) })));
    p.submitted(&mut flags, SubmitOutcome::Flushed { fence: 11 }).unwrap();
    assert_eq!(p.previous_fence_i(), 0);
    assert_eq!(p.fence(0), Some(11));
    assert_eq!(p.fence(2), Some(10));
}

#[test]
fn used_slot_is_waited_for() {
    let mut p = VkPresenter::new(2);
    let mut flags = clear();
    p.present(&mut flags, acquire(0)).unwrap();
    p.submitted(&mut flags, SubmitOutcome::Flushed { fence: 1 }).unwrap();
    p.present(&mut flags, acquire(1)).unwrap();
    p.submitted(&mut flags, SubmitOutcome::Flushed { fence: 2 }).unwrap();
    let step = p.present(&mut flags, acquire(0));
    assert_eq!(step, Ok(PresentStep::WaitFence { image_i: 0, fence: 1 }));
    assert_eq!(p.phase(), PresentPhase::AwaitingFence(0));
    assert_eq!(p.fence_signaled(), Ok(SubmitPlan { image_i: 0, join: Some(2) }));
    assert_eq!(p.phase(), PresentPhase::Submitting(0));
    p.submitted(&mut flags, SubmitOutcome::Flushed { fence: 3 }).unwrap();
    assert_eq!(p.fence(0), Some(3));
    assert_eq!(p.fence(1), Some(2));
    assert_eq!(p.previous_fence_i(), 0);
}

#[test]
fn same_slot_twice_joins_with_its_own_fence() {
    let mut p = VkPresenter::new(1);
    let mut flags = clear();
    p.present(&mut flags, acquire(0)).unwrap();
    p.submitted(&mut flags, SubmitOutcome::Flushed { fence: 5 }).unwrap();
    assert_eq!(
        p.present(&mut flags, acquire(0)),
        Ok(PresentStep::WaitFence { image_i: 0, fence: 5 })
    );
    assert_eq!(p.fence_signaled(), Ok(SubmitPlan { image_i: 0, join: Some(5) }));
}

#[test]
fn out_of_date_submit_drops_the_fence() {
    let mut p = VkPresenter::new(2);
    let mut flags = clear();
    p.present(&mut flags, acquire(1)).unwrap();
    p.submitted(&mut flags, SubmitOutcome::Flushed { fence: 9 }).unwrap();
    assert_eq!(
        p.present(&mut flags, acquire(1)),
        Ok(PresentStep::WaitFence { image_i: 1, fence: 9 })
    );
    p.fence_signaled().unwrap();
    assert_eq!(p.submitted(&mut flags, SubmitOutcome::OutOfDate), Ok(()));
    assert!(flags.recreate_needed);
    assert_eq!(p.fence(1), None);
    assert_eq!(p.previous_fence_i(), 1);
    assert_eq!(p.phase(), PresentPhase::Idle);
    let step = p.present(&mut flags, acquire(1));
    assert_eq!(step, Ok(PresentStep::Submit(SubmitPlan { image_i: 1, join: None })));
}

#[test]
fn failed_submit_is_handed_to_the_caller() {
    let mut p = VkPresenter::new(2);
    let mut flags = clear();
    p.present(&mut flags, acquire(0)).unwrap();
    assert_eq!(p.submitted(&mut flags, SubmitOutcome::Failed), Err(PresentError::SubmitFailed));
    assert_eq!(flags, clear());
    assert_eq!(p.fence(0), None);
    assert_eq!(p.previous_fence_i(), 0);
    assert_eq!(p.phase(), PresentPhase::Idle);
}

#[test]
fn unknown_image_is_refused() {
    let mut p = VkPresenter::new(2);
    let mut flags = clear();
    let r = p.present(&mut flags, AcquireOutcome::Acquired { image_i: 2, suboptimal: true });
    assert_eq!(r, Err(PresentError::UnknownImage));
    assert_eq!(flags, clear());
    assert_eq!(p.phase(), PresentPhase::Idle);
    let mut none = VkPresenter::new(0);
    assert_eq!(none.frames_in_flight(), 0);
    assert_eq!(none.present(&mut flags, acquire(0)), Err(PresentError::UnknownImage));
    assert_eq!(none.present(&mut flags, AcquireOutcome::OutOfDate), Ok(PresentStep::Skip));
}

#[test]
fn reports_out_of_turn_are_refused() {
    let mut p = VkPresenter::new(2);
    let mut flags = clear();
    assert_eq!(p.fence_signaled(), Err(PresentError::OutOfTurn));
    assert_eq!(
        p.submitted(&mut flags, SubmitOutcome::Flushed { fence: 1 }),
        Err(PresentError::OutOfTurn)
    );
    assert_eq!(p.submitted(&mut flags, SubmitOutcome::OutOfDate), Err(PresentError::OutOfTurn));
    assert_eq!(flags, clear());
    assert_eq!(p.fence(0), None);
    p.present(&mut flags, acquire(0)).unwrap();
    assert_eq!(p.present(&mut flags, acquire(1)), Err(PresentError::OutOfTurn));
    assert_eq!(p.present(&mut flags, AcquireOutcome::OutOfDate), Err(PresentError::OutOfTurn));
    assert_eq!(flags, clear());
    assert_eq!(p.fence_signaled(), Err(PresentError::OutOfTurn));
    assert_eq!(p.phase(), PresentPhase::Submitting(0));
    p.submitted(&mut flags, SubmitOutcome::Flushed { fence: 4 }).unwrap();
    p.present(&mut flags, acquire(0)).unwrap();
    assert_eq!(
        p.submitted(&mut flags, SubmitOutcome::Flushed { fence: 5 }),
        Err(PresentError::OutOfTurn)
    );
    assert_eq!(p.fence(0), Some(4));
    assert_eq!(p.phase(), PresentPhase::AwaitingFence(0));
}

#[test]
fn slots_are_never_reused_before_their_fence_is_seen() {
    let images = 3usize;
    let mut p = VkPresenter::new(images);
    let mut flags = clear();
    // The backend's side of each slot: the fence of the frame that still
    // uses it, and whether that fence has been waited for.
    let mut in_use: Vec<Option<(u64, bool)>> = vec![None; images];
    let mut submissions = vec![0u32; images];
    let mut waits = vec![0u32; images];
    let mut skipped = 0u32;
    let mut next_fence: u64 = 1;
    let mut acquired_count: u32 = 0;
    for tick in 1..=10_000u32 {
        if tick % 37 == 0 && tick % 2 == 1 {
            assert_eq!(p.present(&mut flags, AcquireOutcome::OutOfDate), Ok(PresentStep::Skip));
            assert!(flags.recreate_needed);
            flags.recreate_needed = false;
            skipped += 1;
            continue;
        }
        let image = acquired_count % images as u32;
        acquired_count += 1;
        let slot = image as usize;
        let plan = match p.present(&mut flags, acquire(image)).unwrap() {
            PresentStep::Skip => panic!("an acquired image must be drawn"),
            PresentStep::WaitFence { image_i, fence } => {
                assert_eq!(image_i, image);
                let held = in_use[slot].expect("a wait names a frame that used the slot");
                assert_eq!(held.0, fence);
                in_use[slot] = Some((fence, true));
                waits[slot] += 1;
                p.fence_signaled().unwrap()
            }
            PresentStep::Submit(plan) => plan,
        };
        assert_eq!(plan.image_i, image);
        if let Some((_, seen)) = in_use[slot] {
            assert!(seen, "slot {slot} reused before its fence was seen");
        }
        submissions[slot] += 1;
        if tick % 37 == 0 {
            assert_eq!(p.submitted(&mut flags, SubmitOutcome::OutOfDate), Ok(()));
            assert!(flags.recreate_needed);
            flags.recreate_needed = false;
            in_use[slot] = None;
            assert_eq!(p.fence(slot), None);
        } else {
            let fence = next_fence;
            next_fence += 1;
            assert_eq!(p.submitted(&mut flags, SubmitOutcome::Flushed { fence }), Ok(()));
            in_use[slot] = Some((fence, false));
            assert_eq!(p.fence(slot), Some(fence));
        }
        assert_eq!(p.previous_fence_i(), image);
        assert_eq!(p.frames_in_flight(), images);
        assert!(!flags.recreate_needed);
    }
    let injected = 10_000 / 37;
    assert_eq!(skipped, (injected + 1) / 2);
    assert_eq!(submissions.iter().sum::<u32>(), 10_000 - skipped);
    let dropped = injected - skipped;
    assert!(waits.iter().sum::<u32>() >= 10_000 - skipped - dropped - images as u32 - dropped);
    for slot in 0..images {
        assert!(waits[slot] < submissions[slot]);
    }
}
