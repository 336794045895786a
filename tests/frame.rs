use starry_engine::frame::{
    AcquireOutcome, FrameError, FramePhase, FrameScheduler, FrameStep, PresentOutcome, PresentStep,
};
use starry_engine::swapchain::{Extent, RebuildOutcome, StarrySwapchain, SwapchainError};

fn ext(width: u32, height: u32) -> Extent {
    Extent { width, height }
}

#[test]
fn unsupported_extent_surfaces_the_bounds() {
    let mut s = FrameScheduler::new(ext(800, 800), 3);
    s.mark_stale();
    assert_eq!(s.begin_frame(ext(4200, 4200)), FrameStep::Rebuild { extent: ext(4200, 4200) });
    let r = s.finish_rebuild(RebuildOutcome::ExtentNotSupported {
        min_supported: ext(64, 64),
        max_supported: ext(4096, 4096),
    });
    let e = r.unwrap_err();
    assert_eq!(
        e,
        FrameError::Swapchain(SwapchainError::ExtentNotSupported {
            provided: ext(4200, 4200),
            min_supported: ext(64, 64),
            max_supported: ext(4096, 4096),
        })
    );
    assert!(!e.is_fatal());
    assert!(s.stale);
    assert_eq!(s.phase, FramePhase::Ready);
    assert_eq!(s.extent, ext(800, 800));
    let clamped = StarrySwapchain::clamp_extent(ext(4200, 4200), ext(64, 64), ext(4096, 4096));
    assert_eq!(clamped, ext(4096, 4096));
    assert_eq!(s.begin_frame(clamped), FrameStep::Rebuild { extent: clamped });
    assert_eq!(
        s.finish_rebuild(RebuildOutcome::Rebuilt { extent: clamped, image_count: 3 }),
        Ok(FrameStep::Acquire)
    );
    assert!(!s.stale);
    assert_eq!(s.viewport, clamped);
}

#[test]
fn steady_frame_cycle() {
    let mut s = FrameScheduler::new(ext(800, 600), 2);
    assert_eq!(s.begin_frame(ext(800, 600)), FrameStep::Acquire);
    assert_eq!(
        s.finish_acquire(AcquireOutcome::Acquired { image: 1, suboptimal: false }),
        Ok(FrameStep::Record { image: 1 })
    );
    assert_eq!(s.submit(), 1);
    assert_eq!(s.phase, FramePhase::Presenting { image: 1 });
    assert_eq!(s.finish_present(PresentOutcome::Presented), Ok(PresentStep::KeepFrame));
    assert_eq!(s.phase, FramePhase::Ready);
    assert!(!s.stale);
}

#[test]
fn empty_window_skips_the_frame() {
    let mut s = FrameScheduler::new(ext(800, 600), 2);
    assert_eq!(s.begin_frame(ext(0, 600)), FrameStep::Skip);
    assert_eq!(s.begin_frame(ext(800, 0)), FrameStep::Skip);
    assert_eq!(s.phase, FramePhase::Ready);
}

#[test]
fn out_of_date_acquire_drops_frame_and_rebuilds_next() {
    let mut s = FrameScheduler::new(ext(800, 600), 2);
    assert_eq!(s.begin_frame(ext(800, 600)), FrameStep::Acquire);
    assert_eq!(s.finish_acquire(AcquireOutcome::OutOfDate), Ok(FrameStep::Skip));
    assert!(s.stale);
    assert_eq!(s.begin_frame(ext(1024, 768)), FrameStep::Rebuild { extent: ext(1024, 768) });
    assert_eq!(
        s.finish_rebuild(RebuildOutcome::Rebuilt { extent: ext(1024, 768), image_count: 3 }),
        Ok(FrameStep::Acquire)
    );
    assert_eq!(s.extent, ext(1024, 768));
    assert_eq!(s.viewport, ext(1024, 768));
    assert_eq!(s.image_count, 3);
}

#[test]
fn suboptimal_image_is_drawn_then_rebuilt() {
    let mut s = FrameScheduler::new(ext(800, 600), 2);
    s.begin_frame(ext(800, 600));
    assert_eq!(
        s.finish_acquire(AcquireOutcome::Acquired { image: 0, suboptimal: true }),
        Ok(FrameStep::Record { image: 0 })
    );
    assert!(s.stale);
    assert_eq!(s.submit(), 0);
    assert_eq!(s.finish_present(PresentOutcome::Presented), Ok(PresentStep::KeepFrame));
    assert_eq!(s.begin_frame(ext(800, 600)), FrameStep::Rebuild { extent: ext(800, 600) });
}

#[test]
fn out_of_date_present_is_not_fatal() {
    let mut s = FrameScheduler::new(ext(800, 600), 2);
    s.begin_frame(ext(800, 600));
    s.finish_acquire(AcquireOutcome::Acquired { image: 0, suboptimal: false }).unwrap();
    s.submit();
    assert_eq!(s.finish_present(PresentOutcome::OutOfDate), Ok(PresentStep::ResetFrame));
    assert!(s.stale);
    assert_eq!(s.phase, FramePhase::Ready);
}

#[test]
fn other_failures_are_fatal() {
    let mut s = FrameScheduler::new(ext(800, 600), 2);
    s.begin_frame(ext(800, 600));
    let e = s.finish_acquire(AcquireOutcome::Failed).unwrap_err();
    assert_eq!(e, FrameError::AcquireFailed);
    assert!(e.is_fatal());

    s.begin_frame(ext(800, 600));
    let e = s.finish_acquire(AcquireOutcome::Acquired { image: 2, suboptimal: false }).unwrap_err();
    assert_eq!(e, FrameError::ImageOutOfRange { image: 2, image_count: 2 });
    assert!(e.is_fatal());

    s.begin_frame(ext(800, 600));
    s.finish_acquire(AcquireOutcome::Acquired { image: 1, suboptimal: false }).unwrap();
    s.submit();
    let e = s.finish_present(PresentOutcome::Failed).unwrap_err();
    assert_eq!(e, FrameError::SubmitFailed);
    assert!(e.is_fatal());

    s.mark_stale();
    s.begin_frame(ext(800, 600));
    let e = s.finish_rebuild(RebuildOutcome::Failed).unwrap_err();
    assert_eq!(e, FrameError::Swapchain(SwapchainError::Other));
    assert!(e.is_fatal());
}

#[test]
fn rebuild_with_no_images_fails() {
    let mut s = FrameScheduler::new(ext(800, 600), 2);
    s.mark_stale();
    s.begin_frame(ext(640, 480));
    let e = s
        .finish_rebuild(RebuildOutcome::Rebuilt { extent: ext(640, 480), image_count: 0 })
        .unwrap_err();
    assert_eq!(e, FrameError::Swapchain(SwapchainError::Other));
    assert_eq!(s.image_count, 2);
}

#[test]
fn extent_range_and_clamp() {
    let (lo, hi) = (ext(64, 64), ext(4096, 4096));
    assert!(StarrySwapchain::extent_supported(ext(64, 4096), lo, hi));
    assert!(!StarrySwapchain::extent_supported(ext(63, 100), lo, hi));
    assert!(!StarrySwapchain::extent_supported(ext(100, 4097), lo, hi));
    assert_eq!(StarrySwapchain::clamp_extent(ext(10, 5000), lo, hi), ext(64, 4096));
    assert_eq!(StarrySwapchain::clamp_extent(ext(800, 600), lo, hi), ext(800, 600));
    assert!(ext(1, 1).is_drawable());
    assert!(!ext(0, 1).is_drawable());
}
