use pet_blackhole::frame::{AcquireOutcome, AcquireStep, FrameState, PresentOutcome, MAX_FRAMES_IN_FLIGHT};
use pet_blackhole::outline::{ring_neighbours, NODE_COUNT};
use pet_blackhole::swapchain::Extent2D;

#[test]
fn ring_wraps_around() {
    assert_eq!(NODE_COUNT, 24);
    assert_eq!(ring_neighbours(0), (23, 1));
    assert_eq!(ring_neighbours(5), (4, 6));
    assert_eq!(ring_neighbours(23), (22, 0));
    for i in 0..NODE_COUNT {
        let (prev, next) = ring_neighbours(i);
        assert_eq!(ring_neighbours(next).0, i);
        assert_eq!(ring_neighbours(prev).1, i);
    }
}

fn extent(width: u32, height: u32) -> Extent2D {
    Extent2D { width, height }
}

#[test]
fn fresh_frame_state() {
    let s = FrameState::new(extent(560, 560));
    assert_eq!(s.frame(), 0);
    assert!(!s.resized());
    assert!(s.has_drawable_extent());
    assert_eq!(s.extent(), extent(560, 560));
    assert!(!FrameState::new(extent(0, 560)).has_drawable_extent());
    assert!(!FrameState::new(extent(560, 0)).has_drawable_extent());
}

#[test]
fn frames_rotate_through_slots() {
    let mut s = FrameState::new(extent(10, 10));
    assert_eq!(MAX_FRAMES_IN_FLIGHT, 2);
    assert_eq!(s.on_present(PresentOutcome::Presented { suboptimal: false }), Ok(()));
    assert_eq!(s.frame(), 1);
    assert_eq!(s.on_present(PresentOutcome::Presented { suboptimal: false }), Ok(()));
    assert_eq!(s.frame(), 0);
    assert!(!s.resized());
}

#[test]
fn acquire_outcomes() {
    let mut s = FrameState::new(extent(10, 10));
    assert_eq!(
        s.on_acquire(AcquireOutcome::Acquired { image_index: 2, suboptimal: false }),
        AcquireStep::Draw(2)
    );
    assert!(!s.resized());
    assert_eq!(s.on_acquire(AcquireOutcome::Failed(-4)), AcquireStep::Fail(-4));
    assert!(!s.resized());
    assert_eq!(
        s.on_acquire(AcquireOutcome::Acquired { image_index: 1, suboptimal: true }),
        AcquireStep::Draw(1)
    );
    assert!(s.resized());
    let mut t = FrameState::new(extent(10, 10));
    assert_eq!(t.on_acquire(AcquireOutcome::OutOfDate), AcquireStep::Skip);
    assert!(t.resized());
    assert_eq!(t.frame(), 0);
}

#[test]
fn present_outcomes() {
    let mut s = FrameState::new(extent(10, 10));
    assert_eq!(s.on_present(PresentOutcome::Failed(-3)), Err(-3));
    assert_eq!(s.frame(), 0);
    assert!(!s.resized());
    assert_eq!(s.on_present(PresentOutcome::OutOfDate), Ok(()));
    assert_eq!(s.frame(), 1);
    assert!(s.resized());
    // Once noted, a needed resize stays noted.
    assert_eq!(s.on_present(PresentOutcome::Presented { suboptimal: false }), Ok(()));
    assert!(s.resized());
    let mut t = FrameState::new(extent(10, 10));
    t.request_resize();
    assert!(t.resized());
    assert_eq!(t.frame(), 0);
    assert_eq!(t.on_present(PresentOutcome::Presented { suboptimal: true }), Ok(()));
    assert_eq!(t.frame(), 1);
}
