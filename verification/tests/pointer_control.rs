use std::time::Duration;

use pet_blackhole::control::{PetController, PointerEvent, Reaction};
use pet_blackhole::pet::PetMode;

#[test]
fn grab_drag_release() {
    let mut c = PetController::new();
    assert!(!c.dragging());
    assert_eq!(c.mode(), PetMode::Idle);
    assert_eq!(c.handle_event(PointerEvent::CursorMoved), Reaction::Nothing);
    assert_eq!(c.handle_event(PointerEvent::LeftPressed { on_pet: true }), Reaction::BeginDrag);
    assert!(c.dragging());
    assert_eq!(c.mode(), PetMode::Dragging);
    assert_eq!(c.next_frame_delay(), Duration::from_millis(16));
    assert_eq!(c.handle_event(PointerEvent::CursorMoved), Reaction::FollowPointer);
    c.tick();
    assert_eq!(c.mode(), PetMode::Dragging);
    assert_eq!(c.handle_event(PointerEvent::LeftReleased), Reaction::Nothing);
    assert!(!c.dragging());
    assert_eq!(c.mode(), PetMode::Idle);
    assert_eq!(c.handle_event(PointerEvent::CursorMoved), Reaction::Nothing);
}

#[test]
fn press_beside_the_pet() {
    let mut c = PetController::new();
    assert_eq!(c.handle_event(PointerEvent::LeftPressed { on_pet: false }), Reaction::Nothing);
    assert!(!c.dragging());
    assert_eq!(c.mode(), PetMode::Idle);
}

#[test]
fn quitting_and_resizing() {
    let mut c = PetController::new();
    assert_eq!(c.handle_event(PointerEvent::RightPressed), Reaction::Exit);
    assert_eq!(c.handle_event(PointerEvent::CloseRequested), Reaction::Exit);
    assert_eq!(c.handle_event(PointerEvent::Resized), Reaction::ResizeRenderer);
    assert_eq!(c.handle_event(PointerEvent::Other), Reaction::Nothing);
    assert!(!c.dragging());
    assert_eq!(c.mode(), PetMode::Idle);
}

#[test]
fn tick_without_pointer_rests() {
    let mut c = PetController::new();
    c.tick();
    assert_eq!(c.mode(), PetMode::Idle);
    assert_eq!(c.next_frame_delay(), Duration::from_millis(90));
}
