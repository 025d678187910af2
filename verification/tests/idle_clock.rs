use std::time::{Duration, Instant};

use pet_blackhole::control::{PetController, PointerEvent, Reaction};
use pet_blackhole::pet::{PetMode, PetState};

#[test]
fn idle_clock_from_creation() {
    let t0 = Instant::now();
    let mut pet = PetState::new_at(t0);
    pet.tick_at(false, t0 + Duration::from_secs(10));
    assert_eq!(pet.mode(), PetMode::Idle);
    assert_eq!(pet.next_frame_delay(), Duration::from_millis(90));
    pet.tick_at(false, t0 + Duration::from_secs(45));
    assert_eq!(pet.mode(), PetMode::Idle);
    pet.tick_at(false, t0 + Duration::from_secs(46));
    assert_eq!(pet.mode(), PetMode::Wandering);
    pet.tick_at(false, t0 + Duration::from_secs(301));
    assert_eq!(pet.mode(), PetMode::Sleeping);
}

#[test]
fn activity_restarts_the_idle_clock() {
    let t0 = Instant::now();
    let mut pet = PetState::new_at(t0);
    pet.tick_at(false, t0 + Duration::from_secs(100));
    assert_eq!(pet.mode(), PetMode::Wandering);
    pet.note_user_activity_at(t0 + Duration::from_secs(100));
    assert_eq!(pet.mode(), PetMode::Idle);
    pet.tick_at(false, t0 + Duration::from_secs(130));
    assert_eq!(pet.mode(), PetMode::Idle);
    pet.tick_at(false, t0 + Duration::from_secs(146));
    assert_eq!(pet.mode(), PetMode::Wandering);
}

#[test]
fn letting_go_restarts_the_idle_clock() {
    let t0 = Instant::now();
    let mut pet = PetState::new_at(t0);
    pet.set_dragging_at(true, t0 + Duration::from_secs(400));
    pet.tick_at(true, t0 + Duration::from_secs(400));
    assert_eq!(pet.mode(), PetMode::Dragging);
    pet.set_dragging_at(false, t0 + Duration::from_secs(400));
    assert_eq!(pet.mode(), PetMode::Idle);
    pet.tick_at(false, t0 + Duration::from_secs(420));
    assert_eq!(pet.mode(), PetMode::Idle);
}

#[test]
fn clock_readings_before_the_activity_count_as_no_idle_time() {
    let t0 = Instant::now() + Duration::from_secs(1_000);
    let mut pet = PetState::new_at(t0);
    pet.tick_at(false, t0 - Duration::from_secs(500));
    assert_eq!(pet.mode(), PetMode::Idle);
}

#[test]
fn controller_events_restart_or_keep_the_clock() {
    let t0 = Instant::now();
    let mut c = PetController::new_at(t0);
    let late = t0 + Duration::from_secs(200);
    // Events that are no user activity leave the idle clock where it was.
    assert_eq!(c.handle_event_at(PointerEvent::RightPressed, late), Reaction::Exit);
    assert_eq!(c.handle_event_at(PointerEvent::Resized, late), Reaction::ResizeRenderer);
    assert_eq!(c.handle_event_at(PointerEvent::CloseRequested, late), Reaction::Exit);
    c.tick_at(t0 + Duration::from_secs(60));
    assert_eq!(c.mode(), PetMode::Wandering);
    // A left press beside the pet is activity.
    assert_eq!(
        c.handle_event_at(PointerEvent::LeftPressed { on_pet: false }, late),
        Reaction::Nothing
    );
    assert_eq!(c.mode(), PetMode::Idle);
    c.tick_at(late + Duration::from_secs(30));
    assert_eq!(c.mode(), PetMode::Idle);
    // So is moving the pointer.
    c.tick_at(late + Duration::from_secs(50));
    assert_eq!(c.mode(), PetMode::Wandering);
    let later = late + Duration::from_secs(50);
    assert_eq!(c.handle_event_at(PointerEvent::CursorMoved, later), Reaction::Nothing);
    c.tick_at(later + Duration::from_secs(40));
    assert_eq!(c.mode(), PetMode::Idle);
}

#[test]
fn controller_grab_and_release_with_clock() {
    let t0 = Instant::now();
    let mut c = PetController::new_at(t0);
    let t1 = t0 + Duration::from_secs(500);
    assert_eq!(c.handle_event_at(PointerEvent::LeftPressed { on_pet: true }, t1), Reaction::BeginDrag);
    c.tick_at(t1 + Duration::from_secs(400));
    assert_eq!(c.mode(), PetMode::Dragging);
    assert!(c.dragging());
    let t2 = t1 + Duration::from_secs(400);
    assert_eq!(c.handle_event_at(PointerEvent::LeftReleased, t2), Reaction::Nothing);
    assert!(!c.dragging());
    c.tick_at(t2 + Duration::from_secs(44));
    assert_eq!(c.mode(), PetMode::Idle);
    c.tick_at(t2 + Duration::from_secs(301));
    assert_eq!(c.mode(), PetMode::Sleeping);
}
