//! What the pet does with the user's pointer: grabbing, dragging, letting
//! go and quitting. The window system's events come in as `PointerEvent`s
//! and what the window must do in turn goes out as a `Reaction`.

use std::time::{Duration, Instant};
use vstd::prelude::*;

use crate::clock::{duration_between, nanos_of, now};
use crate::pet::{
    frame_delay_millis, mode_after_activity, mode_after_tick, PetMode, PetState,
};

verus! {

/// A window event, as far as the pet's behaviour depends on it.
#[derive(Debug, Clone, Copy, PartialEq, Eq, Structural)]
pub enum PointerEvent {
    /// The window was asked to close.
    CloseRequested,
    /// The pointer moved over the window.
    CursorMoved,
    /// The left button went down; `on_pet` where the pointer is over the
    /// pet's body.
    LeftPressed { on_pet: bool },
    /// The left button came up.
    LeftReleased,
    /// The right button went down.
    RightPressed,
    /// The window changed size.
    Resized,
    /// Anything else.
    Other,
}

/// What the window has to do after an event.
#[derive(Debug, Clone, Copy, PartialEq, Eq, Structural)]
pub enum Reaction {
    /// Nothing.
    Nothing,
    /// Quit the program.
    Exit,
    /// Move the window so that the grab point follows the pointer.
    FollowPointer,
    /// Remember where the pointer grabbed the pet.
    BeginDrag,
    /// Rebuild what is drawn to fit the new window size.
    ResizeRenderer,
}

/// What a `PetController` stands for.
pub struct ControllerView {
    /// Whether the pointer holds the pet.
    pub dragging: bool,
    /// The pet's mode.
    pub mode: PetMode,
    /// The idle time measured at the last frame, in nanoseconds.
    pub idle_for_nanos: int,
    /// The clock reading of the user's last activity.
    pub last_activity: Instant,
}

/// A pet that the pointer holds is in dragging mode.
pub open spec fn drag_holds_pet(v: ControllerView) -> bool {
    v.dragging ==> v.mode == PetMode::Dragging
}

/// The events that count as user activity: pointer movement and the left
/// button.
pub open spec fn is_activity(event: PointerEvent) -> bool {
    match event {
        PointerEvent::CursorMoved => true,
        PointerEvent::LeftPressed { .. } => true,
        PointerEvent::LeftReleased => true,
        _ => false,
    }
}

/// The state after `event`, which came at the clock reading `at`. The
/// activity events restart the idle clock at `at`; no other event touches
/// the pet.
pub open spec fn after_event(v: ControllerView, event: PointerEvent, at: Instant) -> ControllerView {
    match event {
        PointerEvent::CursorMoved => ControllerView {
            mode: if v.dragging { PetMode::Dragging } else { mode_after_activity(v.mode) },
            last_activity: at,
            ..v
        },
        PointerEvent::LeftPressed { on_pet } => ControllerView {
            dragging: v.dragging || on_pet,
            mode: if on_pet { PetMode::Dragging } else { mode_after_activity(v.mode) },
            last_activity: at,
            ..v
        },
        PointerEvent::LeftReleased => ControllerView {
            dragging: false,
            mode: PetMode::Idle,
            last_activity: at,
            ..v
        },
        _ => v,
    }
}

/// What the window does after `event`.
pub open spec fn reaction_to(v: ControllerView, event: PointerEvent) -> Reaction {
    match event {
        PointerEvent::CloseRequested => Reaction::Exit,
        PointerEvent::RightPressed => Reaction::Exit,
        PointerEvent::CursorMoved => if v.dragging { Reaction::FollowPointer } else { Reaction::Nothing },
        PointerEvent::LeftPressed { on_pet } => if on_pet { Reaction::BeginDrag } else { Reaction::Nothing },
        PointerEvent::Resized => Reaction::ResizeRenderer,
        _ => Reaction::Nothing,
    }
}

/// The pet and whether the pointer holds it.
pub struct PetController {
    pet: PetState,
    dragging: bool,
}

impl View for PetController {
    type V = ControllerView;

    closed spec fn view(&self) -> ControllerView {
        ControllerView {
            dragging: self.dragging,
            mode: self.pet@.mode,
            idle_for_nanos: self.pet@.idle_for_nanos,
            last_activity: self.pet@.last_activity,
        }
    }
}

impl PetController {
    /// Everything that a controller keeps true: a pet that the pointer holds
    /// is in dragging mode.
    pub open spec fn wf(&self) -> bool {
        drag_holds_pet(self@)
    }

    /// A resting pet that nothing holds, whose user was last active at the
    /// clock reading `at`.
    pub fn new_at(at: Instant) -> (c: Self)
        ensures
            c.wf(),
            !c@.dragging,
            c@.mode == PetMode::Idle,
            c@.idle_for_nanos == 0,
            c@.last_activity == at,
    {
        PetController { pet: PetState::new_at(at), dragging: false }
    }

    /// A resting pet that nothing holds, whose idle clock starts at a fresh
    /// reading of the clock.
    pub fn new() -> (c: Self)
        ensures
            c.wf(),
            !c@.dragging,
            c@.mode == PetMode::Idle,
            c@.idle_for_nanos == 0,
    {
        PetController::new_at(now())
    }

    /// Whether the pointer holds the pet.
    pub fn dragging(&self) -> (dragging: bool)
        ensures
            dragging == self@.dragging,
    {
        self.dragging
    }

    /// The mode the pet is in.
    pub fn mode(&self) -> (mode: PetMode)
        ensures
            mode == self@.mode,
    {
        self.pet.mode()
    }

    /// How long to wait before the next frame.
    pub fn next_frame_delay(&self) -> (delay: Duration)
        ensures
            nanos_of(delay) == frame_delay_millis(self@.mode) * 1_000_000,
            self@.mode == PetMode::Dragging ==> nanos_of(delay) == 16_000_000,
            self@.mode == PetMode::Wandering ==> nanos_of(delay) == 33_000_000,
            self@.mode == PetMode::Idle ==> nanos_of(delay) == 90_000_000,
            self@.mode == PetMode::Sleeping ==> nanos_of(delay) == 250_000_000,
    {
        self.pet.next_frame_delay()
    }

    /// Reacts to a window event that came at the clock reading `at`.
    /// Pointer movement and the left button count as user activity and
    /// restart the idle clock at `at`.
    pub fn handle_event_at(&mut self, event: PointerEvent, at: Instant) -> (reaction: Reaction)
        requires
            old(self).wf(),
        ensures
            final(self).wf(),
            final(self)@ == after_event(old(self)@, event, at),
            reaction == reaction_to(old(self)@, event),
            event == (PointerEvent::LeftPressed { on_pet: true }) ==> final(self)@.dragging,
            event == (PointerEvent::LeftPressed { on_pet: true }) ==> final(self)@.mode == PetMode::Dragging,
            event == (PointerEvent::LeftPressed { on_pet: true }) ==> reaction == Reaction::BeginDrag,
            event == (PointerEvent::LeftPressed { on_pet: true }) ==> final(self)@.last_activity == at,
            event == (PointerEvent::LeftPressed { on_pet: false }) ==> final(self)@.dragging == old(self)@.dragging,
            event == (PointerEvent::LeftPressed { on_pet: false }) ==> (old(self)@.mode != PetMode::Dragging ==> final(self)@.mode == PetMode::Idle),
            event == (PointerEvent::LeftPressed { on_pet: false }) ==> (old(self)@.mode == PetMode::Dragging ==> final(self)@.mode == PetMode::Dragging),
            event == (PointerEvent::LeftPressed { on_pet: false }) ==> reaction == Reaction::Nothing,
            event == (PointerEvent::LeftPressed { on_pet: false }) ==> final(self)@.last_activity == at,
            event == PointerEvent::LeftReleased ==> !final(self)@.dragging,
            event == PointerEvent::LeftReleased ==> final(self)@.mode == PetMode::Idle,
            event == PointerEvent::LeftReleased ==> reaction == Reaction::Nothing,
            event == PointerEvent::LeftReleased ==> final(self)@.last_activity == at,
            event == PointerEvent::CursorMoved ==> final(self)@.dragging == old(self)@.dragging,
            event == PointerEvent::CursorMoved ==> (old(self)@.dragging ==> final(self)@.mode == PetMode::Dragging && reaction == Reaction::FollowPointer),
            event == PointerEvent::CursorMoved ==> (!old(self)@.dragging && old(self)@.mode != PetMode::Dragging ==> final(self)@.mode == PetMode::Idle),
            event == PointerEvent::CursorMoved ==> (!old(self)@.dragging ==> reaction == Reaction::Nothing),
            event == PointerEvent::CursorMoved ==> final(self)@.last_activity == at,
            (event == PointerEvent::CloseRequested || event == PointerEvent::RightPressed) ==> final(self)@ == old(self)@,
            (event == PointerEvent::CloseRequested || event == PointerEvent::RightPressed) ==> reaction == Reaction::Exit,
            event == PointerEvent::Resized ==> final(self)@ == old(self)@,
            event == PointerEvent::Resized ==> reaction == Reaction::ResizeRenderer,
            event == PointerEvent::Other ==> final(self)@ == old(self)@,
            event == PointerEvent::Other ==> reaction == Reaction::Nothing,
            final(self)@.idle_for_nanos == old(self)@.idle_for_nanos,
    {
        match event {
            PointerEvent::CloseRequested => Reaction::Exit,
            PointerEvent::RightPressed => Reaction::Exit,
            PointerEvent::Resized => Reaction::ResizeRenderer,
            PointerEvent::Other => Reaction::Nothing,
            PointerEvent::CursorMoved => {
                self.pet.note_user_activity_at(at);
                if self.dragging {
                    self.pet.set_dragging_at(true, at);
                    Reaction::FollowPointer
                } else {
                    Reaction::Nothing
                }
            },
            PointerEvent::LeftPressed { on_pet } => {
                self.pet.note_user_activity_at(at);
                if on_pet {
                    self.pet.set_dragging_at(true, at);
                    self.dragging = true;
                    Reaction::BeginDrag
                } else {
                    Reaction::Nothing
                }
            },
            PointerEvent::LeftReleased => {
                self.pet.note_user_activity_at(at);
                self.dragging = false;
                self.pet.set_dragging_at(false, at);
                Reaction::Nothing
            },
        }
    }

    /// Reacts to a window event: `handle_event_at` with a fresh reading of
    /// the clock. Whatever that reading is, the state and the reaction are
    /// the ones `after_event` and `reaction_to` give for it; the events that
    /// are no user activity leave the state exactly as it was.
    pub fn handle_event(&mut self, event: PointerEvent) -> (reaction: Reaction)
        requires
            old(self).wf(),
        ensures
            final(self).wf(),
            exists|at: Instant| final(self)@ == #[trigger] after_event(old(self)@, event, at),
            !is_activity(event) ==> final(self)@ == old(self)@,
            reaction == reaction_to(old(self)@, event),
            event == (PointerEvent::LeftPressed { on_pet: true }) ==> final(self)@.dragging,
            event == (PointerEvent::LeftPressed { on_pet: true }) ==> final(self)@.mode == PetMode::Dragging,
            event == (PointerEvent::LeftPressed { on_pet: true }) ==> reaction == Reaction::BeginDrag,
            event == (PointerEvent::LeftPressed { on_pet: false }) ==> final(self)@.dragging == old(self)@.dragging,
            event == (PointerEvent::LeftPressed { on_pet: false }) ==> (old(self)@.mode != PetMode::Dragging ==> final(self)@.mode == PetMode::Idle),
            event == (PointerEvent::LeftPressed { on_pet: false }) ==> (old(self)@.mode == PetMode::Dragging ==> final(self)@.mode == PetMode::Dragging),
            event == (PointerEvent::LeftPressed { on_pet: false }) ==> reaction == Reaction::Nothing,
            event == PointerEvent::LeftReleased ==> !final(self)@.dragging,
            event == PointerEvent::LeftReleased ==> final(self)@.mode == PetMode::Idle,
            event == PointerEvent::LeftReleased ==> reaction == Reaction::Nothing,
            event == PointerEvent::CursorMoved ==> final(self)@.dragging == old(self)@.dragging,
            event == PointerEvent::CursorMoved ==> (old(self)@.dragging ==> final(self)@.mode == PetMode::Dragging && reaction == Reaction::FollowPointer),
            event == PointerEvent::CursorMoved ==> (!old(self)@.dragging && old(self)@.mode != PetMode::Dragging ==> final(self)@.mode == PetMode::Idle),
            event == PointerEvent::CursorMoved ==> (!old(self)@.dragging ==> reaction == Reaction::Nothing),
            (event == PointerEvent::CloseRequested || event == PointerEvent::RightPressed) ==> final(self)@ == old(self)@,
            (event == PointerEvent::CloseRequested || event == PointerEvent::RightPressed) ==> reaction == Reaction::Exit,
            event == PointerEvent::Resized ==> final(self)@ == old(self)@,
            event == PointerEvent::Resized ==> reaction == Reaction::ResizeRenderer,
            event == PointerEvent::Other ==> final(self)@ == old(self)@,
            event == PointerEvent::Other ==> reaction == Reaction::Nothing,
            final(self)@.idle_for_nanos == old(self)@.idle_for_nanos,
    {
        let at = now();
        self.handle_event_at(event, at)
    }

    /// One frame of the pet's behaviour at the clock reading `reading`, with
    /// the pointer holding the pet or not as it does now: the idle time runs
    /// from the last activity to `reading`.
    pub fn tick_at(&mut self, reading: Instant)
        requires
            old(self).wf(),
        ensures
            final(self).wf(),
            final(self)@.dragging == old(self)@.dragging,
            final(self)@.last_activity == old(self)@.last_activity,
            final(self)@.idle_for_nanos == nanos_of(duration_between(reading, old(self)@.last_activity)),
            final(self)@.mode == mode_after_tick(
                old(self)@.mode,
                old(self)@.dragging,
                final(self)@.idle_for_nanos,
            ),
            old(self)@.dragging ==> final(self)@.mode == PetMode::Dragging,
            !old(self)@.dragging && final(self)@.idle_for_nanos > 300_000_000_000 ==> final(self)@.mode == PetMode::Sleeping,
            !old(self)@.dragging && 45_000_000_000 < final(self)@.idle_for_nanos <= 300_000_000_000 ==> final(self)@.mode == PetMode::Wandering,
            !old(self)@.dragging && final(self)@.idle_for_nanos <= 45_000_000_000 && old(self)@.mode != PetMode::Dragging ==> final(self)@.mode
                == PetMode::Idle,
            !old(self)@.dragging && final(self)@.idle_for_nanos <= 45_000_000_000 && old(self)@.mode == PetMode::Dragging ==> final(self)@.mode
                == PetMode::Dragging,
    {
        let dragging = self.dragging;
        self.pet.tick_at(dragging, reading);
    }

    /// One frame of the pet's behaviour: `tick_at` with a fresh reading of
    /// the clock. Whatever that reading is, the idle time runs from the last
    /// activity to it.
    pub fn tick(&mut self)
        requires
            old(self).wf(),
        ensures
            final(self).wf(),
            final(self)@.dragging == old(self)@.dragging,
            final(self)@.last_activity == old(self)@.last_activity,
            exists|reading: Instant|
                final(self)@.idle_for_nanos == nanos_of(
                    #[trigger] duration_between(reading, old(self)@.last_activity),
                ),
            final(self)@.mode == mode_after_tick(
                old(self)@.mode,
                old(self)@.dragging,
                final(self)@.idle_for_nanos,
            ),
            old(self)@.dragging ==> final(self)@.mode == PetMode::Dragging,
            !old(self)@.dragging && final(self)@.idle_for_nanos > 300_000_000_000 ==> final(self)@.mode == PetMode::Sleeping,
            !old(self)@.dragging && 45_000_000_000 < final(self)@.idle_for_nanos <= 300_000_000_000 ==> final(self)@.mode == PetMode::Wandering,
            !old(self)@.dragging && final(self)@.idle_for_nanos <= 45_000_000_000 && old(self)@.mode != PetMode::Dragging ==> final(self)@.mode
                == PetMode::Idle,
            !old(self)@.dragging && final(self)@.idle_for_nanos <= 45_000_000_000 && old(self)@.mode == PetMode::Dragging ==> final(self)@.mode
                == PetMode::Dragging,
    {
        let reading = now();
        self.tick_at(reading);
        assert(self@.idle_for_nanos == nanos_of(duration_between(reading, old(self)@.last_activity)));
    }
}

/// No event and no frame lets go of the pet behind the user's back: while the
/// pointer holds the pet, the pet stays in dragging mode.
pub proof fn lemma_drag_holds_pet(v: ControllerView, event: PointerEvent, at: Instant, idle_nanos: int)
    requires
        drag_holds_pet(v),
    ensures
        drag_holds_pet(after_event(v, event, at)),
        v.dragging ==> mode_after_tick(v.mode, v.dragging, idle_nanos) == PetMode::Dragging,
{
}

/// Grabbing the pet and letting it go leaves it resting and free, whatever
/// happened before; the pointer moving in between changes nothing of that.
/// The idle clock restarts at the release.
pub proof fn lemma_grab_then_release(v: ControllerView, moves: bool, t1: Instant, t2: Instant, t3: Instant)
    ensures
        ({
            let grabbed = after_event(v, PointerEvent::LeftPressed { on_pet: true }, t1);
            let moved = if moves { after_event(grabbed, PointerEvent::CursorMoved, t2) } else { grabbed };
            let released = after_event(moved, PointerEvent::LeftReleased, t3);
            &&& grabbed.dragging && grabbed.mode == PetMode::Dragging
            &&& moved.dragging && moved.mode == PetMode::Dragging
            &&& !released.dragging && released.mode == PetMode::Idle
            &&& released.last_activity == t3
        }),
{
}

/// A user event followed, less than 45 s later, by a frame leaves the pet
/// resting or held: it neither wanders nor sleeps.
pub proof fn lemma_activity_keeps_pet_near(v: ControllerView, event: PointerEvent, at: Instant, reading: Instant)
    requires
        drag_holds_pet(v),
        is_activity(event),
        nanos_of(duration_between(reading, at)) <= crate::pet::WANDER_AFTER_NANOS,
    ensures
        ({
            let after = after_event(v, event, at);
            let mode = mode_after_tick(after.mode, after.dragging, nanos_of(duration_between(reading, after.last_activity)) as int);
            mode == PetMode::Idle || mode == PetMode::Dragging
        }),
{
}

/// The program quits on a close request or a right click, and on nothing else;
/// neither of them touches the pet.
pub proof fn lemma_exit_only_on_request(v: ControllerView, event: PointerEvent, at: Instant)
    ensures
        reaction_to(v, event) == Reaction::Exit <==> (event == PointerEvent::CloseRequested || event
            == PointerEvent::RightPressed),
        reaction_to(v, event) == Reaction::Exit ==> after_event(v, event, at) == v,
{
}

} // verus!
