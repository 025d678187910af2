//! The pet's behaviour: which mode it is in, how long the user has been
//! away, and how often it wants to be redrawn.

use std::time::{Duration, Instant};
use vstd::prelude::*;

use crate::clock::{
    duration_between, duration_from_millis, duration_nanos, nanos_of, now, saturating_duration_since,
};

verus! {

/// What the pet is doing.
#[derive(Debug, Clone, Copy, PartialEq, Eq, Structural)]
pub enum PetMode {
    /// Resting where it was left.
    Idle,
    /// Held by the user's pointer.
    Dragging,
    /// Roaming over the screen on its own.
    Wandering,
    /// Barely moving after a long absence of the user.
    Sleeping,
}

/// Idle time, in nanoseconds, beyond which the pet starts to wander (45 s).
pub const WANDER_AFTER_NANOS: u128 = 45_000_000_000;

/// Idle time, in nanoseconds, beyond which the pet falls asleep (300 s).
pub const SLEEP_AFTER_NANOS: u128 = 300_000_000_000;

/// The mode after the user has shown activity: a held pet stays held,
/// any other pet comes to rest.
pub open spec fn mode_after_activity(mode: PetMode) -> PetMode {
    if mode == PetMode::Dragging {
        PetMode::Dragging
    } else {
        PetMode::Idle
    }
}

/// The mode after a frame in which the pointer does (`dragging`) or does not
/// hold the pet and the user has been idle for `idle_nanos` nanoseconds.
pub open spec fn mode_after_tick(mode: PetMode, dragging: bool, idle_nanos: int) -> PetMode {
    if dragging {
        PetMode::Dragging
    } else if idle_nanos > SLEEP_AFTER_NANOS {
        PetMode::Sleeping
    } else if idle_nanos > WANDER_AFTER_NANOS {
        PetMode::Wandering
    } else if mode != PetMode::Dragging {
        PetMode::Idle
    } else {
        PetMode::Dragging
    }
}

/// Milliseconds between two frames in each mode: the livelier the pet,
/// the more often it is redrawn.
pub open spec fn frame_delay_millis(mode: PetMode) -> u64 {
    match mode {
        PetMode::Dragging => 16,
        PetMode::Wandering => 33,
        PetMode::Idle => 90,
        PetMode::Sleeping => 250,
    }
}

/// The state of the pet that its behaviour is decided on.
pub struct PetState {
    mode: PetMode,
    idle_for_nanos: u128,
    last_activity: Instant,
}

/// What a `PetState` stands for: its mode, the idle time measured at the
/// last frame, and the clock reading of the user's last activity.
pub struct PetStateView {
    pub mode: PetMode,
    pub idle_for_nanos: int,
    pub last_activity: Instant,
}

impl View for PetState {
    type V = PetStateView;

    closed spec fn view(&self) -> PetStateView {
        PetStateView {
            mode: self.mode,
            idle_for_nanos: self.idle_for_nanos as int,
            last_activity: self.last_activity,
        }
    }
}

impl Default for PetState {
    /// A resting pet whose user was active just now: the idle clock starts
    /// at a fresh reading of the clock.
    fn default() -> (pet: Self)
        ensures
            pet@.mode == PetMode::Idle,
            pet@.idle_for_nanos == 0,
    {
        PetState::new_at(now())
    }
}

impl PetState {
    /// A resting pet whose user was last active at the clock reading `at`.
    pub fn new_at(at: Instant) -> (pet: Self)
        ensures
            pet@.mode == PetMode::Idle,
            pet@.idle_for_nanos == 0,
            pet@.last_activity == at,
    {
        PetState { mode: PetMode::Idle, idle_for_nanos: 0, last_activity: at }
    }

    /// The mode the pet is in.
    pub fn mode(&self) -> (mode: PetMode)
        ensures
            mode == self@.mode,
    {
        self.mode
    }

    /// Records that the user did something at the clock reading `at`: the
    /// idle clock restarts there, and a pet that is not held comes to rest.
    pub fn note_user_activity_at(&mut self, at: Instant)
        ensures
            final(self)@.mode == mode_after_activity(old(self)@.mode),
            final(self)@.idle_for_nanos == old(self)@.idle_for_nanos,
            old(self)@.mode == PetMode::Dragging ==> final(self)@.mode == PetMode::Dragging,
            old(self)@.mode != PetMode::Dragging ==> final(self)@.mode == PetMode::Idle,
            final(self)@.last_activity == at,
    {
        self.last_activity = at;
        if self.mode != PetMode::Dragging {
            self.mode = PetMode::Idle;
        }
    }

    /// Records that the user did something just now: `note_user_activity_at`
    /// with a fresh reading of the clock.
    pub fn note_user_activity(&mut self)
        ensures
            final(self)@.mode == mode_after_activity(old(self)@.mode),
            final(self)@.idle_for_nanos == old(self)@.idle_for_nanos,
            old(self)@.mode == PetMode::Dragging ==> final(self)@.mode == PetMode::Dragging,
            old(self)@.mode != PetMode::Dragging ==> final(self)@.mode == PetMode::Idle,
    {
        self.note_user_activity_at(now());
    }

    /// The pointer grabs (`dragging`) or lets go of the pet at the clock
    /// reading `at`. Letting go counts as user activity and restarts the idle
    /// clock at `at`; grabbing leaves the idle clock alone.
    pub fn set_dragging_at(&mut self, dragging: bool, at: Instant)
        ensures
            final(self)@.mode == (if dragging { PetMode::Dragging } else { PetMode::Idle }),
            final(self)@.idle_for_nanos == old(self)@.idle_for_nanos,
            final(self)@.last_activity == (if dragging { old(self)@.last_activity } else { at }),
    {
        if dragging {
            self.mode = PetMode::Dragging;
        } else {
            self.mode = PetMode::Idle;
            self.note_user_activity_at(at);
        }
    }

    /// The pointer grabs (`dragging`) or lets go of the pet:
    /// `set_dragging_at` with a fresh reading of the clock.
    pub fn set_dragging(&mut self, dragging: bool)
        ensures
            final(self)@.mode == (if dragging { PetMode::Dragging } else { PetMode::Idle }),
            final(self)@.idle_for_nanos == old(self)@.idle_for_nanos,
            dragging ==> final(self)@.last_activity == old(self)@.last_activity,
    {
        if dragging {
            self.mode = PetMode::Dragging;
        } else {
            self.set_dragging_at(false, now());
        }
    }

    /// One frame of behaviour at the clock reading `reading`: the idle time
    /// is the time from the last activity to `reading`, and the pet moves to
    /// the mode that this and `dragging` call for.
    pub fn tick_at(&mut self, dragging: bool, reading: Instant)
        ensures
            final(self)@.idle_for_nanos == nanos_of(duration_between(reading, old(self)@.last_activity)),
            final(self)@.mode == mode_after_tick(old(self)@.mode, dragging, final(self)@.idle_for_nanos),
            final(self)@.last_activity == old(self)@.last_activity,
            dragging ==> final(self)@.mode == PetMode::Dragging,
            !dragging && final(self)@.idle_for_nanos > 300_000_000_000 ==> final(self)@.mode == PetMode::Sleeping,
            !dragging && 45_000_000_000 < final(self)@.idle_for_nanos <= 300_000_000_000 ==> final(self)@.mode == PetMode::Wandering,
            !dragging && final(self)@.idle_for_nanos <= 45_000_000_000 && old(self)@.mode != PetMode::Dragging ==> final(self)@.mode
                == PetMode::Idle,
            !dragging && final(self)@.idle_for_nanos <= 45_000_000_000 && old(self)@.mode == PetMode::Dragging ==> final(self)@.mode
                == PetMode::Dragging,
    {
        let idle = saturating_duration_since(&reading, &self.last_activity);
        let idle_nanos = duration_nanos(&idle);
        self.advance_mode(dragging, idle_nanos);
    }

    /// One frame of behaviour: `tick_at` with a fresh reading of the clock.
    /// Whatever that reading is, the idle time runs from the last activity
    /// to it, and the new mode is the one that `mode_after_tick` gives for
    /// that idle time.
    pub fn tick(&mut self, dragging: bool)
        ensures
            exists|reading: Instant|
                final(self)@.idle_for_nanos == nanos_of(
                    #[trigger] duration_between(reading, old(self)@.last_activity),
                ),
            final(self)@.mode == mode_after_tick(old(self)@.mode, dragging, final(self)@.idle_for_nanos),
            final(self)@.last_activity == old(self)@.last_activity,
            dragging ==> final(self)@.mode == PetMode::Dragging,
            !dragging && final(self)@.idle_for_nanos > 300_000_000_000 ==> final(self)@.mode == PetMode::Sleeping,
            !dragging && 45_000_000_000 < final(self)@.idle_for_nanos <= 300_000_000_000 ==> final(self)@.mode == PetMode::Wandering,
            !dragging && final(self)@.idle_for_nanos <= 45_000_000_000 && old(self)@.mode != PetMode::Dragging ==> final(self)@.mode
                == PetMode::Idle,
            !dragging && final(self)@.idle_for_nanos <= 45_000_000_000 && old(self)@.mode == PetMode::Dragging ==> final(self)@.mode
                == PetMode::Dragging,
    {
        let reading = now();
        self.tick_at(dragging, reading);
        assert(self@.idle_for_nanos == nanos_of(duration_between(reading, old(self)@.last_activity)));
    }

    /// Moves to the mode that `dragging` and an idle time of `idle_nanos`
    /// nanoseconds call for, and records that idle time.
    pub fn advance_mode(&mut self, dragging: bool, idle_nanos: u128)
        ensures
            final(self)@.idle_for_nanos == idle_nanos,
            final(self)@.mode == mode_after_tick(old(self)@.mode, dragging, idle_nanos as int),
            final(self)@.last_activity == old(self)@.last_activity,
            dragging ==> final(self)@.mode == PetMode::Dragging,
            !dragging && idle_nanos > 300_000_000_000 ==> final(self)@.mode == PetMode::Sleeping,
            !dragging && 45_000_000_000 < idle_nanos <= 300_000_000_000 ==> final(self)@.mode == PetMode::Wandering,
            !dragging && idle_nanos <= 45_000_000_000 && old(self)@.mode != PetMode::Dragging ==> final(self)@.mode
                == PetMode::Idle,
            !dragging && idle_nanos <= 45_000_000_000 && old(self)@.mode == PetMode::Dragging ==> final(self)@.mode
                == PetMode::Dragging,
    {
        self.idle_for_nanos = idle_nanos;
        if dragging {
            self.mode = PetMode::Dragging;
        } else if idle_nanos > SLEEP_AFTER_NANOS {
            self.mode = PetMode::Sleeping;
        } else if idle_nanos > WANDER_AFTER_NANOS {
            self.mode = PetMode::Wandering;
        } else if self.mode != PetMode::Dragging {
            self.mode = PetMode::Idle;
        }
    }

    /// How long to wait before the next frame.
    pub fn next_frame_delay(&self) -> (delay: Duration)
        ensures
            nanos_of(delay) == frame_delay_millis(self@.mode) * 1_000_000,
            self@.mode == PetMode::Dragging ==> nanos_of(delay) == 16_000_000,
            self@.mode == PetMode::Wandering ==> nanos_of(delay) == 33_000_000,
            self@.mode == PetMode::Idle ==> nanos_of(delay) == 90_000_000,
            self@.mode == PetMode::Sleeping ==> nanos_of(delay) == 250_000_000,
    {
        let ms: u64 = match self.mode {
            PetMode::Dragging => 16,
            PetMode::Wandering => 33,
            PetMode::Idle => 90,
            PetMode::Sleeping => 250,
        };
        duration_from_millis(ms)
    }
}

/// How deep the pet has sunk into idleness: not at all, wandering, or asleep.
pub open spec fn idleness(mode: PetMode) -> int {
    match mode {
        PetMode::Idle => 0,
        PetMode::Dragging => 0,
        PetMode::Wandering => 1,
        PetMode::Sleeping => 2,
    }
}

/// Showing activity twice comes to the same as showing it once.
pub proof fn lemma_activity_idempotent(mode: PetMode)
    ensures
        mode_after_activity(mode_after_activity(mode)) == mode_after_activity(mode),
{
}

/// A pet that nothing holds wanders off after 45 s without user activity and
/// falls asleep after 300 s, whatever it was doing before; a pet that the
/// pointer holds is dragged, however long the user was idle.
pub proof fn lemma_absence_sends_pet_off(mode: PetMode, idle_nanos: int)
    ensures
        mode_after_tick(mode, true, idle_nanos) == PetMode::Dragging,
        idle_nanos > SLEEP_AFTER_NANOS ==> mode_after_tick(mode, false, idle_nanos) == PetMode::Sleeping,
        WANDER_AFTER_NANOS < idle_nanos <= SLEEP_AFTER_NANOS ==> mode_after_tick(mode, false, idle_nanos)
            == PetMode::Wandering,
{
}

/// With the pointer off the pet, a longer absence never makes the pet
/// livelier.
pub proof fn lemma_idleness_deepens(mode: PetMode, shorter: int, longer: int)
    requires
        shorter <= longer,
    ensures
        idleness(mode_after_tick(mode, false, shorter)) <= idleness(mode_after_tick(mode, false, longer)),
{
}

/// Activity followed, less than 45 s later, by a frame in which the pointer
/// does not hold the pet leaves the pet resting or held: it neither wanders
/// nor sleeps.
pub proof fn lemma_recent_activity_keeps_pet_near(mode: PetMode, at: Instant, reading: Instant)
    requires
        nanos_of(duration_between(reading, at)) <= WANDER_AFTER_NANOS,
    ensures
        ({
            let after = mode_after_tick(mode_after_activity(mode), false, nanos_of(duration_between(reading, at)) as int);
            after == PetMode::Idle || after == PetMode::Dragging
        }),
{
}

/// The livelier the pet, the sooner it is drawn again.
pub proof fn lemma_frame_delay_order()
    ensures
        frame_delay_millis(PetMode::Dragging) < frame_delay_millis(PetMode::Wandering),
        frame_delay_millis(PetMode::Wandering) < frame_delay_millis(PetMode::Idle),
        frame_delay_millis(PetMode::Idle) < frame_delay_millis(PetMode::Sleeping),
{
}

} // verus!
