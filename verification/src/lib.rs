//! Behaviour core of a desktop pet that looks like a faint LCD pressure mark.

pub mod activity;
pub mod clock;
pub mod pet;
pub mod outline;
pub mod swapchain;
pub mod frame;
pub mod control;
