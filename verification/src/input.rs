//! The player's firing intent, as it follows the fire trigger.

use vstd::prelude::*;

verus! {

/// What the emitter is asked to do.
#[derive(Copy, Clone, Debug, PartialEq, Eq, Structural)]
pub enum FiringMode {
    /// Not firing.
    Idle,
    /// Firing continuously, at the emitter's rate.
    Firing,
    /// Firing a burst. No emitter fires bursts yet: in this mode none fires.
    Burst,
}

impl Default for FiringMode {
    fn default() -> (mode: FiringMode)
        ensures
            mode == FiringMode::Idle,
    {
        FiringMode::Idle
    }
}

impl FiringMode {
    /// Whether an emitter in this mode charges and fires on a tick: only one
    /// that fires continuously does.
    pub fn fires(&self) -> (firing: bool)
        ensures
            firing <==> *self == FiringMode::Firing,
    {
        match self {
            FiringMode::Firing => true,
            FiringMode::Idle => false,
            FiringMode::Burst => false,
        }
    }
}

/// Where a button stands within one frame.
#[derive(Copy, Clone, Debug, PartialEq, Eq, Structural)]
pub enum PressedStatus {
    NotPressed,
    JustPressed,
    Held,
    JustReleased,
}

impl Default for PressedStatus {
    fn default() -> (status: PressedStatus)
        ensures
            status == PressedStatus::NotPressed,
    {
        PressedStatus::NotPressed
    }
}

/// The status of a trigger after one frame of input. `pressed`,
/// `just_pressed` and `just_released` say whether the trigger's button is
/// down, went down in this frame, and came up in this frame.
///
/// A release outweighs a press, and a press outweighs being held down. A
/// frame in which the button is up and nothing happened leaves the status as
/// it was.
pub fn trigger_status(
    previous: PressedStatus,
    pressed: bool,
    just_pressed: bool,
    just_released: bool,
) -> (status: PressedStatus)
    ensures
        just_released ==> status == PressedStatus::JustReleased,
        !just_released && just_pressed ==> status == PressedStatus::JustPressed,
        !just_released && !just_pressed && pressed ==> status == PressedStatus::Held,
        !just_released && !just_pressed && !pressed ==> status == previous,
{
    let mut status = previous;
    if pressed {
        status = PressedStatus::Held;
    }
    if just_pressed {
        status = PressedStatus::JustPressed;
    }
    if just_released {
        status = PressedStatus::JustReleased;
    }
    status
}

/// The firing mode after one frame, given where the fire trigger stands:
/// pressing it starts continuous fire, releasing it or leaving it alone ends
/// all fire, and holding it down keeps the mode as it was.
pub fn player_firing_sync(
    fire_trigger: PressedStatus,
    firing_mode: FiringMode,
) -> (next: FiringMode)
    ensures
        fire_trigger == PressedStatus::JustPressed ==> next == FiringMode::Firing,
        fire_trigger == PressedStatus::Held ==> next == firing_mode,
        fire_trigger == PressedStatus::NotPressed || fire_trigger == PressedStatus::JustReleased
            ==> next == FiringMode::Idle,
{
    match fire_trigger {
        PressedStatus::NotPressed => FiringMode::Idle,
        PressedStatus::JustPressed => FiringMode::Firing,
        PressedStatus::JustReleased => FiringMode::Idle,
        PressedStatus::Held => firing_mode,
    }
}

} // verus!
