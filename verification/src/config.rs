//! What can be chosen when a joystick is made.

use vstd::prelude::*;

verus! {

/// How long a button stays down when nothing else is configured.
pub const DEFAULT_BUTTON_PRESS_DURATION_MS: i64 = 250;

/// The longest delay, in either direction, that the release timer is asked
/// for. The timer adds the delay to the current date, and the calendar it
/// counts in ends in the year 262142; this many milliseconds are some
/// 126,000 years.
pub const MAX_BUTTON_PRESS_DURATION_MS: i64 = 4_000_000_000_000_000;

/// The settings of one joystick. They are fixed when it is made.
#[derive(Debug, Copy, Clone, PartialEq, Eq, Structural)]
pub struct VirtualJoystickConfig {
    /// How long after a press the button is released again, in
    /// milliseconds. With zero or less the release follows at once.
    pub button_press_duration_ms: i64,
}

impl VirtualJoystickConfig {
    /// Whether the release timer can be asked for this delay.
    pub open spec fn schedulable(self) -> bool {
        -MAX_BUTTON_PRESS_DURATION_MS <= self.button_press_duration_ms
            <= MAX_BUTTON_PRESS_DURATION_MS
    }

    /// Tells whether the release timer can be asked for this delay.
    pub fn is_schedulable(&self) -> (yes: bool)
        ensures
            yes == self.schedulable(),
    {
        -MAX_BUTTON_PRESS_DURATION_MS <= self.button_press_duration_ms
            && self.button_press_duration_ms <= MAX_BUTTON_PRESS_DURATION_MS
    }
}

impl Default for VirtualJoystickConfig {
    fn default() -> (config: Self)
        ensures
            config.button_press_duration_ms == DEFAULT_BUTTON_PRESS_DURATION_MS,
            config.schedulable(),
    {
        VirtualJoystickConfig { button_press_duration_ms: DEFAULT_BUTTON_PRESS_DURATION_MS }
    }
}

} // verus!
