//! The timers that let pressed buttons go.

use crate::channel::CommandLink;
use crate::command::JoystickThreadCommand;
use crate::config::MAX_BUTTON_PRESS_DURATION_MS;
use crate::Button;
use std::collections::HashMap;
use timer::{Guard, Timer};
use vstd::prelude::*;

verus! {

broadcast use vstd::std_specs::hash::group_hash_axioms;

/// `timer::Timer`, taken as it is: nothing is known of what is inside.
#[verifier::external_type_specification]
#[verifier::external_body]
pub struct ExTimer(Timer);

/// `timer::Guard`, taken as it is: nothing is known of what is inside.
#[verifier::external_type_specification]
#[verifier::external_body]
pub struct ExGuard(Guard);

/// `timer::Timer::new`: a timer with nothing scheduled. It starts the
/// timer's own threads, which live until the timer is dropped, and panics
/// only where the system lets it start none. Nothing is claimed of the
/// timer.
#[verifier::external_body]
fn start_timer() -> (timer: Timer) {
    Timer::new()
}

/// `timer::Timer::schedule_with_delay`, with the delay made by
/// `chrono::Duration::milliseconds` and with a callback that calls
/// [`release_button`] on `link` for `button`. Nothing is claimed of the guard
/// that comes back, nor of when the callback runs. All that is claimed is
/// that the call returns for a delay within the bound.
///
/// By its documentation the timer runs the callback once, never before the
/// delay has passed and as soon as it can where the delay is zero or less,
/// unless the guard is dropped first.
///
/// The timer adds the delay to the current date and panics where the sum is
/// not a date of its calendar, which ends in the year 262142. The bound keeps
/// the sum inside the calendar as long as the clock reads a year between 1970
/// and 130000.
#[verifier::external_body]
fn schedule_release(timer: &Timer, delay_ms: i64, mut link: CommandLink, button: Button) -> (guard:
    Guard)
    requires
        -MAX_BUTTON_PRESS_DURATION_MS <= delay_ms <= MAX_BUTTON_PRESS_DURATION_MS,
{
    timer.schedule_with_delay(
        chrono::Duration::milliseconds(delay_ms),
        move || {
            release_button(&mut link, button);
        },
    )
}

/// What a release timer does when its time has come: it hands the command
/// that lets `button` go to the channel, once, and tells whether the channel
/// took it. By then the joystick may be closed and the owner thread gone; the
/// command is lost then, and that is no fault.
pub fn release_button(link: &mut CommandLink, button: Button) -> (taken: bool)
    ensures
        final(link).offered() == old(link).offered().push(
            JoystickThreadCommand::ReleaseButton(button),
        ),
        taken ==> final(link)@ == old(link)@.push(JoystickThreadCommand::ReleaseButton(button)),
        !taken ==> final(link)@ == old(link)@,
{
    link.send(JoystickThreadCommand::ReleaseButton(button))
}

/// What is known of a release timer.
pub struct ArmedRelease {
    /// The button that the timer lets go.
    pub button: Button,
    /// How many commands the joystick had sent before the press that this
    /// timer belongs to.
    pub press: nat,
    /// The delay that the timer was asked for, in milliseconds.
    pub delay_ms: i64,
}

/// The table of release timers: for each button at most one, the one that
/// was armed last.
///
/// A timer that has done its work stays in the table until the button is
/// pressed again. A timer that leaves the table is dropped, and so called
/// off.
pub struct ReleaseTimers {
    timer: Timer,
    guards: HashMap<Button, Guard>,
    armed: Ghost<Map<Button, ArmedRelease>>,
}

impl View for ReleaseTimers {
    type V = Map<Button, ArmedRelease>;

    /// For each button that has a timer in the table, what is known of that
    /// timer.
    closed spec fn view(&self) -> Map<Button, ArmedRelease> {
        Map::new(
            |button: Button| self.guards@.contains_key(button),
            |button: Button| self.armed@[button],
        )
    }
}

impl ReleaseTimers {
    /// An empty table, with a timer of its own.
    pub fn new() -> (timers: ReleaseTimers)
        ensures
            timers@ == Map::<Button, ArmedRelease>::empty(),
    {
        let timers = ReleaseTimers {
            timer: start_timer(),
            guards: HashMap::new(),
            armed: Ghost(Map::empty()),
        };
        assert(timers@ =~= Map::<Button, ArmedRelease>::empty());
        timers
    }

    /// Whether the table holds a timer for `button`.
    pub fn holds(&self, button: Button) -> (held: bool)
        ensures
            held == self@.contains_key(button),
    {
        self.guards.contains_key(&button)
    }

    /// Arms a timer that will send the release of `button` through `link`
    /// after `delay_ms` milliseconds, and puts it in the table in place of
    /// the timer that the button had before, which is thereby called off.
    pub(crate) fn arm(
        &mut self,
        button: Button,
        delay_ms: i64,
        link: CommandLink,
        press: Ghost<nat>,
    )
        requires
            -MAX_BUTTON_PRESS_DURATION_MS <= delay_ms <= MAX_BUTTON_PRESS_DURATION_MS,
        ensures
            final(self)@ == old(self)@.insert(
                button,
                ArmedRelease { button, press: press@, delay_ms },
            ),
    {
        let ghost armed = ArmedRelease { button, press: press@, delay_ms };
        let guard = schedule_release(&self.timer, delay_ms, link, button);
        self.guards.insert(button, guard);
        self.armed = Ghost(self.armed@.insert(button, armed));
        assert(self@ =~= old(self)@.insert(button, armed));
    }
}

} // verus!
