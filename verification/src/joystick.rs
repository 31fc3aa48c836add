//! The joystick as its users see it.

use crate::channel::CommandLink;
use crate::command::JoystickThreadCommand;
use crate::config::{VirtualJoystickConfig, MAX_BUTTON_PRESS_DURATION_MS};
use crate::error::Error;
use crate::release::{ArmedRelease, ReleaseTimers};
use crate::Button;
use std::sync::mpsc::Sender;
use vstd::prelude::*;

verus! {

/// What a joystick has done so far and what it holds.
pub struct JoystickView {
    /// The device that the joystick stands for.
    pub device: u32,
    /// How long a button stays down, in milliseconds.
    pub delay_ms: i64,
    /// The commands that the joystick itself has handed to the channel,
    /// oldest first, whether the channel took them or not. The releases are
    /// not among them: the timers send those.
    pub offered: Seq<JoystickThreadCommand>,
    /// Those among the commands handed to the channel that it took, oldest
    /// first.
    pub sent: Seq<JoystickThreadCommand>,
    /// The release timers that the joystick holds, by button.
    pub releases: Map<Button, ArmedRelease>,
    /// Whether the joystick has been closed.
    pub closed: bool,
}

impl JoystickView {
    /// What holds of every joystick. Each timer it holds lets go the button
    /// that it is kept under, belongs to a press of that button that is
    /// already on the channel, and was asked for the configured delay. The
    /// command to terminate is sent by closing only, and nothing is sent
    /// after it.
    pub open spec fn wf(self) -> bool {
        &&& -MAX_BUTTON_PRESS_DURATION_MS <= self.delay_ms <= MAX_BUTTON_PRESS_DURATION_MS
        &&& forall|button: Button| #[trigger]
            self.releases.contains_key(button) ==> {
                &&& self.releases[button].button == button
                &&& self.releases[button].press < self.sent.len()
                &&& self.sent[self.releases[button].press as int]
                    == JoystickThreadCommand::PressButton(button)
                &&& self.releases[button].delay_ms == self.delay_ms
            }
        &&& forall|i: int|
            0 <= i < self.sent.len() && #[trigger] self.sent[i] == JoystickThreadCommand::Terminate
                ==> self.closed && i == self.sent.len() - 1
    }

    /// A joystick that has done nothing yet.
    pub open spec fn fresh(device: u32, delay_ms: i64) -> JoystickView {
        JoystickView {
            device,
            delay_ms,
            offered: Seq::empty(),
            sent: Seq::empty(),
            releases: Map::empty(),
            closed: false,
        }
    }

    /// The joystick after a press of `button` that the channel took: the
    /// press is on the channel, and the button's timer is a new one that
    /// belongs to this press.
    pub open spec fn pressed(self, button: Button) -> JoystickView {
        JoystickView {
            offered: self.offered.push(JoystickThreadCommand::PressButton(button)),
            sent: self.sent.push(JoystickThreadCommand::PressButton(button)),
            releases: self.releases.insert(
                button,
                ArmedRelease { button, press: self.sent.len(), delay_ms: self.delay_ms },
            ),
            ..self
        }
    }

    /// The joystick after a command that the channel did not take: the
    /// command was handed over, and that is all.
    pub open spec fn refused(self, command: JoystickThreadCommand) -> JoystickView {
        JoystickView { offered: self.offered.push(command), ..self }
    }

    /// The joystick after it was closed: the command to terminate was handed
    /// to the channel, and `taken` tells whether the channel took it.
    pub open spec fn shut(self, taken: bool) -> JoystickView {
        JoystickView {
            offered: self.offered.push(JoystickThreadCommand::Terminate),
            sent: if taken {
                self.sent.push(JoystickThreadCommand::Terminate)
            } else {
                self.sent
            },
            closed: true,
            ..self
        }
    }
}

/// The delay that a joystick is made with: the configured one, or the default
/// where nothing is configured.
pub open spec fn resolved_delay_ms(config: Option<VirtualJoystickConfig>) -> i64 {
    match config {
        Some(config) => config.button_press_duration_ms,
        None => crate::config::DEFAULT_BUTTON_PRESS_DURATION_MS,
    }
}

/// The handle by which buttons of a virtual device are pressed.
///
/// The handle owns no device. It sends commands to the thread that does, and
/// keeps the timers that send the releases.
pub struct VirtualJoystick {
    device: u32,
    button_release_timers: ReleaseTimers,
    config: VirtualJoystickConfig,
    tx_command: CommandLink,
    closed: bool,
}

impl View for VirtualJoystick {
    type V = JoystickView;

    closed spec fn view(&self) -> JoystickView {
        JoystickView {
            device: self.device,
            delay_ms: self.config.button_press_duration_ms,
            offered: self.tx_command.offered(),
            sent: self.tx_command@,
            releases: self.button_release_timers@,
            closed: self.closed,
        }
    }
}

impl VirtualJoystick {
    /// Makes the handle once the owner thread has said how its start went.
    ///
    /// `started` is what the owner thread announced and `tx_command` the
    /// sending end of its channel. If the owner holds the device, the handle
    /// is made, with no timer and nothing sent. If it does not, its error is
    /// passed on and nothing is made.
    pub fn new(
        device: u32,
        config: Option<VirtualJoystickConfig>,
        tx_command: Sender<JoystickThreadCommand>,
        started: Result<(), Error>,
    ) -> (made: Result<VirtualJoystick, Error>)
        requires
            config matches Some(config) ==> config.schedulable(),
        ensures
            match started {
                Ok(()) => made is Ok && made->Ok_0@ == JoystickView::fresh(
                    device,
                    resolved_delay_ms(config),
                ),
                Err(error) => made == Err::<VirtualJoystick, Error>(error),
            },
            made matches Ok(joystick) ==> joystick@.wf(),
    {
        match started {
            Ok(()) => {
                let config = match config {
                    Some(config) => config,
                    None => VirtualJoystickConfig::default(),
                };
                Ok(
                    VirtualJoystick {
                        device,
                        button_release_timers: ReleaseTimers::new(),
                        config,
                        tx_command: CommandLink::new(tx_command),
                        closed: false,
                    },
                )
            },
            Err(error) => Err(error),
        }
    }

    /// The device that the joystick stands for.
    pub fn device(&self) -> (device: u32)
        ensures
            device == self@.device,
    {
        self.device
    }

    /// The settings that the joystick was made with.
    pub fn config(&self) -> (config: VirtualJoystickConfig)
        ensures
            config.button_press_duration_ms == self@.delay_ms,
    {
        self.config
    }

    /// Whether the joystick has been closed.
    pub fn is_closed(&self) -> (closed: bool)
        ensures
            closed == self@.closed,
    {
        self.closed
    }

    /// Whether the joystick holds a release timer for `btn`. It does from
    /// the first press of the button that the channel took, also when the
    /// timer has long done its work.
    pub fn holds_release_timer(&self, btn: Button) -> (held: bool)
        ensures
            held == self@.releases.contains_key(btn),
    {
        self.button_release_timers.holds(btn)
    }

    /// Presses `btn` and arms the timer that will release it.
    ///
    /// The press is handed to the channel first, once. If the channel takes
    /// it, a timer is armed that sends the release after the configured
    /// delay, and that timer takes the place of the one that the button had:
    /// the earlier release, if still to come, is called off. If the channel
    /// does not take it, which is so when the owner thread is gone, no timer
    /// is armed and the table stays as it is. The answer is whether the
    /// channel took the press. A closed joystick hands nothing over, answers
    /// no, and stays as it is.
    pub fn press_button(&mut self, btn: Button) -> (sent: bool)
        requires
            old(self)@.wf(),
        ensures
            old(self)@.closed ==> !sent && final(self)@ == old(self)@,
            !old(self)@.closed && sent ==> final(self)@ == old(self)@.pressed(btn),
            !old(self)@.closed && !sent ==> final(self)@ == old(self)@.refused(
                JoystickThreadCommand::PressButton(btn),
            ),
            final(self)@.wf(),
    {
        if self.closed {
            return false;
        }
        let ghost press = self.tx_command@.len();
        if !self.tx_command.send(JoystickThreadCommand::PressButton(btn)) {
            return false;
        }
        let link = self.tx_command.fork();
        self.button_release_timers.arm(
            btn,
            self.config.button_press_duration_ms,
            link,
            Ghost(press),
        );
        true
    }

    /// Closes the joystick: tells the owner thread to give the device back
    /// and stop.
    ///
    /// The command to terminate is handed to the channel, once, and it is the
    /// last that the joystick sends. The answer is whether the channel took
    /// it. Closing a closed joystick does nothing.
    pub fn close(&mut self) -> (sent: bool)
        requires
            old(self)@.wf(),
        ensures
            old(self)@.closed ==> !sent && final(self)@ == old(self)@,
            !old(self)@.closed ==> final(self)@ == old(self)@.shut(sent),
            final(self)@.wf(),
    {
        if self.closed {
            return false;
        }
        self.closed = true;
        self.tx_command.send(JoystickThreadCommand::Terminate)
    }
}

} // verus!
