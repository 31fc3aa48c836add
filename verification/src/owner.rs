//! The owner thread: the one place from which the device is touched.
//!
//! The thread itself only waits: for an answer of the driver, for the next
//! command, for the constructing thread to take note of the outcome. What it
//! does between two waits is decided here. [`OwnerThread::step`] takes what
//! the thread has just seen and says what to do next, so the loop around it
//! needs no judgement of its own.

use crate::command::JoystickThreadCommand;
use crate::error::Error;
use crate::vjoy::{GatewayCall, Stat};
use vstd::prelude::*;

verus! {

/// The three stretches of the owner thread's life.
#[derive(Debug, Copy, Clone, PartialEq, Eq, Structural)]
pub enum OwnerState {
    /// The device is being taken; no command has been looked at.
    Initializing,
    /// The device is held and commands are applied as they come.
    Running,
    /// No further command is taken.
    Terminated,
}

/// What the owner thread is waiting for.
#[derive(Debug, Copy, Clone, PartialEq, Eq, Structural)]
pub enum OwnerPhase {
    /// For the thread to start.
    Starting,
    /// For the driver to say who owns the device.
    QueryingStatus,
    /// For the driver to say whether the device could be taken.
    Acquiring,
    /// For the driver to finish the reset.
    Resetting,
    /// For the constructing thread to be told that the device is held.
    AnnouncingSuccess,
    /// For the constructing thread to be told why the device is not held.
    AnnouncingFailure(Error),
    /// For the next command.
    Listening,
    /// For the driver to finish setting a button.
    Applying,
    /// For the driver to take the device back.
    Relinquishing,
    /// For nothing.
    Terminated,
}

/// What the owner thread has just seen.
#[derive(Debug, Copy, Clone, PartialEq, Eq)]
pub enum OwnerEvent {
    /// The thread has started.
    Started,
    /// The driver's answer to [`GatewayCall::GetStatus`].
    Status(Stat),
    /// The driver's answer to a call that succeeds or fails.
    Flag(bool),
    /// The outcome of the start is written down and the constructing thread
    /// is woken.
    Announced,
    /// A command has arrived.
    Received(JoystickThreadCommand),
    /// Every sender is gone and the channel is empty.
    Disconnected,
    /// [`GatewayCall::Relinquish`] has returned.
    Relinquished,
}

/// What the owner thread is to do next.
#[derive(Debug, Copy, Clone, PartialEq, Eq)]
pub enum OwnerAction {
    /// Make this call and come back with the driver's answer.
    Call(GatewayCall),
    /// Write this outcome down for the constructing thread, wake it, and come
    /// back with [`OwnerEvent::Announced`].
    Announce(Result<(), Error>),
    /// Wait for the next command and come back with it.
    Receive,
    /// Leave the thread.
    Exit,
    /// Give up: the thread saw what cannot happen while the joystick is in
    /// use. The device is left as it is.
    Abort,
}

/// The owner thread between two waits.
#[derive(Debug, Copy, Clone, PartialEq, Eq, Structural)]
pub struct OwnerThread {
    /// The device that this thread owns.
    pub device: u32,
    /// What the thread is waiting for.
    pub phase: OwnerPhase,
}

impl OwnerPhase {
    /// The stretch of the thread's life that a phase belongs to.
    pub open spec fn state(self) -> OwnerState {
        match self {
            OwnerPhase::Listening | OwnerPhase::Applying => OwnerState::Running,
            OwnerPhase::Relinquishing | OwnerPhase::Terminated => OwnerState::Terminated,
            _ => OwnerState::Initializing,
        }
    }

    /// Whether this is what the thread comes back with when it has done what
    /// it was last told.
    pub open spec fn expects(self, event: OwnerEvent) -> bool {
        match self {
            OwnerPhase::Starting => event is Started,
            OwnerPhase::QueryingStatus => event is Status,
            OwnerPhase::Acquiring | OwnerPhase::Resetting | OwnerPhase::Applying => event is Flag,
            OwnerPhase::AnnouncingSuccess | OwnerPhase::AnnouncingFailure(_) => event is Announced,
            OwnerPhase::Listening => event is Received || event is Disconnected,
            OwnerPhase::Relinquishing => event is Relinquished,
            OwnerPhase::Terminated => false,
        }
    }
}

/// The call by which a command is applied to a device.
pub open spec fn call_for(device: u32, command: JoystickThreadCommand) -> GatewayCall {
    match command {
        JoystickThreadCommand::PressButton(button) => GatewayCall::SetButton {
            pressed: true,
            device,
            button,
        },
        JoystickThreadCommand::ReleaseButton(button) => GatewayCall::SetButton {
            pressed: false,
            device,
            button,
        },
        JoystickThreadCommand::Terminate => GatewayCall::Relinquish { device },
    }
}

/// Whether `event` is what doing `action` can end in.
pub open spec fn answers(action: OwnerAction, event: OwnerEvent) -> bool {
    match action {
        OwnerAction::Call(GatewayCall::GetStatus { .. }) => event is Status,
        OwnerAction::Call(GatewayCall::Relinquish { .. }) => event is Relinquished,
        OwnerAction::Call(_) => event is Flag,
        OwnerAction::Announce(_) => event is Announced,
        OwnerAction::Receive => event is Received || event is Disconnected,
        OwnerAction::Exit | OwnerAction::Abort => false,
    }
}

/// What the start of the owner thread comes to, given the state that the
/// driver reports for the device and, where the device is free, whether it
/// could be acquired.
pub open spec fn start_outcome(stat: Stat, acquired: bool) -> Result<(), Error> {
    match stat {
        Stat::Own => Ok(()),
        Stat::Free => if acquired {
            Ok(())
        } else {
            Err(Error::CouldNotAcquire(Stat::Free))
        },
        _ => Err(Error::CouldNotAcquire(stat)),
    }
}

/// The calls that the start of the owner thread makes, in order, given the
/// state that the driver reports for the device and, where the device is
/// free, whether it could be acquired.
pub open spec fn start_calls(device: u32, stat: Stat, acquired: bool) -> Seq<GatewayCall> {
    match stat {
        Stat::Own => seq![GatewayCall::GetStatus { device }, GatewayCall::Reset { device }],
        Stat::Free => if acquired {
            seq![
                GatewayCall::GetStatus { device },
                GatewayCall::Acquire { device },
                GatewayCall::Reset { device },
            ]
        } else {
            seq![GatewayCall::GetStatus { device }, GatewayCall::Acquire { device }]
        },
        _ => seq![GatewayCall::GetStatus { device }],
    }
}

impl OwnerThread {
    /// This thread in another phase.
    pub open spec fn at(self, phase: OwnerPhase) -> OwnerThread {
        OwnerThread { device: self.device, phase }
    }

    /// The thread after it has seen `event`, and what it does then.
    ///
    /// A device that is already owned is reset. A free one is acquired and
    /// then reset. Any other is left alone, and so is a free one that could
    /// not be acquired; the state that the driver reported goes into the
    /// error. Whether a reset or a button call succeeded changes nothing.
    /// After the outcome is announced the thread listens if it holds the
    /// device and leaves if it does not. Each command becomes one call;
    /// after the call for `Terminate` the thread leaves. Whatever comes out
    /// of turn, and a channel without senders, ends the thread at once.
    pub open spec fn next(self, event: OwnerEvent) -> (OwnerThread, OwnerAction) {
        let device = self.device;
        match (self.phase, event) {
            (OwnerPhase::Starting, OwnerEvent::Started) => (
                self.at(OwnerPhase::QueryingStatus),
                OwnerAction::Call(GatewayCall::GetStatus { device }),
            ),
            (OwnerPhase::QueryingStatus, OwnerEvent::Status(Stat::Own)) => (
                self.at(OwnerPhase::Resetting),
                OwnerAction::Call(GatewayCall::Reset { device }),
            ),
            (OwnerPhase::QueryingStatus, OwnerEvent::Status(Stat::Free)) => (
                self.at(OwnerPhase::Acquiring),
                OwnerAction::Call(GatewayCall::Acquire { device }),
            ),
            (OwnerPhase::QueryingStatus, OwnerEvent::Status(stat)) => (
                self.at(OwnerPhase::AnnouncingFailure(Error::CouldNotAcquire(stat))),
                OwnerAction::Announce(Err(Error::CouldNotAcquire(stat))),
            ),
            (OwnerPhase::Acquiring, OwnerEvent::Flag(true)) => (
                self.at(OwnerPhase::Resetting),
                OwnerAction::Call(GatewayCall::Reset { device }),
            ),
            (OwnerPhase::Acquiring, OwnerEvent::Flag(false)) => (
                self.at(OwnerPhase::AnnouncingFailure(Error::CouldNotAcquire(Stat::Free))),
                OwnerAction::Announce(Err(Error::CouldNotAcquire(Stat::Free))),
            ),
            (OwnerPhase::Resetting, OwnerEvent::Flag(_)) => (
                self.at(OwnerPhase::AnnouncingSuccess),
                OwnerAction::Announce(Ok(())),
            ),
            (OwnerPhase::AnnouncingSuccess, OwnerEvent::Announced) => (
                self.at(OwnerPhase::Listening),
                OwnerAction::Receive,
            ),
            (OwnerPhase::AnnouncingFailure(_), OwnerEvent::Announced) => (
                self.at(OwnerPhase::Terminated),
                OwnerAction::Exit,
            ),
            (OwnerPhase::Listening, OwnerEvent::Received(JoystickThreadCommand::Terminate)) => (
                self.at(OwnerPhase::Relinquishing),
                OwnerAction::Call(GatewayCall::Relinquish { device }),
            ),
            (OwnerPhase::Listening, OwnerEvent::Received(command)) => (
                self.at(OwnerPhase::Applying),
                OwnerAction::Call(call_for(device, command)),
            ),
            (OwnerPhase::Applying, OwnerEvent::Flag(_)) => (
                self.at(OwnerPhase::Listening),
                OwnerAction::Receive,
            ),
            (OwnerPhase::Relinquishing, OwnerEvent::Relinquished) => (
                self.at(OwnerPhase::Terminated),
                OwnerAction::Exit,
            ),
            (OwnerPhase::Terminated, _) => (self, OwnerAction::Exit),
            _ => (self.at(OwnerPhase::Terminated), OwnerAction::Abort),
        }
    }

    /// The thread after it has seen `events`, one after the other.
    pub open spec fn after(self, events: Seq<OwnerEvent>) -> OwnerThread
        decreases events.len(),
    {
        if events.len() == 0 {
            self
        } else {
            self.after(events.drop_last()).next(events.last()).0
        }
    }

    /// What the thread is waiting for when `events[i]` comes.
    pub open spec fn phase_at(self, events: Seq<OwnerEvent>, i: int) -> OwnerPhase {
        self.after(events.take(i)).phase
    }

    /// What the thread does on seeing `events[i]`, after all that came
    /// before it.
    pub open spec fn action_at(self, events: Seq<OwnerEvent>, i: int) -> OwnerAction {
        self.after(events.take(i)).next(events[i]).1
    }

    /// Whether the loop around the thread did as it was told: it began with
    /// the thread's start, and then came back each time with the answer to
    /// what the thread had asked for last.
    pub open spec fn obeyed(self, events: Seq<OwnerEvent>) -> bool {
        &&& events.len() > 0 ==> events[0] is Started
        &&& forall|i: int|
            1 <= i < events.len() ==> answers(#[trigger] self.action_at(events, i - 1), events[i])
    }

    /// The owner thread of `device`, before it has started.
    pub fn new(device: u32) -> (owner: OwnerThread)
        ensures
            owner == (OwnerThread { device, phase: OwnerPhase::Starting }),
    {
        OwnerThread { device, phase: OwnerPhase::Starting }
    }

    /// The stretch of its life that the thread is in.
    pub fn state(&self) -> (state: OwnerState)
        ensures
            state == self.phase.state(),
    {
        match self.phase {
            OwnerPhase::Listening | OwnerPhase::Applying => OwnerState::Running,
            OwnerPhase::Relinquishing | OwnerPhase::Terminated => OwnerState::Terminated,
            _ => OwnerState::Initializing,
        }
    }

    /// Takes what the thread has just seen and says what it is to do next.
    pub fn step(&mut self, event: OwnerEvent) -> (action: OwnerAction)
        ensures
            (*final(self), action) == old(self).next(event),
    {
        let device: u32 = self.device;
        let (phase, action) = match self.phase {
            OwnerPhase::Starting => match event {
                OwnerEvent::Started => (
                    OwnerPhase::QueryingStatus,
                    OwnerAction::Call(GatewayCall::GetStatus { device }),
                ),
                _ => (OwnerPhase::Terminated, OwnerAction::Abort),
            },
            OwnerPhase::QueryingStatus => match event {
                OwnerEvent::Status(Stat::Own) => (
                    OwnerPhase::Resetting,
                    OwnerAction::Call(GatewayCall::Reset { device }),
                ),
                OwnerEvent::Status(Stat::Free) => (
                    OwnerPhase::Acquiring,
                    OwnerAction::Call(GatewayCall::Acquire { device }),
                ),
                OwnerEvent::Status(stat) => Self::refuse(Error::CouldNotAcquire(stat)),
                _ => (OwnerPhase::Terminated, OwnerAction::Abort),
            },
            OwnerPhase::Acquiring => match event {
                OwnerEvent::Flag(true) => (
                    OwnerPhase::Resetting,
                    OwnerAction::Call(GatewayCall::Reset { device }),
                ),
                OwnerEvent::Flag(false) => Self::refuse(Error::CouldNotAcquire(Stat::Free)),
                _ => (OwnerPhase::Terminated, OwnerAction::Abort),
            },
            OwnerPhase::Resetting => match event {
                OwnerEvent::Flag(_) => (
                    OwnerPhase::AnnouncingSuccess,
                    OwnerAction::Announce(Ok(())),
                ),
                _ => (OwnerPhase::Terminated, OwnerAction::Abort),
            },
            OwnerPhase::AnnouncingSuccess => match event {
                OwnerEvent::Announced => (OwnerPhase::Listening, OwnerAction::Receive),
                _ => (OwnerPhase::Terminated, OwnerAction::Abort),
            },
            OwnerPhase::AnnouncingFailure(_) => match event {
                OwnerEvent::Announced => (OwnerPhase::Terminated, OwnerAction::Exit),
                _ => (OwnerPhase::Terminated, OwnerAction::Abort),
            },
            OwnerPhase::Listening => match event {
                OwnerEvent::Received(command) => Self::apply(device, command),
                _ => (OwnerPhase::Terminated, OwnerAction::Abort),
            },
            OwnerPhase::Applying => match event {
                OwnerEvent::Flag(_) => (OwnerPhase::Listening, OwnerAction::Receive),
                _ => (OwnerPhase::Terminated, OwnerAction::Abort),
            },
            OwnerPhase::Relinquishing => match event {
                OwnerEvent::Relinquished => (OwnerPhase::Terminated, OwnerAction::Exit),
                _ => (OwnerPhase::Terminated, OwnerAction::Abort),
            },
            OwnerPhase::Terminated => (OwnerPhase::Terminated, OwnerAction::Exit),
        };
        self.phase = phase;
        action
    }

    /// The start has failed: the error is announced, then the thread leaves.
    fn refuse(error: Error) -> (turn: (OwnerPhase, OwnerAction))
        ensures
            turn == (OwnerPhase::AnnouncingFailure(error), OwnerAction::Announce(Err(error))),
    {
        (OwnerPhase::AnnouncingFailure(error), OwnerAction::Announce(Err(error)))
    }

    /// A command has arrived while the thread was listening.
    fn apply(device: u32, command: JoystickThreadCommand) -> (turn: (OwnerPhase, OwnerAction))
        ensures
            turn.1 == OwnerAction::Call(call_for(device, command)),
            turn.0 == if command is Terminate {
                OwnerPhase::Relinquishing
            } else {
                OwnerPhase::Applying
            },
    {
        match command {
            JoystickThreadCommand::PressButton(button) => (
                OwnerPhase::Applying,
                OwnerAction::Call(GatewayCall::SetButton { pressed: true, device, button }),
            ),
            JoystickThreadCommand::ReleaseButton(button) => (
                OwnerPhase::Applying,
                OwnerAction::Call(GatewayCall::SetButton { pressed: false, device, button }),
            ),
            JoystickThreadCommand::Terminate => (
                OwnerPhase::Relinquishing,
                OwnerAction::Call(GatewayCall::Relinquish { device }),
            ),
        }
    }
}

} // verus!
