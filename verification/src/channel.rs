//! The sending end of the command channel.

use crate::command::JoystickThreadCommand;
use std::sync::mpsc::Sender;
use vstd::prelude::*;

verus! {

/// `std::sync::mpsc::Sender`, taken as it is: nothing is known of what is
/// inside.
#[verifier::external_type_specification]
#[verifier::external_body]
#[verifier::reject_recursive_types(T)]
pub struct ExSender<T>(Sender<T>);

/// `std::sync::mpsc::Sender::send`: hands the command to the channel without
/// waiting, and tells whether the channel took it. It does not take it once
/// the receiving end is gone. Nothing is claimed of the answer.
#[verifier::external_body]
fn send_command(tx: &Sender<JoystickThreadCommand>, command: JoystickThreadCommand) -> (taken:
    bool) {
    tx.send(command).is_ok()
}

/// `Clone::clone` of `std::sync::mpsc::Sender`: one more sending end of the
/// same channel. Nothing is claimed of the copy.
#[verifier::external_body]
fn clone_sender(tx: &Sender<JoystickThreadCommand>) -> (copy: Sender<JoystickThreadCommand>) {
    tx.clone()
}

/// One sending end of the command channel, with the record of what went
/// through it.
///
/// The channel is shared: the joystick holds one end and every release timer
/// holds another. Each end knows only what it was given to send itself. The
/// record has two parts: every command that was handed to the channel through
/// this end, and those among them that the channel took, which are the view.
pub struct CommandLink {
    tx: Sender<JoystickThreadCommand>,
    offered: Ghost<Seq<JoystickThreadCommand>>,
    sent: Ghost<Seq<JoystickThreadCommand>>,
}

impl View for CommandLink {
    type V = Seq<JoystickThreadCommand>;

    /// The commands that the channel took from this end, oldest first.
    closed spec fn view(&self) -> Seq<JoystickThreadCommand> {
        self.sent@
    }
}

impl CommandLink {
    /// The commands that were handed to the channel through this end, oldest
    /// first, whether the channel took them or not.
    pub closed spec fn offered(&self) -> Seq<JoystickThreadCommand> {
        self.offered@
    }

    /// Wraps a sending end through which nothing has been sent yet.
    pub fn new(tx: Sender<JoystickThreadCommand>) -> (link: CommandLink)
        ensures
            link@ == Seq::<JoystickThreadCommand>::empty(),
            link.offered() == Seq::<JoystickThreadCommand>::empty(),
    {
        CommandLink { tx, offered: Ghost(Seq::empty()), sent: Ghost(Seq::empty()) }
    }

    /// Hands `command` to the channel, once, and tells whether the channel
    /// took it. Sending never waits. A command that the channel did not take
    /// is lost.
    pub fn send(&mut self, command: JoystickThreadCommand) -> (taken: bool)
        ensures
            final(self).offered() == old(self).offered().push(command),
            taken ==> final(self)@ == old(self)@.push(command),
            !taken ==> final(self)@ == old(self)@,
    {
        let taken = send_command(&self.tx, command);
        self.offered = Ghost(self.offered@.push(command));
        if taken {
            self.sent = Ghost(self.sent@.push(command));
        }
        taken
    }

    /// Another end of the same channel, through which nothing has been sent
    /// yet.
    pub fn fork(&self) -> (link: CommandLink)
        ensures
            link@ == Seq::<JoystickThreadCommand>::empty(),
            link.offered() == Seq::<JoystickThreadCommand>::empty(),
    {
        CommandLink {
            tx: clone_sender(&self.tx),
            offered: Ghost(Seq::empty()),
            sent: Ghost(Seq::empty()),
        }
    }
}

} // verus!
