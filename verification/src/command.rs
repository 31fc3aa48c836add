//! The messages that travel to the owner thread.

use crate::Button;
use vstd::prelude::*;

verus! {

/// One message on the command channel. The owner thread takes them in the
/// order in which they were sent.
#[derive(Debug, Copy, Clone, PartialEq, Eq, Structural)]
pub enum JoystickThreadCommand {
    /// Hold the button down.
    PressButton(Button),
    /// Let the button go.
    ReleaseButton(Button),
    /// Give the device back and stop.
    Terminate,
}

} // verus!
