//! Why a joystick could not be made or used.

use crate::vjoy::Stat;
use vstd::prelude::*;

verus! {

/// The ways in which making or using a joystick fails.
#[derive(Debug, Copy, Clone, PartialEq, Eq, Structural)]
pub enum Error {
    /// The driver reports that virtual joysticks are switched off.
    Disabled,
    /// The driver's version is not the one its interface library was built for.
    DriverDoesNotMatch,
    /// The device was not handed to the owner thread; the state is the one
    /// that the driver reported for it.
    CouldNotAcquire(Stat),
    /// A button could not be set.
    ButtonPressError,
}

} // verus!
