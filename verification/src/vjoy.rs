//! The vocabulary of the device driver: the ownership states it reports,
//! the operations it offers and the answers it gives.

use crate::Button;
use vstd::prelude::*;

verus! {

/// Who owns a virtual device, as the driver reports it.
#[derive(Debug, Copy, Clone, PartialEq, Eq, Structural)]
pub enum Stat {
    /// The device is owned by this application.
    Own,
    /// The device is owned by nobody.
    Free,
    /// The device is owned by another application and cannot be acquired.
    Busy,
    /// The device does not exist, or the driver is down.
    Missing,
    /// The driver could not tell.
    Unknown,
}

/// The ownership state that the driver's numeric status code stands for.
/// The driver numbers its states from zero in the order of [`Stat`]; any
/// other number tells nothing.
pub open spec fn stat_of_code(code: int) -> Stat {
    if code == 0 {
        Stat::Own
    } else if code == 1 {
        Stat::Free
    } else if code == 2 {
        Stat::Busy
    } else if code == 3 {
        Stat::Missing
    } else {
        Stat::Unknown
    }
}

impl Stat {
    /// Decodes the status code that the driver returned.
    pub fn from_code(code: i32) -> (stat: Stat)
        ensures
            stat == stat_of_code(code as int),
    {
        match code {
            0 => Stat::Own,
            1 => Stat::Free,
            2 => Stat::Busy,
            3 => Stat::Missing,
            _ => Stat::Unknown,
        }
    }
}

/// One operation of the device driver, with its arguments.
#[derive(Debug, Copy, Clone, PartialEq, Eq, Structural)]
pub enum GatewayCall {
    /// Are virtual joysticks switched on? Answered with a flag.
    IsFeatureEnabled,
    /// Does the driver's version match its interface library? Answered with
    /// a flag.
    DriverVersionMatches,
    /// Who owns this device? Answered with a [`Stat`].
    GetStatus { device: u32 },
    /// Take the device. Answered with a flag.
    Acquire { device: u32 },
    /// Put every control of the device in its rest position. Answered with a
    /// flag.
    Reset { device: u32 },
    /// Give the device back. Not answered.
    Relinquish { device: u32 },
    /// Press or release one button of the device. Answered with a flag.
    SetButton { pressed: bool, device: u32, button: Button },
}

impl GatewayCall {
    /// The operations that change who owns a device or what state it is in
    /// as a whole.
    pub open spec fn is_lifecycle(self) -> bool {
        self is Acquire || self is Reset || self is Relinquish
    }

    /// Whether the call is about `device`, or about no device at all.
    pub open spec fn names(self, device: u32) -> bool {
        match self {
            GatewayCall::IsFeatureEnabled | GatewayCall::DriverVersionMatches => true,
            GatewayCall::GetStatus { device: named }
            | GatewayCall::Acquire { device: named }
            | GatewayCall::Reset { device: named }
            | GatewayCall::Relinquish { device: named }
            | GatewayCall::SetButton { device: named, .. } => named == device,
        }
    }
}

/// Whether `button` of `device` is down once the driver has carried out
/// `calls`, oldest first, on a device whose buttons were all up. A button is
/// where the last call that set it has put it, and a reset of its device
/// lets it go.
pub open spec fn button_is_down(calls: Seq<GatewayCall>, device: u32, button: Button) -> bool
    decreases calls.len(),
{
    if calls.len() == 0 {
        false
    } else {
        let before = button_is_down(calls.drop_last(), device, button);
        match calls.last() {
            GatewayCall::SetButton { pressed, device: set_device, button: set_button } => {
                if set_device == device && set_button == button {
                    pressed
                } else {
                    before
                }
            },
            GatewayCall::Reset { device: reset_device } => {
                if reset_device == device {
                    false
                } else {
                    before
                }
            },
            _ => before,
        }
    }
}

/// Replays a record of driver calls, oldest first, and tells whether `button`
/// of `device` is down at its end.
pub fn is_button_down(calls: &[GatewayCall], device: u32, button: Button) -> (down: bool)
    ensures
        down == button_is_down(calls@, device, button),
{
    let mut down = false;
    let mut i: usize = 0;
    while i < calls.len()
        invariant
            i <= calls.len(),
            down == button_is_down(calls@.take(i as int), device, button),
        decreases calls.len() - i,
    {
        match calls[i] {
            GatewayCall::SetButton { pressed, device: set_device, button: set_button } => {
                if set_device == device && set_button == button {
                    down = pressed;
                }
            },
            GatewayCall::Reset { device: reset_device } => {
                if reset_device == device {
                    down = false;
                }
            },
            _ => {},
        }
        proof {
            assert(calls@.take(i + 1).drop_last() == calls@.take(i as int));
            assert(calls@.take(i + 1).last() == calls@[i as int]);
        }
        i += 1;
    }
    proof {
        assert(calls@.take(calls.len() as int) == calls@);
    }
    down
}

} // verus!
