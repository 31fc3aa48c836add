//! What the constructing thread does before there is an owner thread.
//!
//! Two questions go to the driver, one after the other, and the first
//! answer of no ends the construction. Only after two answers of yes is the
//! owner thread started, so a construction that is refused here has touched
//! no device.

use crate::error::Error;
use crate::vjoy::GatewayCall;
use vstd::prelude::*;

verus! {

/// What the constructing thread is to do next.
#[derive(Debug, Copy, Clone, PartialEq, Eq)]
pub enum Preflight {
    /// Make this call and come back with the driver's answer.
    Ask(GatewayCall),
    /// Start the owner thread and wait for what it announces.
    SpawnOwner,
    /// Give up with this error. Nothing has been started.
    Refuse(Error),
}

/// The next thing to do, given the driver's answers so far: `enabled` to
/// whether virtual joysticks are switched on, `driver_matches` to whether
/// the driver's version matches. An answer that was not asked for yet is
/// `None`.
pub open spec fn preflight_step(enabled: Option<bool>, driver_matches: Option<bool>) -> Preflight {
    match enabled {
        None => Preflight::Ask(GatewayCall::IsFeatureEnabled),
        Some(false) => Preflight::Refuse(Error::Disabled),
        Some(true) => match driver_matches {
            None => Preflight::Ask(GatewayCall::DriverVersionMatches),
            Some(false) => Preflight::Refuse(Error::DriverDoesNotMatch),
            Some(true) => Preflight::SpawnOwner,
        },
    }
}

/// Says what the constructing thread is to do next, given the driver's
/// answers so far.
pub fn preflight(enabled: Option<bool>, driver_matches: Option<bool>) -> (next: Preflight)
    ensures
        next == preflight_step(enabled, driver_matches),
{
    match enabled {
        None => Preflight::Ask(GatewayCall::IsFeatureEnabled),
        Some(false) => Preflight::Refuse(Error::Disabled),
        Some(true) => match driver_matches {
            None => Preflight::Ask(GatewayCall::DriverVersionMatches),
            Some(false) => Preflight::Refuse(Error::DriverDoesNotMatch),
            Some(true) => Preflight::SpawnOwner,
        },
    }
}

/// Where the driver says that virtual joysticks are switched off, the
/// construction is refused for that reason, whatever else is known, and the
/// owner thread is not started.
pub proof fn law_disabled_is_refused(driver_matches: Option<bool>)
    ensures
        preflight_step(Some(false), driver_matches) == Preflight::Refuse(Error::Disabled),
{
}

/// Before the owner thread is started the driver is asked two things at
/// most, and neither takes, resets or gives back a device. The owner thread
/// is started only after the driver has said yes to both.
pub proof fn law_preflight_touches_no_device(enabled: Option<bool>, driver_matches: Option<bool>)
    ensures
        preflight_step(enabled, driver_matches) matches Preflight::Ask(call)
            ==> !call.is_lifecycle() && (call is IsFeatureEnabled || call is DriverVersionMatches),
        preflight_step(enabled, driver_matches) is SpawnOwner <==> enabled == Some(true)
            && driver_matches == Some(true),
{
}

} // verus!
