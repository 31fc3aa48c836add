//! A virtual joystick whose buttons are pressed from anywhere and released
//! automatically after a delay.
//!
//! The device itself is driven from one owner thread. Everything else talks
//! to that thread through an ordered channel of commands. This crate holds
//! the rules of that arrangement: what the constructing thread checks before
//! it starts the owner, what the owner thread does with the driver's answers
//! and with each command, and what a press puts on the channel and into the
//! table of pending releases.

use vstd::prelude::*;

pub mod channel;
pub mod command;
pub mod construction;
pub mod config;
pub mod error;
pub mod handshake;
pub mod joystick;
pub mod joystick_laws;
pub mod owner;
pub mod owner_laws;
pub mod release;
pub mod vjoy;

pub use crate::command::JoystickThreadCommand;
pub use crate::config::VirtualJoystickConfig;
pub use crate::construction::{preflight, Preflight};
pub use crate::error::Error;
pub use crate::handshake::Handshake;
pub use crate::joystick::{JoystickView, VirtualJoystick};
pub use crate::owner::{OwnerAction, OwnerEvent, OwnerPhase, OwnerState, OwnerThread};
pub use crate::vjoy::{is_button_down, GatewayCall, Stat};

verus! {

/// The index of a button on the virtual device. The device driver decides
/// which indices exist.
pub type Button = u8;

} // verus!
