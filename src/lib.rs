//! Enumerating and inspecting the network interfaces of a system.
//!
//! The operating system's list of interface addresses arrives here as plain records
//! (`RawRecord`); this library groups them into interfaces, classifies and decodes their
//! addresses, and decides the control calls that read an interface's MTU or hardware
//! address or set it up or down. The platform's numeric constants come in a
//! `ConstantTable` built once at start-up.

use vstd::prelude::*;

pub mod address;
pub mod constants;
pub mod control;
pub mod error;
pub mod flags;
pub mod hwaddr;
pub mod interface;
pub mod sockaddr;
pub mod text;

pub use address::{Address, Kind, NextHop, RawRecord};
pub use constants::{get_constant, ConstantTable};
pub use control::{copy_slice, ControlRequest, FlagsAction, SetUpStage, IFNAMSIZ};
pub use error::InterfacesError;
pub use flags::InterfaceFlags;
pub use hwaddr::HardwareAddr;
pub use interface::Interface;
pub use sockaddr::{make_int16, RawSockAddr, SocketAddr, SocketAddrV4, SocketAddrV6};

verus! {

/// The result type of this library's fallible operations.
pub type Result<T> = core::result::Result<T, InterfacesError>;

} // verus!
