//! Hardware-control middleware core.
//!
//! This crate is the device abstraction and command-translation layer of a
//! hardware control system: it normalizes heterogeneous devices behind one
//! endpoint-addressed read/write/subscribe contract, tracks per-actuator
//! state so that repeated identical commands never touch hardware, and
//! encodes deduplicated generic commands into each device family's native
//! wire format. Transport drivers, the async runtime plumbing and all real
//! I/O live outside this crate; everything here is plain data and verified
//! logic.

pub mod command_manager;
pub mod commands;
pub mod endpoint;
pub mod errors;
pub mod evdev_comm_manager;
pub mod evdev_hardware;
pub mod evdev_protocol;
pub mod hardware;
pub mod lovense;
pub mod relay;
pub mod wire;
