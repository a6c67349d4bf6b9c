use vstd::prelude::*;

verus! {

/// Errors raised by the device abstraction and command-translation layer.
///
/// Transport-level failures during discovery are not represented here: the
/// discovery loop converts them into a retry. Failures during command
/// handling propagate to the command's caller unmodified through this type.
#[derive(Clone, Copy, Debug, PartialEq, Eq, Structural)]
pub enum ButtplugDeviceError {
    /// An operation was attempted on a disconnected handle or a closed
    /// relay channel.
    NotConnected,
    /// Encoding failed for the device family's wire format, e.g. a value
    /// that cannot be represented in it.
    ProtocolSpecificError,
    /// The caller addressed a non-existent actuator or supplied a value
    /// outside the actuator's valid range.
    InvalidCommand,
    /// The connection handshake or identification exchange failed.
    DeviceConnectionError,
    /// The operation is meaningless for this transport, e.g. a one-shot
    /// read on a write/notify-only device.
    NotSupported,
}

impl ButtplugDeviceError {
    /// A short, stable description of the error, for display by callers.
    pub fn description(&self) -> (r: &'static str)
        ensures
            *self is NotConnected ==> r == "device not connected",
            *self is ProtocolSpecificError ==> r == "protocol-specific encoding error",
            *self is InvalidCommand ==> r == "invalid command",
            *self is DeviceConnectionError ==> r == "device connection error",
            *self is NotSupported ==> r == "operation not supported",
    {
        match self {
            ButtplugDeviceError::NotConnected => "device not connected",
            ButtplugDeviceError::ProtocolSpecificError => "protocol-specific encoding error",
            ButtplugDeviceError::InvalidCommand => "invalid command",
            ButtplugDeviceError::DeviceConnectionError => "device connection error",
            ButtplugDeviceError::NotSupported => "operation not supported",
        }
    }
}

} // verus!
